//! The basics: who the subject is and how to reach them.

use vstd::prelude::*;
use crate::schema::decimal::Decimal;
use crate::schema::shared::{CustomField, Url};
use crate::text::owned;
use crate::utils::id::id_shaped;

verus! {

/// How the picture is shown. Each flag stands by itself.
#[derive(Debug, Clone, Copy, PartialEq, Eq, Structural)]
pub struct PictureEffects {
    pub hidden: bool,
    pub border: bool,
    pub grayscale: bool,
}

impl Default for PictureEffects {
    fn default() -> (r: PictureEffects)
        ensures
            !r.hidden && !r.border && !r.grayscale,
    {
        PictureEffects { hidden: false, border: false, grayscale: false }
    }
}

/// The subject's picture.
#[derive(Debug, Clone)]
pub struct Picture {
    /// An address or a data URL.
    pub url: String,
    /// The display size in pixels.
    pub size: u32,
    /// Width over height.
    pub aspect_ratio: Decimal,
    /// In pixels: 0 for a square, half the size for a circle.
    pub border_radius: u32,
    pub effects: PictureEffects,
}

impl Picture {
    /// Whether two pictures have the same fields.
    pub open spec fn same(self, other: Picture) -> bool {
        &&& self.url@ == other.url@
        &&& self.size == other.size
        &&& self.aspect_ratio.text@ == other.aspect_ratio.text@
        &&& self.border_radius == other.border_radius
        &&& self.effects == other.effects
    }

    /// Whether all but the address is as in a picture just made: 64 pixels,
    /// square, no rounding, no effect.
    pub open spec fn plain(self) -> bool {
        &&& self.size == 64
        &&& self.aspect_ratio.text@ == "1.0"@
        &&& self.border_radius == 0
        &&& !self.effects.hidden && !self.effects.border && !self.effects.grayscale
    }

    /// A picture at an address, with every other field at its default.
    pub fn new(url: &str) -> (r: Picture)
        ensures
            r.url@ == url@,
            r.plain(),
    {
        Picture {
            url: owned(url),
            size: 64,
            aspect_ratio: Decimal::one(),
            border_radius: 0,
            effects: PictureEffects::default(),
        }
    }

    /// Whether the picture has an address.
    pub fn has_url(&self) -> (r: bool)
        ensures
            r == (self.url@.len() > 0),
    {
        !self.url.as_str().is_empty()
    }

    /// A picture is shown when it has an address and is not hidden.
    pub fn is_visible(&self) -> (r: bool)
        ensures
            r == (self.url@.len() > 0 && !self.effects.hidden),
    {
        self.has_url() && !self.effects.hidden
    }

    /// A copy of the picture.
    pub fn copy(&self) -> (r: Picture)
        ensures
            r.same(*self),
    {
        Picture {
            url: self.url.clone(),
            size: self.size,
            aspect_ratio: self.aspect_ratio.copy(),
            border_radius: self.border_radius,
            effects: self.effects,
        }
    }
}

impl Default for Picture {
    fn default() -> (r: Picture)
        ensures
            r.url@.len() == 0,
            r.plain(),
    {
        Picture {
            url: String::new(),
            size: 64,
            aspect_ratio: Decimal::one(),
            border_radius: 0,
            effects: PictureEffects::default(),
        }
    }
}

/// Whether two sequences of custom fields agree field by field.
pub open spec fn same_fields(a: Seq<CustomField>, b: Seq<CustomField>) -> bool {
    &&& a.len() == b.len()
    &&& forall|i: int|
        0 <= i < a.len() ==> {
            &&& (#[trigger] a[i]).id@ == b[i].id@
            &&& a[i].icon@ == b[i].icon@
            &&& a[i].name@ == b[i].name@
            &&& a[i].value@ == b[i].value@
        }
}

/// The subject's identity.
#[derive(Debug, Clone)]
pub struct Basics {
    pub name: String,
    pub headline: String,
    /// Empty, or an e-mail address.
    pub email: String,
    pub phone: String,
    pub location: String,
    pub url: Url,
    pub custom_fields: Vec<CustomField>,
    pub picture: Picture,
}

impl Basics {
    /// Whether two subjects have the same fields.
    pub open spec fn same(self, other: Basics) -> bool {
        &&& self.name@ == other.name@
        &&& self.headline@ == other.headline@
        &&& self.email@ == other.email@
        &&& self.phone@ == other.phone@
        &&& self.location@ == other.location@
        &&& self.url.same(other.url)
        &&& same_fields(self.custom_fields@, other.custom_fields@)
        &&& self.picture.same(other.picture)
    }

    /// Whether all but the name is as in basics just made.
    pub open spec fn bare(self) -> bool {
        &&& self.headline@.len() == 0
        &&& self.email@.len() == 0
        &&& self.phone@.len() == 0
        &&& self.location@.len() == 0
        &&& self.url.label@.len() == 0
        &&& self.url.href@.len() == 0
        &&& self.custom_fields@.len() == 0
        &&& self.picture.url@.len() == 0
        &&& self.picture.plain()
    }

    /// A subject by a name, with every other field empty.
    pub fn new(name: &str) -> (r: Basics)
        ensures
            r.name@ == name@,
            r.bare(),
    {
        Basics {
            name: owned(name),
            headline: String::new(),
            email: String::new(),
            phone: String::new(),
            location: String::new(),
            url: Url::default(),
            custom_fields: Vec::new(),
            picture: Picture::default(),
        }
    }

    /// Sets the headline.
    pub fn with_headline(self, headline: &str) -> (r: Basics)
        ensures
            r.headline@ == headline@,
            r == (Basics { headline: r.headline, ..self }),
    {
        let mut b = self;
        b.headline = owned(headline);
        b
    }

    /// Sets the e-mail address.
    pub fn with_email(self, email: &str) -> (r: Basics)
        ensures
            r.email@ == email@,
            r == (Basics { email: r.email, ..self }),
    {
        let mut b = self;
        b.email = owned(email);
        b
    }

    /// Sets the telephone number.
    pub fn with_phone(self, phone: &str) -> (r: Basics)
        ensures
            r.phone@ == phone@,
            r == (Basics { phone: r.phone, ..self }),
    {
        let mut b = self;
        b.phone = owned(phone);
        b
    }

    /// Sets the place.
    pub fn with_location(self, location: &str) -> (r: Basics)
        ensures
            r.location@ == location@,
            r == (Basics { location: r.location, ..self }),
    {
        let mut b = self;
        b.location = owned(location);
        b
    }

    /// Sets the link to `url`, without a label.
    pub fn with_url(self, url: &str) -> (r: Basics)
        ensures
            r.url.href@ == url@,
            r.url.label@.len() == 0,
            r == (Basics { url: r.url, ..self }),
    {
        let mut b = self;
        b.url = Url::new(url);
        b
    }

    /// Puts a custom field with a fresh identifier after those that the
    /// basics hold.
    pub fn add_custom_field(&mut self, name: &str, value: &str)
        ensures
            final(self).custom_fields@.len() == old(self).custom_fields@.len() + 1,
            final(self).custom_fields@.drop_last() == old(self).custom_fields@,
            final(self).custom_fields@.last().name@ == name@,
            final(self).custom_fields@.last().value@ == value@,
            final(self).custom_fields@.last().icon@.len() == 0,
            id_shaped(final(self).custom_fields@.last().id@),
            *final(self) == (Basics { custom_fields: final(self).custom_fields, ..*old(self) }),
    {
        self.custom_fields.push(CustomField::new(name, value));
        assert(final(self).custom_fields@.drop_last() =~= old(self).custom_fields@);
    }

    /// A copy of the subject.
    pub fn copy(&self) -> (r: Basics)
        ensures
            r.same(*self),
    {
        let mut fields: Vec<CustomField> = Vec::new();
        let mut i: usize = 0;
        while i < self.custom_fields.len()
            invariant
                i <= self.custom_fields@.len(),
                fields@.len() == i,
                forall|j: int| 0 <= j < i ==> fields@[j] == self.custom_fields@[j],
            decreases self.custom_fields@.len() - i,
        {
            fields.push(self.custom_fields[i].copy());
            i += 1;
        }
        Basics {
            name: self.name.clone(),
            headline: self.headline.clone(),
            email: self.email.clone(),
            phone: self.phone.clone(),
            location: self.location.clone(),
            url: self.url.copy(),
            custom_fields: fields,
            picture: self.picture.copy(),
        }
    }
}

impl Default for Basics {
    fn default() -> (r: Basics)
        ensures
            r.name@.len() == 0,
            r.bare(),
    {
        proof {
            reveal_strlit("");
        }
        Basics::new("")
    }
}

} // verus!
