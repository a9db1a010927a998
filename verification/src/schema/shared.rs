//! Types that several parts of a document share.

use vstd::prelude::*;
use crate::text::owned;
use crate::utils::id::{create_id, id_shaped};

verus! {

/// A link: the address and the label shown for it.
#[derive(Debug, Clone)]
pub struct Url {
    pub label: String,
    /// Empty, or an `http(s)://` address.
    pub href: String,
}

impl Url {
    /// A link to `href` with no label.
    pub fn new(href: &str) -> (r: Url)
        ensures
            r.label@ == Seq::<char>::empty(),
            r.href@ == href@,
    {
        Url { label: String::new(), href: owned(href) }
    }

    /// A link with a label.
    pub fn with_label(label: &str, href: &str) -> (r: Url)
        ensures
            r.label@ == label@,
            r.href@ == href@,
    {
        Url { label: owned(label), href: owned(href) }
    }

    /// A link is empty when it has no address.
    pub fn is_empty(&self) -> (r: bool)
        ensures
            r == (self.href@.len() == 0),
    {
        self.href.as_str().is_empty()
    }

    /// Whether two links show the same label for the same address.
    pub open spec fn same(self, other: Url) -> bool {
        self.label@ == other.label@ && self.href@ == other.href@
    }

    /// A copy of the link.
    pub fn copy(&self) -> (r: Url)
        ensures
            r == *self,
    {
        Url { label: self.label.clone(), href: self.href.clone() }
    }
}

impl Default for Url {
    fn default() -> (r: Url)
        ensures
            r.label@ == Seq::<char>::empty(),
            r.href@ == Seq::<char>::empty(),
    {
        Url { label: String::new(), href: String::new() }
    }
}

/// A key/value pair that the subject declares in the basics.
#[derive(Debug, Clone)]
pub struct CustomField {
    pub id: String,
    pub icon: String,
    pub name: String,
    pub value: String,
}

impl CustomField {
    /// A field with a name and a value, a fresh identifier and no icon.
    pub fn new(name: &str, value: &str) -> (r: CustomField)
        ensures
            id_shaped(r.id@),
            r.icon@ == Seq::<char>::empty(),
            r.name@ == name@,
            r.value@ == value@,
    {
        CustomField { id: create_id(), icon: String::new(), name: owned(name), value: owned(value) }
    }

    /// A field with an icon, a name and a value, and a fresh identifier.
    pub fn with_icon(icon: &str, name: &str, value: &str) -> (r: CustomField)
        ensures
            id_shaped(r.id@),
            r.icon@ == icon@,
            r.name@ == name@,
            r.value@ == value@,
    {
        CustomField { id: create_id(), icon: owned(icon), name: owned(name), value: owned(value) }
    }

    /// A copy of the field.
    pub fn copy(&self) -> (r: CustomField)
        ensures
            r == *self,
    {
        CustomField {
            id: self.id.clone(),
            icon: self.icon.clone(),
            name: self.name.clone(),
            value: self.value.clone(),
        }
    }
}

impl crate::schema::items::Content for CustomField {
    open spec fn alike(self, other: CustomField) -> bool {
        self.icon@ == other.icon@ && self.name@ == other.name@ && self.value@ == other.value@
    }
}

} // verus!
