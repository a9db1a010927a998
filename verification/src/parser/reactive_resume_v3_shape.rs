//! The shape of a résumé in the predecessor format, and how each part is
//! read out of a JSON value. A member that is absent or `null` reads as
//! nothing; one of the wrong kind is refused. Two members come in two
//! forms: a link is a string or an object, and so is the summary.

use vstd::prelude::*;
use crate::json;
use crate::json::{
    bool_at, bool_ok, count_at, count_ok, get_given, get_member, given, layout_at, layout_ok,
    member, number_at, number_ok, opt_decimal, opt_layout_names, opt_texts, size_count,
    small_count, text_at, text_ok, texts_at, texts_ok, texts_or_none_at, texts_or_none_ok, Json,
};
use crate::parser::traits::ParseError;
use crate::schema::decimal::Decimal;
use crate::text::{opt_text, text_or_empty, texts};

verus! {

/// A link: a plain address, or an object with a label and an address.
#[derive(Debug, Clone)]
pub enum V3Url {
    Empty,
    String(String),
    Object { label: Option<String>, href: Option<String> },
}

impl V3Url {
    /// Whether the value is a string, or an object whose label and address
    /// are strings where they are given.
    pub open spec fn admits(j: Json) -> bool {
        j is Text || (j is Object && text_ok(j, "label"@) && text_ok(j, "href"@))
    }

    /// Whether the link is what the value gives.
    pub open spec fn reads(self, j: Json) -> bool {
        match j {
            Json::Text(s) => self matches V3Url::String(t) && t@ == s@,
            Json::Object(_) => self matches V3Url::Object { label, href } && opt_text(label)
                == text_at(j, "label"@) && opt_text(href) == text_at(j, "href"@),
            _ => false,
        }
    }

    /// Reads the value from JSON. A value that is not admitted is refused.
    pub fn decode(j: &Json) -> (r: Result<V3Url, ParseError>)
        ensures
            r is Ok <==> Self::admits(*j),
            r matches Ok(u) ==> u.reads(*j),
            r matches Err(e) ==> e is ValidationError,
    {
        match j {
            Json::Text(s) => Ok(V3Url::String(s.clone())),
            Json::Object(_) => {
                let label = match json::read_text(j, "label") {
                    Ok(v) => v,
                    Err(e) => return Err(e),
                };
                let href = match json::read_text(j, "href") {
                    Ok(v) => v,
                    Err(e) => return Err(e),
                };
                Ok(V3Url::Object { label, href })
            },
            _ => Err(json::wrong_kind("a link", "a string or an object")),
        }
    }

    /// The address of the link.
    pub open spec fn href(self) -> Seq<char> {
        match self {
            V3Url::Empty => Seq::empty(),
            V3Url::String(s) => s@,
            V3Url::Object { label, href } => text_or_empty(href),
        }
    }

    /// The label of the link: the address, where no label is given.
    pub open spec fn label(self) -> Seq<char> {
        match self {
            V3Url::Empty => Seq::empty(),
            V3Url::String(s) => s@,
            V3Url::Object { label, href } => match label {
                Some(l) => l@,
                None => text_or_empty(href),
            },
        }
    }

    /// The address of the link.
    pub fn to_href(&self) -> (r: String)
        ensures
            r@ == self.href(),
    {
        match self {
            V3Url::Empty => String::new(),
            V3Url::String(s) => s.clone(),
            V3Url::Object { label, href } => match href {
                Some(h) => h.clone(),
                None => String::new(),
            },
        }
    }

    /// The label of the link: its own, or the address where it has none.
    pub fn to_label(&self) -> (r: String)
        ensures
            r@ == self.label(),
    {
        match self {
            V3Url::Empty => String::new(),
            V3Url::String(s) => s.clone(),
            V3Url::Object { label, href } => match label {
                Some(l) => l.clone(),
                None => match href {
                    Some(h) => h.clone(),
                    None => String::new(),
                },
            },
        }
    }
}

/// The summary: a plain text, or an object with a body and a visibility.
#[derive(Debug, Clone)]
pub enum V3Summary {
    Empty,
    String(String),
    Object { body: Option<String>, visible: Option<bool> },
}

impl V3Summary {
    /// Whether the value is a string, or an object whose body is a string
    /// and whose visibility is true or false, where they are given.
    pub open spec fn admits(j: Json) -> bool {
        j is Text || (j is Object && text_ok(j, "body"@) && bool_ok(j, "visible"@))
    }

    /// Whether the summary is what the value gives.
    pub open spec fn reads(self, j: Json) -> bool {
        match j {
            Json::Text(s) => self matches V3Summary::String(t) && t@ == s@,
            Json::Object(_) => self matches V3Summary::Object { body, visible } && opt_text(body)
                == text_at(j, "body"@) && visible == bool_at(j, "visible"@),
            _ => false,
        }
    }

    /// Reads the value from JSON. A value that is not admitted is refused.
    pub fn decode(j: &Json) -> (r: Result<V3Summary, ParseError>)
        ensures
            r is Ok <==> Self::admits(*j),
            r matches Ok(u) ==> u.reads(*j),
            r matches Err(e) ==> e is ValidationError,
    {
        match j {
            Json::Text(s) => Ok(V3Summary::String(s.clone())),
            Json::Object(_) => {
                let body = match json::read_text(j, "body") {
                    Ok(v) => v,
                    Err(e) => return Err(e),
                };
                let visible = match json::read_bool(j, "visible") {
                    Ok(v) => v,
                    Err(e) => return Err(e),
                };
                Ok(V3Summary::Object { body, visible })
            },
            _ => Err(json::wrong_kind("the summary", "a string or an object")),
        }
    }

    /// The text of the summary.
    pub open spec fn content(self) -> Seq<char> {
        match self {
            V3Summary::Empty => Seq::empty(),
            V3Summary::String(s) => s@,
            V3Summary::Object { body, visible } => text_or_empty(body),
        }
    }

    /// Whether the summary is shown: it is, unless the object says not.
    pub open spec fn shown(self) -> bool {
        match self {
            V3Summary::Object { body, visible } => match visible {
                Some(v) => v,
                None => true,
            },
            _ => true,
        }
    }

    /// The text of the summary.
    pub fn to_content(&self) -> (r: String)
        ensures
            r@ == self.content(),
    {
        match self {
            V3Summary::Empty => String::new(),
            V3Summary::String(s) => s.clone(),
            V3Summary::Object { body, visible } => match body {
                Some(b) => b.clone(),
                None => String::new(),
            },
        }
    }

    /// Whether the summary is shown: it is, unless it says otherwise.
    pub fn is_visible(&self) -> (r: bool)
        ensures
            r == self.shown(),
    {
        match self {
            V3Summary::Empty => true,
            V3Summary::String(_) => true,
            V3Summary::Object { body, visible } => match visible {
                Some(v) => *v,
                None => true,
            },
        }
    }
}

/// A section and its items.
#[derive(Debug, Clone)]
pub struct V3Section<T> {
    pub id: Option<String>,
    pub name: Option<String>,
    pub columns: Option<u8>,
    pub visible: Option<bool>,
    pub items: Vec<T>,
}

impl<T> V3Section<T> {
    /// Whether nothing is given.
    pub open spec fn blank(self) -> bool {
        &&& self.id is None
        &&& self.name is None
        &&& self.columns is None
        &&& self.visible is None
        &&& self.items@.len() == 0
    }
}

impl<T> Default for V3Section<T> {
    fn default() -> (r: V3Section<T>)
        ensures
            r.blank(),
    {
        V3Section { id: None, name: None, columns: None, visible: None, items: Vec::new() }
    }
}

/// How the picture is shown.
#[derive(Debug, Clone)]
pub struct V3PictureEffects {
    pub hidden: Option<bool>,
    pub grayscale: Option<bool>,
    pub border: Option<bool>,
}

impl V3PictureEffects {
    /// Whether the value is an object whose members are of the kinds that
    /// picture effects has.
    pub open spec fn admits(j: Json) -> bool {
        &&& j is Object
        &&& bool_ok(j, "hidden"@)
        &&& bool_ok(j, "grayscale"@)
        &&& bool_ok(j, "border"@)
    }

    /// Whether each field is what the value gives under its key.
    pub open spec fn reads(self, j: Json) -> bool {
        &&& self.hidden == bool_at(j, "hidden"@)
        &&& self.grayscale == bool_at(j, "grayscale"@)
        &&& self.border == bool_at(j, "border"@)
    }

    /// Reads the value from JSON. A value that is not admitted is refused.
    pub fn decode(j: &Json) -> (r: Result<V3PictureEffects, ParseError>)
        ensures
            r is Ok <==> Self::admits(*j),
            r matches Ok(t) ==> t.reads(*j),
            r matches Err(e) ==> e is ValidationError,
    {
        if !json::is_object(j) {
            return Err(json::wrong_kind("picture effects", "an object"));
        }
        let hidden = match json::read_bool(j, "hidden") {
            Ok(v) => v,
            Err(e) => return Err(e),
        };
        let grayscale = match json::read_bool(j, "grayscale") {
            Ok(v) => v,
            Err(e) => return Err(e),
        };
        let border = match json::read_bool(j, "border") {
            Ok(v) => v,
            Err(e) => return Err(e),
        };
        Ok(V3PictureEffects { hidden, grayscale, border })
    }
}

/// The picture.
#[derive(Debug, Clone)]
pub struct V3Picture {
    pub url: Option<String>,
    pub visible: Option<bool>,
    pub size: Option<u32>,
    pub aspect_ratio: Option<Decimal>,
    pub border_radius: Option<u32>,
    pub effects: Option<V3PictureEffects>,
}

impl V3Picture {
    /// Whether the value is an object whose members are of the kinds that
    /// a picture has.
    pub open spec fn admits(j: Json) -> bool {
        &&& j is Object
        &&& text_ok(j, "url"@)
        &&& bool_ok(j, "visible"@)
        &&& count_ok(j, "size"@, 4294967295)
        &&& number_ok(j, "aspectRatio"@)
        &&& count_ok(j, "borderRadius"@, 4294967295)
        &&& (match given(j, "effects"@) {
            None => true,
            Some(x) => V3PictureEffects::admits(x),
        })
    }

    /// Whether each field is what the value gives under its key.
    pub open spec fn reads(self, j: Json) -> bool {
        &&& opt_text(self.url) == text_at(j, "url"@)
        &&& self.visible == bool_at(j, "visible"@)
        &&& size_count(self.size) == count_at(j, "size"@)
        &&& opt_decimal(self.aspect_ratio) == number_at(j, "aspectRatio"@)
        &&& size_count(self.border_radius) == count_at(j, "borderRadius"@)
        &&& (match given(j, "effects"@) {
            None => self.effects is None,
            Some(x) => self.effects matches Some(y) && y.reads(x),
        })
    }

    /// Reads the value from JSON. A value that is not admitted is refused.
    pub fn decode(j: &Json) -> (r: Result<V3Picture, ParseError>)
        ensures
            r is Ok <==> Self::admits(*j),
            r matches Ok(t) ==> t.reads(*j),
            r matches Err(e) ==> e is ValidationError,
    {
        if !json::is_object(j) {
            return Err(json::wrong_kind("a picture", "an object"));
        }
        let url = match json::read_text(j, "url") {
            Ok(v) => v,
            Err(e) => return Err(e),
        };
        let visible = match json::read_bool(j, "visible") {
            Ok(v) => v,
            Err(e) => return Err(e),
        };
        let size = match json::read_size(j, "size") {
            Ok(v) => v,
            Err(e) => return Err(e),
        };
        let aspect_ratio = match json::read_number(j, "aspectRatio") {
            Ok(v) => v,
            Err(e) => return Err(e),
        };
        let border_radius = match json::read_size(j, "borderRadius") {
            Ok(v) => v,
            Err(e) => return Err(e),
        };
        let effects = match get_given(j, "effects") {
            None => None,
            Some(x) => match V3PictureEffects::decode(x) {
                Ok(v) => Some(v),
                Err(e) => return Err(e),
            },
        };
        Ok(V3Picture { url, visible, size, aspect_ratio, border_radius, effects })
    }
}

/// A key/value pair of the basics.
#[derive(Debug, Clone)]
pub struct V3CustomField {
    pub id: Option<String>,
    pub icon: Option<String>,
    pub name: Option<String>,
    pub value: Option<String>,
}

impl V3CustomField {
    /// Whether the value is an object whose members are of the kinds that
    /// a custom field has.
    pub open spec fn admits(j: Json) -> bool {
        &&& j is Object
        &&& text_ok(j, "id"@)
        &&& text_ok(j, "icon"@)
        &&& text_ok(j, "name"@)
        &&& text_ok(j, "value"@)
    }

    /// Whether each field is what the value gives under its key.
    pub open spec fn reads(self, j: Json) -> bool {
        &&& opt_text(self.id) == text_at(j, "id"@)
        &&& opt_text(self.icon) == text_at(j, "icon"@)
        &&& opt_text(self.name) == text_at(j, "name"@)
        &&& opt_text(self.value) == text_at(j, "value"@)
    }

    /// Reads the value from JSON. A value that is not admitted is refused.
    pub fn decode(j: &Json) -> (r: Result<V3CustomField, ParseError>)
        ensures
            r is Ok <==> Self::admits(*j),
            r matches Ok(t) ==> t.reads(*j),
            r matches Err(e) ==> e is ValidationError,
    {
        if !json::is_object(j) {
            return Err(json::wrong_kind("a custom field", "an object"));
        }
        let id = match json::read_text(j, "id") {
            Ok(v) => v,
            Err(e) => return Err(e),
        };
        let icon = match json::read_text(j, "icon") {
            Ok(v) => v,
            Err(e) => return Err(e),
        };
        let name = match json::read_text(j, "name") {
            Ok(v) => v,
            Err(e) => return Err(e),
        };
        let value = match json::read_text(j, "value") {
            Ok(v) => v,
            Err(e) => return Err(e),
        };
        Ok(V3CustomField { id, icon, name, value })
    }

    /// Whether each value of the sequence is admitted.
    pub open spec fn admits_all(a: Seq<Json>) -> bool {
        forall|i: int| 0 <= i < a.len() ==> Self::admits(#[trigger] a[i])
    }

    /// Whether the items are what the values give, one for one and in
    /// order.
    pub open spec fn reads_all(v: Seq<V3CustomField>, a: Seq<Json>) -> bool {
        v.len() == a.len() && forall|i: int| 0 <= i < v.len() ==> (#[trigger] v[i]).reads(a[i])
    }

    /// Whether the value is an array of which each element is admitted.
    pub open spec fn admits_list(j: Json) -> bool {
        match j {
            Json::Array(a) => Self::admits_all(a@),
            _ => false,
        }
    }

    /// Whether the items are what the elements of the array give, in order.
    pub open spec fn reads_list(v: Seq<V3CustomField>, j: Json) -> bool {
        match j {
            Json::Array(a) => Self::reads_all(v, a@),
            _ => false,
        }
    }

    /// Reads a list of them from a JSON array, item by item. A value that is
    /// not admitted is refused.
    pub fn decode_list(j: &Json) -> (r: Result<Vec<V3CustomField>, ParseError>)
        ensures
            r is Ok <==> Self::admits_list(*j),
            r matches Ok(v) ==> Self::reads_list(v@, *j),
            r matches Err(e) ==> e is ValidationError,
    {
        match j {
            Json::Array(a) => {
                let mut out: Vec<V3CustomField> = Vec::new();
                let mut i: usize = 0;
                while i < a.len()
                    invariant
                        i <= a@.len(),
                        out@.len() == i,
                        *j == Json::Array(*a),
                        forall|k: int| 0 <= k < i ==> Self::admits(#[trigger] a@[k]),
                        forall|k: int| 0 <= k < i ==> (#[trigger] out@[k]).reads(a@[k]),
                    decreases a@.len() - i,
                {
                    match Self::decode(&a[i]) {
                        Ok(t) => {
                            out.push(t);
                        },
                        Err(e) => {
                            assert(!Self::admits(a@[i as int]));
                            return Err(e);
                        },
                    }
                    i += 1;
                }
                Ok(out)
            },
            _ => Err(json::wrong_kind("a custom field", "a list")),
        }
    }
}

/// The subject.
#[derive(Debug, Clone)]
pub struct V3Basics {
    pub name: Option<String>,
    pub headline: Option<String>,
    pub email: Option<String>,
    pub phone: Option<String>,
    pub location: Option<String>,
    pub url: Option<V3Url>,
    pub picture: Option<V3Picture>,
    pub summary: V3Summary,
    pub custom_fields: Vec<V3CustomField>,
}

impl V3Basics {
    /// Whether the value is an object whose members are of the kinds that
    /// the basics has.
    pub open spec fn admits(j: Json) -> bool {
        &&& j is Object
        &&& text_ok(j, "name"@)
        &&& text_ok(j, "headline"@)
        &&& text_ok(j, "email"@)
        &&& text_ok(j, "phone"@)
        &&& text_ok(j, "location"@)
        &&& (match given(j, "url"@) {
            None => true,
            Some(x) => V3Url::admits(x),
        })
        &&& (match given(j, "picture"@) {
            None => true,
            Some(x) => V3Picture::admits(x),
        })
        &&& (match given(j, "summary"@) {
            None => true,
            Some(x) => V3Summary::admits(x),
        })
        &&& (match member(j, "customFields"@) {
            None => true,
            Some(x) => V3CustomField::admits_list(x),
        })
    }

    /// Whether each field is what the value gives under its key.
    pub open spec fn reads(self, j: Json) -> bool {
        &&& opt_text(self.name) == text_at(j, "name"@)
        &&& opt_text(self.headline) == text_at(j, "headline"@)
        &&& opt_text(self.email) == text_at(j, "email"@)
        &&& opt_text(self.phone) == text_at(j, "phone"@)
        &&& opt_text(self.location) == text_at(j, "location"@)
        &&& (match given(j, "url"@) {
            None => self.url is None,
            Some(x) => self.url matches Some(y) && y.reads(x),
        })
        &&& (match given(j, "picture"@) {
            None => self.picture is None,
            Some(x) => self.picture matches Some(y) && y.reads(x),
        })
        &&& (match given(j, "summary"@) {
            None => self.summary is Empty,
            Some(x) => self.summary.reads(x),
        })
        &&& (match member(j, "customFields"@) {
            None => self.custom_fields@.len() == 0,
            Some(x) => V3CustomField::reads_list(self.custom_fields@, x),
        })
    }

    /// Whether nothing is given.
    pub open spec fn blank(self) -> bool {
        &&& self.name is None
        &&& self.headline is None
        &&& self.email is None
        &&& self.phone is None
        &&& self.location is None
        &&& self.url is None
        &&& self.picture is None
        &&& self.summary is Empty
        &&& self.custom_fields@.len() == 0
    }

    /// Reads the value from JSON. A value that is not admitted is refused.
    pub fn decode(j: &Json) -> (r: Result<V3Basics, ParseError>)
        ensures
            r is Ok <==> Self::admits(*j),
            r matches Ok(t) ==> t.reads(*j),
            r matches Err(e) ==> e is ValidationError,
    {
        if !json::is_object(j) {
            return Err(json::wrong_kind("the basics", "an object"));
        }
        let name = match json::read_text(j, "name") {
            Ok(v) => v,
            Err(e) => return Err(e),
        };
        let headline = match json::read_text(j, "headline") {
            Ok(v) => v,
            Err(e) => return Err(e),
        };
        let email = match json::read_text(j, "email") {
            Ok(v) => v,
            Err(e) => return Err(e),
        };
        let phone = match json::read_text(j, "phone") {
            Ok(v) => v,
            Err(e) => return Err(e),
        };
        let location = match json::read_text(j, "location") {
            Ok(v) => v,
            Err(e) => return Err(e),
        };
        let url = match get_given(j, "url") {
            None => None,
            Some(x) => match V3Url::decode(x) {
                Ok(v) => Some(v),
                Err(e) => return Err(e),
            },
        };
        let picture = match get_given(j, "picture") {
            None => None,
            Some(x) => match V3Picture::decode(x) {
                Ok(v) => Some(v),
                Err(e) => return Err(e),
            },
        };
        let summary = match get_given(j, "summary") {
            None => V3Summary::Empty,
            Some(x) => match V3Summary::decode(x) {
                Ok(v) => v,
                Err(e) => return Err(e),
            },
        };
        let custom_fields = match get_member(j, "customFields") {
            None => Vec::new(),
            Some(x) => match V3CustomField::decode_list(x) {
                Ok(v) => v,
                Err(e) => return Err(e),
            },
        };
        Ok(V3Basics { name, headline, email, phone, location, url, picture, summary, custom_fields })
    }
}

impl Default for V3Basics {
    fn default() -> (r: V3Basics)
        ensures
            r.blank(),
    {
        V3Basics {
            name: None,
            headline: None,
            email: None,
            phone: None,
            location: None,
            url: None,
            picture: None,
            summary: V3Summary::Empty,
            custom_fields: Vec::new(),
        }
    }
}

/// An account on a network.
#[derive(Debug, Clone)]
pub struct V3Profile {
    pub id: Option<String>,
    pub visible: Option<bool>,
    pub network: Option<String>,
    pub username: Option<String>,
    pub icon: Option<String>,
    pub url: Option<V3Url>,
}

impl V3Profile {
    /// Whether the value is an object whose members are of the kinds that
    /// a profile has.
    pub open spec fn admits(j: Json) -> bool {
        &&& j is Object
        &&& text_ok(j, "id"@)
        &&& bool_ok(j, "visible"@)
        &&& text_ok(j, "network"@)
        &&& text_ok(j, "username"@)
        &&& text_ok(j, "icon"@)
        &&& (match given(j, "url"@) {
            None => true,
            Some(x) => V3Url::admits(x),
        })
    }

    /// Whether each field is what the value gives under its key.
    pub open spec fn reads(self, j: Json) -> bool {
        &&& opt_text(self.id) == text_at(j, "id"@)
        &&& self.visible == bool_at(j, "visible"@)
        &&& opt_text(self.network) == text_at(j, "network"@)
        &&& opt_text(self.username) == text_at(j, "username"@)
        &&& opt_text(self.icon) == text_at(j, "icon"@)
        &&& (match given(j, "url"@) {
            None => self.url is None,
            Some(x) => self.url matches Some(y) && y.reads(x),
        })
    }

    /// Reads the value from JSON. A value that is not admitted is refused.
    pub fn decode(j: &Json) -> (r: Result<V3Profile, ParseError>)
        ensures
            r is Ok <==> Self::admits(*j),
            r matches Ok(t) ==> t.reads(*j),
            r matches Err(e) ==> e is ValidationError,
    {
        if !json::is_object(j) {
            return Err(json::wrong_kind("a profile", "an object"));
        }
        let id = match json::read_text(j, "id") {
            Ok(v) => v,
            Err(e) => return Err(e),
        };
        let visible = match json::read_bool(j, "visible") {
            Ok(v) => v,
            Err(e) => return Err(e),
        };
        let network = match json::read_text(j, "network") {
            Ok(v) => v,
            Err(e) => return Err(e),
        };
        let username = match json::read_text(j, "username") {
            Ok(v) => v,
            Err(e) => return Err(e),
        };
        let icon = match json::read_text(j, "icon") {
            Ok(v) => v,
            Err(e) => return Err(e),
        };
        let url = match get_given(j, "url") {
            None => None,
            Some(x) => match V3Url::decode(x) {
                Ok(v) => Some(v),
                Err(e) => return Err(e),
            },
        };
        Ok(V3Profile { id, visible, network, username, icon, url })
    }

    /// Whether each value of the sequence is admitted.
    pub open spec fn admits_all(a: Seq<Json>) -> bool {
        forall|i: int| 0 <= i < a.len() ==> Self::admits(#[trigger] a[i])
    }

    /// Whether the items are what the values give, one for one and in
    /// order.
    pub open spec fn reads_all(v: Seq<V3Profile>, a: Seq<Json>) -> bool {
        v.len() == a.len() && forall|i: int| 0 <= i < v.len() ==> (#[trigger] v[i]).reads(a[i])
    }

    /// Whether the value is an array of which each element is admitted.
    pub open spec fn admits_list(j: Json) -> bool {
        match j {
            Json::Array(a) => Self::admits_all(a@),
            _ => false,
        }
    }

    /// Whether the items are what the elements of the array give, in order.
    pub open spec fn reads_list(v: Seq<V3Profile>, j: Json) -> bool {
        match j {
            Json::Array(a) => Self::reads_all(v, a@),
            _ => false,
        }
    }

    /// Reads a list of them from a JSON array, item by item. A value that is
    /// not admitted is refused.
    pub fn decode_list(j: &Json) -> (r: Result<Vec<V3Profile>, ParseError>)
        ensures
            r is Ok <==> Self::admits_list(*j),
            r matches Ok(v) ==> Self::reads_list(v@, *j),
            r matches Err(e) ==> e is ValidationError,
    {
        match j {
            Json::Array(a) => {
                let mut out: Vec<V3Profile> = Vec::new();
                let mut i: usize = 0;
                while i < a.len()
                    invariant
                        i <= a@.len(),
                        out@.len() == i,
                        *j == Json::Array(*a),
                        forall|k: int| 0 <= k < i ==> Self::admits(#[trigger] a@[k]),
                        forall|k: int| 0 <= k < i ==> (#[trigger] out@[k]).reads(a@[k]),
                    decreases a@.len() - i,
                {
                    match Self::decode(&a[i]) {
                        Ok(t) => {
                            out.push(t);
                        },
                        Err(e) => {
                            assert(!Self::admits(a@[i as int]));
                            return Err(e);
                        },
                    }
                    i += 1;
                }
                Ok(out)
            },
            _ => Err(json::wrong_kind("a profile", "a list")),
        }
    }


    /// Whether the value is a section of such items.
    pub open spec fn admits_section(j: Json) -> bool {
        &&& j is Object
        &&& text_ok(j, "id"@)
        &&& text_ok(j, "name"@)
        &&& count_ok(j, "columns"@, 255)
        &&& bool_ok(j, "visible"@)
        &&& (match member(j, "items"@) {
            None => true,
            Some(x) => Self::admits_list(x),
        })
    }

    /// Whether the section is what the value gives.
    pub open spec fn reads_section(s: V3Section<V3Profile>, j: Json) -> bool {
        &&& opt_text(s.id) == text_at(j, "id"@)
        &&& opt_text(s.name) == text_at(j, "name"@)
        &&& small_count(s.columns) == count_at(j, "columns"@)
        &&& s.visible == bool_at(j, "visible"@)
        &&& (match member(j, "items"@) {
            None => s.items@.len() == 0,
            Some(x) => Self::reads_list(s.items@, x),
        })
    }

    /// Reads a section of them from JSON. A value that is not admitted is
    /// refused.
    pub fn decode_section(j: &Json) -> (r: Result<V3Section<V3Profile>, ParseError>)
        ensures
            r is Ok <==> Self::admits_section(*j),
            r matches Ok(s) ==> Self::reads_section(s, *j),
            r matches Err(e) ==> e is ValidationError,
    {
        if !json::is_object(j) {
            return Err(json::wrong_kind("a section", "an object"));
        }
        let id = match json::read_text(j, "id") {
            Ok(v) => v,
            Err(e) => return Err(e),
        };
        let name = match json::read_text(j, "name") {
            Ok(v) => v,
            Err(e) => return Err(e),
        };
        let columns = match json::read_small(j, "columns") {
            Ok(v) => v,
            Err(e) => return Err(e),
        };
        let visible = match json::read_bool(j, "visible") {
            Ok(v) => v,
            Err(e) => return Err(e),
        };
        let items = match get_member(j, "items") {
            None => Vec::new(),
            Some(x) => match Self::decode_list(x) {
                Ok(v) => v,
                Err(e) => return Err(e),
            },
        };
        Ok(V3Section { id, name, columns, visible, items })
    }
}

/// A position held.
#[derive(Debug, Clone)]
pub struct V3Experience {
    pub id: Option<String>,
    pub visible: Option<bool>,
    pub company: Option<String>,
    pub position: Option<String>,
    pub location: Option<String>,
    pub date: Option<String>,
    pub summary: Option<String>,
    pub url: Option<V3Url>,
}

impl V3Experience {
    /// Whether the value is an object whose members are of the kinds that
    /// a position has.
    pub open spec fn admits(j: Json) -> bool {
        &&& j is Object
        &&& text_ok(j, "id"@)
        &&& bool_ok(j, "visible"@)
        &&& text_ok(j, "company"@)
        &&& text_ok(j, "position"@)
        &&& text_ok(j, "location"@)
        &&& text_ok(j, "date"@)
        &&& text_ok(j, "summary"@)
        &&& (match given(j, "url"@) {
            None => true,
            Some(x) => V3Url::admits(x),
        })
    }

    /// Whether each field is what the value gives under its key.
    pub open spec fn reads(self, j: Json) -> bool {
        &&& opt_text(self.id) == text_at(j, "id"@)
        &&& self.visible == bool_at(j, "visible"@)
        &&& opt_text(self.company) == text_at(j, "company"@)
        &&& opt_text(self.position) == text_at(j, "position"@)
        &&& opt_text(self.location) == text_at(j, "location"@)
        &&& opt_text(self.date) == text_at(j, "date"@)
        &&& opt_text(self.summary) == text_at(j, "summary"@)
        &&& (match given(j, "url"@) {
            None => self.url is None,
            Some(x) => self.url matches Some(y) && y.reads(x),
        })
    }

    /// Reads the value from JSON. A value that is not admitted is refused.
    pub fn decode(j: &Json) -> (r: Result<V3Experience, ParseError>)
        ensures
            r is Ok <==> Self::admits(*j),
            r matches Ok(t) ==> t.reads(*j),
            r matches Err(e) ==> e is ValidationError,
    {
        if !json::is_object(j) {
            return Err(json::wrong_kind("a position", "an object"));
        }
        let id = match json::read_text(j, "id") {
            Ok(v) => v,
            Err(e) => return Err(e),
        };
        let visible = match json::read_bool(j, "visible") {
            Ok(v) => v,
            Err(e) => return Err(e),
        };
        let company = match json::read_text(j, "company") {
            Ok(v) => v,
            Err(e) => return Err(e),
        };
        let position = match json::read_text(j, "position") {
            Ok(v) => v,
            Err(e) => return Err(e),
        };
        let location = match json::read_text(j, "location") {
            Ok(v) => v,
            Err(e) => return Err(e),
        };
        let date = match json::read_text(j, "date") {
            Ok(v) => v,
            Err(e) => return Err(e),
        };
        let summary = match json::read_text(j, "summary") {
            Ok(v) => v,
            Err(e) => return Err(e),
        };
        let url = match get_given(j, "url") {
            None => None,
            Some(x) => match V3Url::decode(x) {
                Ok(v) => Some(v),
                Err(e) => return Err(e),
            },
        };
        Ok(V3Experience { id, visible, company, position, location, date, summary, url })
    }

    /// Whether each value of the sequence is admitted.
    pub open spec fn admits_all(a: Seq<Json>) -> bool {
        forall|i: int| 0 <= i < a.len() ==> Self::admits(#[trigger] a[i])
    }

    /// Whether the items are what the values give, one for one and in
    /// order.
    pub open spec fn reads_all(v: Seq<V3Experience>, a: Seq<Json>) -> bool {
        v.len() == a.len() && forall|i: int| 0 <= i < v.len() ==> (#[trigger] v[i]).reads(a[i])
    }

    /// Whether the value is an array of which each element is admitted.
    pub open spec fn admits_list(j: Json) -> bool {
        match j {
            Json::Array(a) => Self::admits_all(a@),
            _ => false,
        }
    }

    /// Whether the items are what the elements of the array give, in order.
    pub open spec fn reads_list(v: Seq<V3Experience>, j: Json) -> bool {
        match j {
            Json::Array(a) => Self::reads_all(v, a@),
            _ => false,
        }
    }

    /// Reads a list of them from a JSON array, item by item. A value that is
    /// not admitted is refused.
    pub fn decode_list(j: &Json) -> (r: Result<Vec<V3Experience>, ParseError>)
        ensures
            r is Ok <==> Self::admits_list(*j),
            r matches Ok(v) ==> Self::reads_list(v@, *j),
            r matches Err(e) ==> e is ValidationError,
    {
        match j {
            Json::Array(a) => {
                let mut out: Vec<V3Experience> = Vec::new();
                let mut i: usize = 0;
                while i < a.len()
                    invariant
                        i <= a@.len(),
                        out@.len() == i,
                        *j == Json::Array(*a),
                        forall|k: int| 0 <= k < i ==> Self::admits(#[trigger] a@[k]),
                        forall|k: int| 0 <= k < i ==> (#[trigger] out@[k]).reads(a@[k]),
                    decreases a@.len() - i,
                {
                    match Self::decode(&a[i]) {
                        Ok(t) => {
                            out.push(t);
                        },
                        Err(e) => {
                            assert(!Self::admits(a@[i as int]));
                            return Err(e);
                        },
                    }
                    i += 1;
                }
                Ok(out)
            },
            _ => Err(json::wrong_kind("a position", "a list")),
        }
    }


    /// Whether the value is a section of such items.
    pub open spec fn admits_section(j: Json) -> bool {
        &&& j is Object
        &&& text_ok(j, "id"@)
        &&& text_ok(j, "name"@)
        &&& count_ok(j, "columns"@, 255)
        &&& bool_ok(j, "visible"@)
        &&& (match member(j, "items"@) {
            None => true,
            Some(x) => Self::admits_list(x),
        })
    }

    /// Whether the section is what the value gives.
    pub open spec fn reads_section(s: V3Section<V3Experience>, j: Json) -> bool {
        &&& opt_text(s.id) == text_at(j, "id"@)
        &&& opt_text(s.name) == text_at(j, "name"@)
        &&& small_count(s.columns) == count_at(j, "columns"@)
        &&& s.visible == bool_at(j, "visible"@)
        &&& (match member(j, "items"@) {
            None => s.items@.len() == 0,
            Some(x) => Self::reads_list(s.items@, x),
        })
    }

    /// Reads a section of them from JSON. A value that is not admitted is
    /// refused.
    pub fn decode_section(j: &Json) -> (r: Result<V3Section<V3Experience>, ParseError>)
        ensures
            r is Ok <==> Self::admits_section(*j),
            r matches Ok(s) ==> Self::reads_section(s, *j),
            r matches Err(e) ==> e is ValidationError,
    {
        if !json::is_object(j) {
            return Err(json::wrong_kind("a section", "an object"));
        }
        let id = match json::read_text(j, "id") {
            Ok(v) => v,
            Err(e) => return Err(e),
        };
        let name = match json::read_text(j, "name") {
            Ok(v) => v,
            Err(e) => return Err(e),
        };
        let columns = match json::read_small(j, "columns") {
            Ok(v) => v,
            Err(e) => return Err(e),
        };
        let visible = match json::read_bool(j, "visible") {
            Ok(v) => v,
            Err(e) => return Err(e),
        };
        let items = match get_member(j, "items") {
            None => Vec::new(),
            Some(x) => match Self::decode_list(x) {
                Ok(v) => v,
                Err(e) => return Err(e),
            },
        };
        Ok(V3Section { id, name, columns, visible, items })
    }
}

/// A course of study.
#[derive(Debug, Clone)]
pub struct V3Education {
    pub id: Option<String>,
    pub visible: Option<bool>,
    pub institution: Option<String>,
    pub area: Option<String>,
    pub study_type: Option<String>,
    pub score: Option<String>,
    pub date: Option<String>,
    pub summary: Option<String>,
    pub url: Option<V3Url>,
}

impl V3Education {
    /// Whether the value is an object whose members are of the kinds that
    /// a course of study has.
    pub open spec fn admits(j: Json) -> bool {
        &&& j is Object
        &&& text_ok(j, "id"@)
        &&& bool_ok(j, "visible"@)
        &&& text_ok(j, "institution"@)
        &&& text_ok(j, "area"@)
        &&& text_ok(j, "studyType"@)
        &&& text_ok(j, "score"@)
        &&& text_ok(j, "date"@)
        &&& text_ok(j, "summary"@)
        &&& (match given(j, "url"@) {
            None => true,
            Some(x) => V3Url::admits(x),
        })
    }

    /// Whether each field is what the value gives under its key.
    pub open spec fn reads(self, j: Json) -> bool {
        &&& opt_text(self.id) == text_at(j, "id"@)
        &&& self.visible == bool_at(j, "visible"@)
        &&& opt_text(self.institution) == text_at(j, "institution"@)
        &&& opt_text(self.area) == text_at(j, "area"@)
        &&& opt_text(self.study_type) == text_at(j, "studyType"@)
        &&& opt_text(self.score) == text_at(j, "score"@)
        &&& opt_text(self.date) == text_at(j, "date"@)
        &&& opt_text(self.summary) == text_at(j, "summary"@)
        &&& (match given(j, "url"@) {
            None => self.url is None,
            Some(x) => self.url matches Some(y) && y.reads(x),
        })
    }

    /// Reads the value from JSON. A value that is not admitted is refused.
    pub fn decode(j: &Json) -> (r: Result<V3Education, ParseError>)
        ensures
            r is Ok <==> Self::admits(*j),
            r matches Ok(t) ==> t.reads(*j),
            r matches Err(e) ==> e is ValidationError,
    {
        if !json::is_object(j) {
            return Err(json::wrong_kind("a course of study", "an object"));
        }
        let id = match json::read_text(j, "id") {
            Ok(v) => v,
            Err(e) => return Err(e),
        };
        let visible = match json::read_bool(j, "visible") {
            Ok(v) => v,
            Err(e) => return Err(e),
        };
        let institution = match json::read_text(j, "institution") {
            Ok(v) => v,
            Err(e) => return Err(e),
        };
        let area = match json::read_text(j, "area") {
            Ok(v) => v,
            Err(e) => return Err(e),
        };
        let study_type = match json::read_text(j, "studyType") {
            Ok(v) => v,
            Err(e) => return Err(e),
        };
        let score = match json::read_text(j, "score") {
            Ok(v) => v,
            Err(e) => return Err(e),
        };
        let date = match json::read_text(j, "date") {
            Ok(v) => v,
            Err(e) => return Err(e),
        };
        let summary = match json::read_text(j, "summary") {
            Ok(v) => v,
            Err(e) => return Err(e),
        };
        let url = match get_given(j, "url") {
            None => None,
            Some(x) => match V3Url::decode(x) {
                Ok(v) => Some(v),
                Err(e) => return Err(e),
            },
        };
        Ok(V3Education { id, visible, institution, area, study_type, score, date, summary, url })
    }

    /// Whether each value of the sequence is admitted.
    pub open spec fn admits_all(a: Seq<Json>) -> bool {
        forall|i: int| 0 <= i < a.len() ==> Self::admits(#[trigger] a[i])
    }

    /// Whether the items are what the values give, one for one and in
    /// order.
    pub open spec fn reads_all(v: Seq<V3Education>, a: Seq<Json>) -> bool {
        v.len() == a.len() && forall|i: int| 0 <= i < v.len() ==> (#[trigger] v[i]).reads(a[i])
    }

    /// Whether the value is an array of which each element is admitted.
    pub open spec fn admits_list(j: Json) -> bool {
        match j {
            Json::Array(a) => Self::admits_all(a@),
            _ => false,
        }
    }

    /// Whether the items are what the elements of the array give, in order.
    pub open spec fn reads_list(v: Seq<V3Education>, j: Json) -> bool {
        match j {
            Json::Array(a) => Self::reads_all(v, a@),
            _ => false,
        }
    }

    /// Reads a list of them from a JSON array, item by item. A value that is
    /// not admitted is refused.
    pub fn decode_list(j: &Json) -> (r: Result<Vec<V3Education>, ParseError>)
        ensures
            r is Ok <==> Self::admits_list(*j),
            r matches Ok(v) ==> Self::reads_list(v@, *j),
            r matches Err(e) ==> e is ValidationError,
    {
        match j {
            Json::Array(a) => {
                let mut out: Vec<V3Education> = Vec::new();
                let mut i: usize = 0;
                while i < a.len()
                    invariant
                        i <= a@.len(),
                        out@.len() == i,
                        *j == Json::Array(*a),
                        forall|k: int| 0 <= k < i ==> Self::admits(#[trigger] a@[k]),
                        forall|k: int| 0 <= k < i ==> (#[trigger] out@[k]).reads(a@[k]),
                    decreases a@.len() - i,
                {
                    match Self::decode(&a[i]) {
                        Ok(t) => {
                            out.push(t);
                        },
                        Err(e) => {
                            assert(!Self::admits(a@[i as int]));
                            return Err(e);
                        },
                    }
                    i += 1;
                }
                Ok(out)
            },
            _ => Err(json::wrong_kind("a course of study", "a list")),
        }
    }


    /// Whether the value is a section of such items.
    pub open spec fn admits_section(j: Json) -> bool {
        &&& j is Object
        &&& text_ok(j, "id"@)
        &&& text_ok(j, "name"@)
        &&& count_ok(j, "columns"@, 255)
        &&& bool_ok(j, "visible"@)
        &&& (match member(j, "items"@) {
            None => true,
            Some(x) => Self::admits_list(x),
        })
    }

    /// Whether the section is what the value gives.
    pub open spec fn reads_section(s: V3Section<V3Education>, j: Json) -> bool {
        &&& opt_text(s.id) == text_at(j, "id"@)
        &&& opt_text(s.name) == text_at(j, "name"@)
        &&& small_count(s.columns) == count_at(j, "columns"@)
        &&& s.visible == bool_at(j, "visible"@)
        &&& (match member(j, "items"@) {
            None => s.items@.len() == 0,
            Some(x) => Self::reads_list(s.items@, x),
        })
    }

    /// Reads a section of them from JSON. A value that is not admitted is
    /// refused.
    pub fn decode_section(j: &Json) -> (r: Result<V3Section<V3Education>, ParseError>)
        ensures
            r is Ok <==> Self::admits_section(*j),
            r matches Ok(s) ==> Self::reads_section(s, *j),
            r matches Err(e) ==> e is ValidationError,
    {
        if !json::is_object(j) {
            return Err(json::wrong_kind("a section", "an object"));
        }
        let id = match json::read_text(j, "id") {
            Ok(v) => v,
            Err(e) => return Err(e),
        };
        let name = match json::read_text(j, "name") {
            Ok(v) => v,
            Err(e) => return Err(e),
        };
        let columns = match json::read_small(j, "columns") {
            Ok(v) => v,
            Err(e) => return Err(e),
        };
        let visible = match json::read_bool(j, "visible") {
            Ok(v) => v,
            Err(e) => return Err(e),
        };
        let items = match get_member(j, "items") {
            None => Vec::new(),
            Some(x) => match Self::decode_list(x) {
                Ok(v) => v,
                Err(e) => return Err(e),
            },
        };
        Ok(V3Section { id, name, columns, visible, items })
    }
}

/// A skill.
#[derive(Debug, Clone)]
pub struct V3Skill {
    pub id: Option<String>,
    pub visible: Option<bool>,
    pub name: Option<String>,
    pub level: Option<u8>,
    pub description: Option<String>,
    pub keywords: Vec<String>,
}

impl V3Skill {
    /// Whether the value is an object whose members are of the kinds that
    /// a skill has.
    pub open spec fn admits(j: Json) -> bool {
        &&& j is Object
        &&& text_ok(j, "id"@)
        &&& bool_ok(j, "visible"@)
        &&& text_ok(j, "name"@)
        &&& count_ok(j, "level"@, 255)
        &&& text_ok(j, "description"@)
        &&& texts_or_none_ok(j, "keywords"@)
    }

    /// Whether each field is what the value gives under its key.
    pub open spec fn reads(self, j: Json) -> bool {
        &&& opt_text(self.id) == text_at(j, "id"@)
        &&& self.visible == bool_at(j, "visible"@)
        &&& opt_text(self.name) == text_at(j, "name"@)
        &&& small_count(self.level) == count_at(j, "level"@)
        &&& opt_text(self.description) == text_at(j, "description"@)
        &&& texts(self.keywords@) == texts_or_none_at(j, "keywords"@)
    }

    /// Reads the value from JSON. A value that is not admitted is refused.
    pub fn decode(j: &Json) -> (r: Result<V3Skill, ParseError>)
        ensures
            r is Ok <==> Self::admits(*j),
            r matches Ok(t) ==> t.reads(*j),
            r matches Err(e) ==> e is ValidationError,
    {
        if !json::is_object(j) {
            return Err(json::wrong_kind("a skill", "an object"));
        }
        let id = match json::read_text(j, "id") {
            Ok(v) => v,
            Err(e) => return Err(e),
        };
        let visible = match json::read_bool(j, "visible") {
            Ok(v) => v,
            Err(e) => return Err(e),
        };
        let name = match json::read_text(j, "name") {
            Ok(v) => v,
            Err(e) => return Err(e),
        };
        let level = match json::read_small(j, "level") {
            Ok(v) => v,
            Err(e) => return Err(e),
        };
        let description = match json::read_text(j, "description") {
            Ok(v) => v,
            Err(e) => return Err(e),
        };
        let keywords = match json::read_texts_or_none(j, "keywords") {
            Ok(v) => v,
            Err(e) => return Err(e),
        };
        Ok(V3Skill { id, visible, name, level, description, keywords })
    }

    /// Whether each value of the sequence is admitted.
    pub open spec fn admits_all(a: Seq<Json>) -> bool {
        forall|i: int| 0 <= i < a.len() ==> Self::admits(#[trigger] a[i])
    }

    /// Whether the items are what the values give, one for one and in
    /// order.
    pub open spec fn reads_all(v: Seq<V3Skill>, a: Seq<Json>) -> bool {
        v.len() == a.len() && forall|i: int| 0 <= i < v.len() ==> (#[trigger] v[i]).reads(a[i])
    }

    /// Whether the value is an array of which each element is admitted.
    pub open spec fn admits_list(j: Json) -> bool {
        match j {
            Json::Array(a) => Self::admits_all(a@),
            _ => false,
        }
    }

    /// Whether the items are what the elements of the array give, in order.
    pub open spec fn reads_list(v: Seq<V3Skill>, j: Json) -> bool {
        match j {
            Json::Array(a) => Self::reads_all(v, a@),
            _ => false,
        }
    }

    /// Reads a list of them from a JSON array, item by item. A value that is
    /// not admitted is refused.
    pub fn decode_list(j: &Json) -> (r: Result<Vec<V3Skill>, ParseError>)
        ensures
            r is Ok <==> Self::admits_list(*j),
            r matches Ok(v) ==> Self::reads_list(v@, *j),
            r matches Err(e) ==> e is ValidationError,
    {
        match j {
            Json::Array(a) => {
                let mut out: Vec<V3Skill> = Vec::new();
                let mut i: usize = 0;
                while i < a.len()
                    invariant
                        i <= a@.len(),
                        out@.len() == i,
                        *j == Json::Array(*a),
                        forall|k: int| 0 <= k < i ==> Self::admits(#[trigger] a@[k]),
                        forall|k: int| 0 <= k < i ==> (#[trigger] out@[k]).reads(a@[k]),
                    decreases a@.len() - i,
                {
                    match Self::decode(&a[i]) {
                        Ok(t) => {
                            out.push(t);
                        },
                        Err(e) => {
                            assert(!Self::admits(a@[i as int]));
                            return Err(e);
                        },
                    }
                    i += 1;
                }
                Ok(out)
            },
            _ => Err(json::wrong_kind("a skill", "a list")),
        }
    }


    /// Whether the value is a section of such items.
    pub open spec fn admits_section(j: Json) -> bool {
        &&& j is Object
        &&& text_ok(j, "id"@)
        &&& text_ok(j, "name"@)
        &&& count_ok(j, "columns"@, 255)
        &&& bool_ok(j, "visible"@)
        &&& (match member(j, "items"@) {
            None => true,
            Some(x) => Self::admits_list(x),
        })
    }

    /// Whether the section is what the value gives.
    pub open spec fn reads_section(s: V3Section<V3Skill>, j: Json) -> bool {
        &&& opt_text(s.id) == text_at(j, "id"@)
        &&& opt_text(s.name) == text_at(j, "name"@)
        &&& small_count(s.columns) == count_at(j, "columns"@)
        &&& s.visible == bool_at(j, "visible"@)
        &&& (match member(j, "items"@) {
            None => s.items@.len() == 0,
            Some(x) => Self::reads_list(s.items@, x),
        })
    }

    /// Reads a section of them from JSON. A value that is not admitted is
    /// refused.
    pub fn decode_section(j: &Json) -> (r: Result<V3Section<V3Skill>, ParseError>)
        ensures
            r is Ok <==> Self::admits_section(*j),
            r matches Ok(s) ==> Self::reads_section(s, *j),
            r matches Err(e) ==> e is ValidationError,
    {
        if !json::is_object(j) {
            return Err(json::wrong_kind("a section", "an object"));
        }
        let id = match json::read_text(j, "id") {
            Ok(v) => v,
            Err(e) => return Err(e),
        };
        let name = match json::read_text(j, "name") {
            Ok(v) => v,
            Err(e) => return Err(e),
        };
        let columns = match json::read_small(j, "columns") {
            Ok(v) => v,
            Err(e) => return Err(e),
        };
        let visible = match json::read_bool(j, "visible") {
            Ok(v) => v,
            Err(e) => return Err(e),
        };
        let items = match get_member(j, "items") {
            None => Vec::new(),
            Some(x) => match Self::decode_list(x) {
                Ok(v) => v,
                Err(e) => return Err(e),
            },
        };
        Ok(V3Section { id, name, columns, visible, items })
    }
}

/// A language.
#[derive(Debug, Clone)]
pub struct V3Language {
    pub id: Option<String>,
    pub visible: Option<bool>,
    pub name: Option<String>,
    pub level: Option<u8>,
    pub description: Option<String>,
}

impl V3Language {
    /// Whether the value is an object whose members are of the kinds that
    /// a language has.
    pub open spec fn admits(j: Json) -> bool {
        &&& j is Object
        &&& text_ok(j, "id"@)
        &&& bool_ok(j, "visible"@)
        &&& text_ok(j, "name"@)
        &&& count_ok(j, "level"@, 255)
        &&& text_ok(j, "description"@)
    }

    /// Whether each field is what the value gives under its key.
    pub open spec fn reads(self, j: Json) -> bool {
        &&& opt_text(self.id) == text_at(j, "id"@)
        &&& self.visible == bool_at(j, "visible"@)
        &&& opt_text(self.name) == text_at(j, "name"@)
        &&& small_count(self.level) == count_at(j, "level"@)
        &&& opt_text(self.description) == text_at(j, "description"@)
    }

    /// Reads the value from JSON. A value that is not admitted is refused.
    pub fn decode(j: &Json) -> (r: Result<V3Language, ParseError>)
        ensures
            r is Ok <==> Self::admits(*j),
            r matches Ok(t) ==> t.reads(*j),
            r matches Err(e) ==> e is ValidationError,
    {
        if !json::is_object(j) {
            return Err(json::wrong_kind("a language", "an object"));
        }
        let id = match json::read_text(j, "id") {
            Ok(v) => v,
            Err(e) => return Err(e),
        };
        let visible = match json::read_bool(j, "visible") {
            Ok(v) => v,
            Err(e) => return Err(e),
        };
        let name = match json::read_text(j, "name") {
            Ok(v) => v,
            Err(e) => return Err(e),
        };
        let level = match json::read_small(j, "level") {
            Ok(v) => v,
            Err(e) => return Err(e),
        };
        let description = match json::read_text(j, "description") {
            Ok(v) => v,
            Err(e) => return Err(e),
        };
        Ok(V3Language { id, visible, name, level, description })
    }

    /// Whether each value of the sequence is admitted.
    pub open spec fn admits_all(a: Seq<Json>) -> bool {
        forall|i: int| 0 <= i < a.len() ==> Self::admits(#[trigger] a[i])
    }

    /// Whether the items are what the values give, one for one and in
    /// order.
    pub open spec fn reads_all(v: Seq<V3Language>, a: Seq<Json>) -> bool {
        v.len() == a.len() && forall|i: int| 0 <= i < v.len() ==> (#[trigger] v[i]).reads(a[i])
    }

    /// Whether the value is an array of which each element is admitted.
    pub open spec fn admits_list(j: Json) -> bool {
        match j {
            Json::Array(a) => Self::admits_all(a@),
            _ => false,
        }
    }

    /// Whether the items are what the elements of the array give, in order.
    pub open spec fn reads_list(v: Seq<V3Language>, j: Json) -> bool {
        match j {
            Json::Array(a) => Self::reads_all(v, a@),
            _ => false,
        }
    }

    /// Reads a list of them from a JSON array, item by item. A value that is
    /// not admitted is refused.
    pub fn decode_list(j: &Json) -> (r: Result<Vec<V3Language>, ParseError>)
        ensures
            r is Ok <==> Self::admits_list(*j),
            r matches Ok(v) ==> Self::reads_list(v@, *j),
            r matches Err(e) ==> e is ValidationError,
    {
        match j {
            Json::Array(a) => {
                let mut out: Vec<V3Language> = Vec::new();
                let mut i: usize = 0;
                while i < a.len()
                    invariant
                        i <= a@.len(),
                        out@.len() == i,
                        *j == Json::Array(*a),
                        forall|k: int| 0 <= k < i ==> Self::admits(#[trigger] a@[k]),
                        forall|k: int| 0 <= k < i ==> (#[trigger] out@[k]).reads(a@[k]),
                    decreases a@.len() - i,
                {
                    match Self::decode(&a[i]) {
                        Ok(t) => {
                            out.push(t);
                        },
                        Err(e) => {
                            assert(!Self::admits(a@[i as int]));
                            return Err(e);
                        },
                    }
                    i += 1;
                }
                Ok(out)
            },
            _ => Err(json::wrong_kind("a language", "a list")),
        }
    }


    /// Whether the value is a section of such items.
    pub open spec fn admits_section(j: Json) -> bool {
        &&& j is Object
        &&& text_ok(j, "id"@)
        &&& text_ok(j, "name"@)
        &&& count_ok(j, "columns"@, 255)
        &&& bool_ok(j, "visible"@)
        &&& (match member(j, "items"@) {
            None => true,
            Some(x) => Self::admits_list(x),
        })
    }

    /// Whether the section is what the value gives.
    pub open spec fn reads_section(s: V3Section<V3Language>, j: Json) -> bool {
        &&& opt_text(s.id) == text_at(j, "id"@)
        &&& opt_text(s.name) == text_at(j, "name"@)
        &&& small_count(s.columns) == count_at(j, "columns"@)
        &&& s.visible == bool_at(j, "visible"@)
        &&& (match member(j, "items"@) {
            None => s.items@.len() == 0,
            Some(x) => Self::reads_list(s.items@, x),
        })
    }

    /// Reads a section of them from JSON. A value that is not admitted is
    /// refused.
    pub fn decode_section(j: &Json) -> (r: Result<V3Section<V3Language>, ParseError>)
        ensures
            r is Ok <==> Self::admits_section(*j),
            r matches Ok(s) ==> Self::reads_section(s, *j),
            r matches Err(e) ==> e is ValidationError,
    {
        if !json::is_object(j) {
            return Err(json::wrong_kind("a section", "an object"));
        }
        let id = match json::read_text(j, "id") {
            Ok(v) => v,
            Err(e) => return Err(e),
        };
        let name = match json::read_text(j, "name") {
            Ok(v) => v,
            Err(e) => return Err(e),
        };
        let columns = match json::read_small(j, "columns") {
            Ok(v) => v,
            Err(e) => return Err(e),
        };
        let visible = match json::read_bool(j, "visible") {
            Ok(v) => v,
            Err(e) => return Err(e),
        };
        let items = match get_member(j, "items") {
            None => Vec::new(),
            Some(x) => match Self::decode_list(x) {
                Ok(v) => v,
                Err(e) => return Err(e),
            },
        };
        Ok(V3Section { id, name, columns, visible, items })
    }
}

/// An award.
#[derive(Debug, Clone)]
pub struct V3Award {
    pub id: Option<String>,
    pub visible: Option<bool>,
    pub title: Option<String>,
    pub awarder: Option<String>,
    pub date: Option<String>,
    pub summary: Option<String>,
    pub url: Option<V3Url>,
}

impl V3Award {
    /// Whether the value is an object whose members are of the kinds that
    /// an award has.
    pub open spec fn admits(j: Json) -> bool {
        &&& j is Object
        &&& text_ok(j, "id"@)
        &&& bool_ok(j, "visible"@)
        &&& text_ok(j, "title"@)
        &&& text_ok(j, "awarder"@)
        &&& text_ok(j, "date"@)
        &&& text_ok(j, "summary"@)
        &&& (match given(j, "url"@) {
            None => true,
            Some(x) => V3Url::admits(x),
        })
    }

    /// Whether each field is what the value gives under its key.
    pub open spec fn reads(self, j: Json) -> bool {
        &&& opt_text(self.id) == text_at(j, "id"@)
        &&& self.visible == bool_at(j, "visible"@)
        &&& opt_text(self.title) == text_at(j, "title"@)
        &&& opt_text(self.awarder) == text_at(j, "awarder"@)
        &&& opt_text(self.date) == text_at(j, "date"@)
        &&& opt_text(self.summary) == text_at(j, "summary"@)
        &&& (match given(j, "url"@) {
            None => self.url is None,
            Some(x) => self.url matches Some(y) && y.reads(x),
        })
    }

    /// Reads the value from JSON. A value that is not admitted is refused.
    pub fn decode(j: &Json) -> (r: Result<V3Award, ParseError>)
        ensures
            r is Ok <==> Self::admits(*j),
            r matches Ok(t) ==> t.reads(*j),
            r matches Err(e) ==> e is ValidationError,
    {
        if !json::is_object(j) {
            return Err(json::wrong_kind("an award", "an object"));
        }
        let id = match json::read_text(j, "id") {
            Ok(v) => v,
            Err(e) => return Err(e),
        };
        let visible = match json::read_bool(j, "visible") {
            Ok(v) => v,
            Err(e) => return Err(e),
        };
        let title = match json::read_text(j, "title") {
            Ok(v) => v,
            Err(e) => return Err(e),
        };
        let awarder = match json::read_text(j, "awarder") {
            Ok(v) => v,
            Err(e) => return Err(e),
        };
        let date = match json::read_text(j, "date") {
            Ok(v) => v,
            Err(e) => return Err(e),
        };
        let summary = match json::read_text(j, "summary") {
            Ok(v) => v,
            Err(e) => return Err(e),
        };
        let url = match get_given(j, "url") {
            None => None,
            Some(x) => match V3Url::decode(x) {
                Ok(v) => Some(v),
                Err(e) => return Err(e),
            },
        };
        Ok(V3Award { id, visible, title, awarder, date, summary, url })
    }

    /// Whether each value of the sequence is admitted.
    pub open spec fn admits_all(a: Seq<Json>) -> bool {
        forall|i: int| 0 <= i < a.len() ==> Self::admits(#[trigger] a[i])
    }

    /// Whether the items are what the values give, one for one and in
    /// order.
    pub open spec fn reads_all(v: Seq<V3Award>, a: Seq<Json>) -> bool {
        v.len() == a.len() && forall|i: int| 0 <= i < v.len() ==> (#[trigger] v[i]).reads(a[i])
    }

    /// Whether the value is an array of which each element is admitted.
    pub open spec fn admits_list(j: Json) -> bool {
        match j {
            Json::Array(a) => Self::admits_all(a@),
            _ => false,
        }
    }

    /// Whether the items are what the elements of the array give, in order.
    pub open spec fn reads_list(v: Seq<V3Award>, j: Json) -> bool {
        match j {
            Json::Array(a) => Self::reads_all(v, a@),
            _ => false,
        }
    }

    /// Reads a list of them from a JSON array, item by item. A value that is
    /// not admitted is refused.
    pub fn decode_list(j: &Json) -> (r: Result<Vec<V3Award>, ParseError>)
        ensures
            r is Ok <==> Self::admits_list(*j),
            r matches Ok(v) ==> Self::reads_list(v@, *j),
            r matches Err(e) ==> e is ValidationError,
    {
        match j {
            Json::Array(a) => {
                let mut out: Vec<V3Award> = Vec::new();
                let mut i: usize = 0;
                while i < a.len()
                    invariant
                        i <= a@.len(),
                        out@.len() == i,
                        *j == Json::Array(*a),
                        forall|k: int| 0 <= k < i ==> Self::admits(#[trigger] a@[k]),
                        forall|k: int| 0 <= k < i ==> (#[trigger] out@[k]).reads(a@[k]),
                    decreases a@.len() - i,
                {
                    match Self::decode(&a[i]) {
                        Ok(t) => {
                            out.push(t);
                        },
                        Err(e) => {
                            assert(!Self::admits(a@[i as int]));
                            return Err(e);
                        },
                    }
                    i += 1;
                }
                Ok(out)
            },
            _ => Err(json::wrong_kind("an award", "a list")),
        }
    }


    /// Whether the value is a section of such items.
    pub open spec fn admits_section(j: Json) -> bool {
        &&& j is Object
        &&& text_ok(j, "id"@)
        &&& text_ok(j, "name"@)
        &&& count_ok(j, "columns"@, 255)
        &&& bool_ok(j, "visible"@)
        &&& (match member(j, "items"@) {
            None => true,
            Some(x) => Self::admits_list(x),
        })
    }

    /// Whether the section is what the value gives.
    pub open spec fn reads_section(s: V3Section<V3Award>, j: Json) -> bool {
        &&& opt_text(s.id) == text_at(j, "id"@)
        &&& opt_text(s.name) == text_at(j, "name"@)
        &&& small_count(s.columns) == count_at(j, "columns"@)
        &&& s.visible == bool_at(j, "visible"@)
        &&& (match member(j, "items"@) {
            None => s.items@.len() == 0,
            Some(x) => Self::reads_list(s.items@, x),
        })
    }

    /// Reads a section of them from JSON. A value that is not admitted is
    /// refused.
    pub fn decode_section(j: &Json) -> (r: Result<V3Section<V3Award>, ParseError>)
        ensures
            r is Ok <==> Self::admits_section(*j),
            r matches Ok(s) ==> Self::reads_section(s, *j),
            r matches Err(e) ==> e is ValidationError,
    {
        if !json::is_object(j) {
            return Err(json::wrong_kind("a section", "an object"));
        }
        let id = match json::read_text(j, "id") {
            Ok(v) => v,
            Err(e) => return Err(e),
        };
        let name = match json::read_text(j, "name") {
            Ok(v) => v,
            Err(e) => return Err(e),
        };
        let columns = match json::read_small(j, "columns") {
            Ok(v) => v,
            Err(e) => return Err(e),
        };
        let visible = match json::read_bool(j, "visible") {
            Ok(v) => v,
            Err(e) => return Err(e),
        };
        let items = match get_member(j, "items") {
            None => Vec::new(),
            Some(x) => match Self::decode_list(x) {
                Ok(v) => v,
                Err(e) => return Err(e),
            },
        };
        Ok(V3Section { id, name, columns, visible, items })
    }
}

/// A certificate.
#[derive(Debug, Clone)]
pub struct V3Certification {
    pub id: Option<String>,
    pub visible: Option<bool>,
    pub name: Option<String>,
    pub issuer: Option<String>,
    pub date: Option<String>,
    pub summary: Option<String>,
    pub url: Option<V3Url>,
}

impl V3Certification {
    /// Whether the value is an object whose members are of the kinds that
    /// a certificate has.
    pub open spec fn admits(j: Json) -> bool {
        &&& j is Object
        &&& text_ok(j, "id"@)
        &&& bool_ok(j, "visible"@)
        &&& text_ok(j, "name"@)
        &&& text_ok(j, "issuer"@)
        &&& text_ok(j, "date"@)
        &&& text_ok(j, "summary"@)
        &&& (match given(j, "url"@) {
            None => true,
            Some(x) => V3Url::admits(x),
        })
    }

    /// Whether each field is what the value gives under its key.
    pub open spec fn reads(self, j: Json) -> bool {
        &&& opt_text(self.id) == text_at(j, "id"@)
        &&& self.visible == bool_at(j, "visible"@)
        &&& opt_text(self.name) == text_at(j, "name"@)
        &&& opt_text(self.issuer) == text_at(j, "issuer"@)
        &&& opt_text(self.date) == text_at(j, "date"@)
        &&& opt_text(self.summary) == text_at(j, "summary"@)
        &&& (match given(j, "url"@) {
            None => self.url is None,
            Some(x) => self.url matches Some(y) && y.reads(x),
        })
    }

    /// Reads the value from JSON. A value that is not admitted is refused.
    pub fn decode(j: &Json) -> (r: Result<V3Certification, ParseError>)
        ensures
            r is Ok <==> Self::admits(*j),
            r matches Ok(t) ==> t.reads(*j),
            r matches Err(e) ==> e is ValidationError,
    {
        if !json::is_object(j) {
            return Err(json::wrong_kind("a certificate", "an object"));
        }
        let id = match json::read_text(j, "id") {
            Ok(v) => v,
            Err(e) => return Err(e),
        };
        let visible = match json::read_bool(j, "visible") {
            Ok(v) => v,
            Err(e) => return Err(e),
        };
        let name = match json::read_text(j, "name") {
            Ok(v) => v,
            Err(e) => return Err(e),
        };
        let issuer = match json::read_text(j, "issuer") {
            Ok(v) => v,
            Err(e) => return Err(e),
        };
        let date = match json::read_text(j, "date") {
            Ok(v) => v,
            Err(e) => return Err(e),
        };
        let summary = match json::read_text(j, "summary") {
            Ok(v) => v,
            Err(e) => return Err(e),
        };
        let url = match get_given(j, "url") {
            None => None,
            Some(x) => match V3Url::decode(x) {
                Ok(v) => Some(v),
                Err(e) => return Err(e),
            },
        };
        Ok(V3Certification { id, visible, name, issuer, date, summary, url })
    }

    /// Whether each value of the sequence is admitted.
    pub open spec fn admits_all(a: Seq<Json>) -> bool {
        forall|i: int| 0 <= i < a.len() ==> Self::admits(#[trigger] a[i])
    }

    /// Whether the items are what the values give, one for one and in
    /// order.
    pub open spec fn reads_all(v: Seq<V3Certification>, a: Seq<Json>) -> bool {
        v.len() == a.len() && forall|i: int| 0 <= i < v.len() ==> (#[trigger] v[i]).reads(a[i])
    }

    /// Whether the value is an array of which each element is admitted.
    pub open spec fn admits_list(j: Json) -> bool {
        match j {
            Json::Array(a) => Self::admits_all(a@),
            _ => false,
        }
    }

    /// Whether the items are what the elements of the array give, in order.
    pub open spec fn reads_list(v: Seq<V3Certification>, j: Json) -> bool {
        match j {
            Json::Array(a) => Self::reads_all(v, a@),
            _ => false,
        }
    }

    /// Reads a list of them from a JSON array, item by item. A value that is
    /// not admitted is refused.
    pub fn decode_list(j: &Json) -> (r: Result<Vec<V3Certification>, ParseError>)
        ensures
            r is Ok <==> Self::admits_list(*j),
            r matches Ok(v) ==> Self::reads_list(v@, *j),
            r matches Err(e) ==> e is ValidationError,
    {
        match j {
            Json::Array(a) => {
                let mut out: Vec<V3Certification> = Vec::new();
                let mut i: usize = 0;
                while i < a.len()
                    invariant
                        i <= a@.len(),
                        out@.len() == i,
                        *j == Json::Array(*a),
                        forall|k: int| 0 <= k < i ==> Self::admits(#[trigger] a@[k]),
                        forall|k: int| 0 <= k < i ==> (#[trigger] out@[k]).reads(a@[k]),
                    decreases a@.len() - i,
                {
                    match Self::decode(&a[i]) {
                        Ok(t) => {
                            out.push(t);
                        },
                        Err(e) => {
                            assert(!Self::admits(a@[i as int]));
                            return Err(e);
                        },
                    }
                    i += 1;
                }
                Ok(out)
            },
            _ => Err(json::wrong_kind("a certificate", "a list")),
        }
    }


    /// Whether the value is a section of such items.
    pub open spec fn admits_section(j: Json) -> bool {
        &&& j is Object
        &&& text_ok(j, "id"@)
        &&& text_ok(j, "name"@)
        &&& count_ok(j, "columns"@, 255)
        &&& bool_ok(j, "visible"@)
        &&& (match member(j, "items"@) {
            None => true,
            Some(x) => Self::admits_list(x),
        })
    }

    /// Whether the section is what the value gives.
    pub open spec fn reads_section(s: V3Section<V3Certification>, j: Json) -> bool {
        &&& opt_text(s.id) == text_at(j, "id"@)
        &&& opt_text(s.name) == text_at(j, "name"@)
        &&& small_count(s.columns) == count_at(j, "columns"@)
        &&& s.visible == bool_at(j, "visible"@)
        &&& (match member(j, "items"@) {
            None => s.items@.len() == 0,
            Some(x) => Self::reads_list(s.items@, x),
        })
    }

    /// Reads a section of them from JSON. A value that is not admitted is
    /// refused.
    pub fn decode_section(j: &Json) -> (r: Result<V3Section<V3Certification>, ParseError>)
        ensures
            r is Ok <==> Self::admits_section(*j),
            r matches Ok(s) ==> Self::reads_section(s, *j),
            r matches Err(e) ==> e is ValidationError,
    {
        if !json::is_object(j) {
            return Err(json::wrong_kind("a section", "an object"));
        }
        let id = match json::read_text(j, "id") {
            Ok(v) => v,
            Err(e) => return Err(e),
        };
        let name = match json::read_text(j, "name") {
            Ok(v) => v,
            Err(e) => return Err(e),
        };
        let columns = match json::read_small(j, "columns") {
            Ok(v) => v,
            Err(e) => return Err(e),
        };
        let visible = match json::read_bool(j, "visible") {
            Ok(v) => v,
            Err(e) => return Err(e),
        };
        let items = match get_member(j, "items") {
            None => Vec::new(),
            Some(x) => match Self::decode_list(x) {
                Ok(v) => v,
                Err(e) => return Err(e),
            },
        };
        Ok(V3Section { id, name, columns, visible, items })
    }
}

/// An interest.
#[derive(Debug, Clone)]
pub struct V3Interest {
    pub id: Option<String>,
    pub visible: Option<bool>,
    pub name: Option<String>,
    pub keywords: Vec<String>,
}

impl V3Interest {
    /// Whether the value is an object whose members are of the kinds that
    /// an interest has.
    pub open spec fn admits(j: Json) -> bool {
        &&& j is Object
        &&& text_ok(j, "id"@)
        &&& bool_ok(j, "visible"@)
        &&& text_ok(j, "name"@)
        &&& texts_or_none_ok(j, "keywords"@)
    }

    /// Whether each field is what the value gives under its key.
    pub open spec fn reads(self, j: Json) -> bool {
        &&& opt_text(self.id) == text_at(j, "id"@)
        &&& self.visible == bool_at(j, "visible"@)
        &&& opt_text(self.name) == text_at(j, "name"@)
        &&& texts(self.keywords@) == texts_or_none_at(j, "keywords"@)
    }

    /// Reads the value from JSON. A value that is not admitted is refused.
    pub fn decode(j: &Json) -> (r: Result<V3Interest, ParseError>)
        ensures
            r is Ok <==> Self::admits(*j),
            r matches Ok(t) ==> t.reads(*j),
            r matches Err(e) ==> e is ValidationError,
    {
        if !json::is_object(j) {
            return Err(json::wrong_kind("an interest", "an object"));
        }
        let id = match json::read_text(j, "id") {
            Ok(v) => v,
            Err(e) => return Err(e),
        };
        let visible = match json::read_bool(j, "visible") {
            Ok(v) => v,
            Err(e) => return Err(e),
        };
        let name = match json::read_text(j, "name") {
            Ok(v) => v,
            Err(e) => return Err(e),
        };
        let keywords = match json::read_texts_or_none(j, "keywords") {
            Ok(v) => v,
            Err(e) => return Err(e),
        };
        Ok(V3Interest { id, visible, name, keywords })
    }

    /// Whether each value of the sequence is admitted.
    pub open spec fn admits_all(a: Seq<Json>) -> bool {
        forall|i: int| 0 <= i < a.len() ==> Self::admits(#[trigger] a[i])
    }

    /// Whether the items are what the values give, one for one and in
    /// order.
    pub open spec fn reads_all(v: Seq<V3Interest>, a: Seq<Json>) -> bool {
        v.len() == a.len() && forall|i: int| 0 <= i < v.len() ==> (#[trigger] v[i]).reads(a[i])
    }

    /// Whether the value is an array of which each element is admitted.
    pub open spec fn admits_list(j: Json) -> bool {
        match j {
            Json::Array(a) => Self::admits_all(a@),
            _ => false,
        }
    }

    /// Whether the items are what the elements of the array give, in order.
    pub open spec fn reads_list(v: Seq<V3Interest>, j: Json) -> bool {
        match j {
            Json::Array(a) => Self::reads_all(v, a@),
            _ => false,
        }
    }

    /// Reads a list of them from a JSON array, item by item. A value that is
    /// not admitted is refused.
    pub fn decode_list(j: &Json) -> (r: Result<Vec<V3Interest>, ParseError>)
        ensures
            r is Ok <==> Self::admits_list(*j),
            r matches Ok(v) ==> Self::reads_list(v@, *j),
            r matches Err(e) ==> e is ValidationError,
    {
        match j {
            Json::Array(a) => {
                let mut out: Vec<V3Interest> = Vec::new();
                let mut i: usize = 0;
                while i < a.len()
                    invariant
                        i <= a@.len(),
                        out@.len() == i,
                        *j == Json::Array(*a),
                        forall|k: int| 0 <= k < i ==> Self::admits(#[trigger] a@[k]),
                        forall|k: int| 0 <= k < i ==> (#[trigger] out@[k]).reads(a@[k]),
                    decreases a@.len() - i,
                {
                    match Self::decode(&a[i]) {
                        Ok(t) => {
                            out.push(t);
                        },
                        Err(e) => {
                            assert(!Self::admits(a@[i as int]));
                            return Err(e);
                        },
                    }
                    i += 1;
                }
                Ok(out)
            },
            _ => Err(json::wrong_kind("an interest", "a list")),
        }
    }


    /// Whether the value is a section of such items.
    pub open spec fn admits_section(j: Json) -> bool {
        &&& j is Object
        &&& text_ok(j, "id"@)
        &&& text_ok(j, "name"@)
        &&& count_ok(j, "columns"@, 255)
        &&& bool_ok(j, "visible"@)
        &&& (match member(j, "items"@) {
            None => true,
            Some(x) => Self::admits_list(x),
        })
    }

    /// Whether the section is what the value gives.
    pub open spec fn reads_section(s: V3Section<V3Interest>, j: Json) -> bool {
        &&& opt_text(s.id) == text_at(j, "id"@)
        &&& opt_text(s.name) == text_at(j, "name"@)
        &&& small_count(s.columns) == count_at(j, "columns"@)
        &&& s.visible == bool_at(j, "visible"@)
        &&& (match member(j, "items"@) {
            None => s.items@.len() == 0,
            Some(x) => Self::reads_list(s.items@, x),
        })
    }

    /// Reads a section of them from JSON. A value that is not admitted is
    /// refused.
    pub fn decode_section(j: &Json) -> (r: Result<V3Section<V3Interest>, ParseError>)
        ensures
            r is Ok <==> Self::admits_section(*j),
            r matches Ok(s) ==> Self::reads_section(s, *j),
            r matches Err(e) ==> e is ValidationError,
    {
        if !json::is_object(j) {
            return Err(json::wrong_kind("a section", "an object"));
        }
        let id = match json::read_text(j, "id") {
            Ok(v) => v,
            Err(e) => return Err(e),
        };
        let name = match json::read_text(j, "name") {
            Ok(v) => v,
            Err(e) => return Err(e),
        };
        let columns = match json::read_small(j, "columns") {
            Ok(v) => v,
            Err(e) => return Err(e),
        };
        let visible = match json::read_bool(j, "visible") {
            Ok(v) => v,
            Err(e) => return Err(e),
        };
        let items = match get_member(j, "items") {
            None => Vec::new(),
            Some(x) => match Self::decode_list(x) {
                Ok(v) => v,
                Err(e) => return Err(e),
            },
        };
        Ok(V3Section { id, name, columns, visible, items })
    }
}

/// A project.
#[derive(Debug, Clone)]
pub struct V3Project {
    pub id: Option<String>,
    pub visible: Option<bool>,
    pub name: Option<String>,
    pub description: Option<String>,
    pub date: Option<String>,
    pub summary: Option<String>,
    pub keywords: Vec<String>,
    pub url: Option<V3Url>,
}

impl V3Project {
    /// Whether the value is an object whose members are of the kinds that
    /// a project has.
    pub open spec fn admits(j: Json) -> bool {
        &&& j is Object
        &&& text_ok(j, "id"@)
        &&& bool_ok(j, "visible"@)
        &&& text_ok(j, "name"@)
        &&& text_ok(j, "description"@)
        &&& text_ok(j, "date"@)
        &&& text_ok(j, "summary"@)
        &&& texts_or_none_ok(j, "keywords"@)
        &&& (match given(j, "url"@) {
            None => true,
            Some(x) => V3Url::admits(x),
        })
    }

    /// Whether each field is what the value gives under its key.
    pub open spec fn reads(self, j: Json) -> bool {
        &&& opt_text(self.id) == text_at(j, "id"@)
        &&& self.visible == bool_at(j, "visible"@)
        &&& opt_text(self.name) == text_at(j, "name"@)
        &&& opt_text(self.description) == text_at(j, "description"@)
        &&& opt_text(self.date) == text_at(j, "date"@)
        &&& opt_text(self.summary) == text_at(j, "summary"@)
        &&& texts(self.keywords@) == texts_or_none_at(j, "keywords"@)
        &&& (match given(j, "url"@) {
            None => self.url is None,
            Some(x) => self.url matches Some(y) && y.reads(x),
        })
    }

    /// Reads the value from JSON. A value that is not admitted is refused.
    pub fn decode(j: &Json) -> (r: Result<V3Project, ParseError>)
        ensures
            r is Ok <==> Self::admits(*j),
            r matches Ok(t) ==> t.reads(*j),
            r matches Err(e) ==> e is ValidationError,
    {
        if !json::is_object(j) {
            return Err(json::wrong_kind("a project", "an object"));
        }
        let id = match json::read_text(j, "id") {
            Ok(v) => v,
            Err(e) => return Err(e),
        };
        let visible = match json::read_bool(j, "visible") {
            Ok(v) => v,
            Err(e) => return Err(e),
        };
        let name = match json::read_text(j, "name") {
            Ok(v) => v,
            Err(e) => return Err(e),
        };
        let description = match json::read_text(j, "description") {
            Ok(v) => v,
            Err(e) => return Err(e),
        };
        let date = match json::read_text(j, "date") {
            Ok(v) => v,
            Err(e) => return Err(e),
        };
        let summary = match json::read_text(j, "summary") {
            Ok(v) => v,
            Err(e) => return Err(e),
        };
        let keywords = match json::read_texts_or_none(j, "keywords") {
            Ok(v) => v,
            Err(e) => return Err(e),
        };
        let url = match get_given(j, "url") {
            None => None,
            Some(x) => match V3Url::decode(x) {
                Ok(v) => Some(v),
                Err(e) => return Err(e),
            },
        };
        Ok(V3Project { id, visible, name, description, date, summary, keywords, url })
    }

    /// Whether each value of the sequence is admitted.
    pub open spec fn admits_all(a: Seq<Json>) -> bool {
        forall|i: int| 0 <= i < a.len() ==> Self::admits(#[trigger] a[i])
    }

    /// Whether the items are what the values give, one for one and in
    /// order.
    pub open spec fn reads_all(v: Seq<V3Project>, a: Seq<Json>) -> bool {
        v.len() == a.len() && forall|i: int| 0 <= i < v.len() ==> (#[trigger] v[i]).reads(a[i])
    }

    /// Whether the value is an array of which each element is admitted.
    pub open spec fn admits_list(j: Json) -> bool {
        match j {
            Json::Array(a) => Self::admits_all(a@),
            _ => false,
        }
    }

    /// Whether the items are what the elements of the array give, in order.
    pub open spec fn reads_list(v: Seq<V3Project>, j: Json) -> bool {
        match j {
            Json::Array(a) => Self::reads_all(v, a@),
            _ => false,
        }
    }

    /// Reads a list of them from a JSON array, item by item. A value that is
    /// not admitted is refused.
    pub fn decode_list(j: &Json) -> (r: Result<Vec<V3Project>, ParseError>)
        ensures
            r is Ok <==> Self::admits_list(*j),
            r matches Ok(v) ==> Self::reads_list(v@, *j),
            r matches Err(e) ==> e is ValidationError,
    {
        match j {
            Json::Array(a) => {
                let mut out: Vec<V3Project> = Vec::new();
                let mut i: usize = 0;
                while i < a.len()
                    invariant
                        i <= a@.len(),
                        out@.len() == i,
                        *j == Json::Array(*a),
                        forall|k: int| 0 <= k < i ==> Self::admits(#[trigger] a@[k]),
                        forall|k: int| 0 <= k < i ==> (#[trigger] out@[k]).reads(a@[k]),
                    decreases a@.len() - i,
                {
                    match Self::decode(&a[i]) {
                        Ok(t) => {
                            out.push(t);
                        },
                        Err(e) => {
                            assert(!Self::admits(a@[i as int]));
                            return Err(e);
                        },
                    }
                    i += 1;
                }
                Ok(out)
            },
            _ => Err(json::wrong_kind("a project", "a list")),
        }
    }


    /// Whether the value is a section of such items.
    pub open spec fn admits_section(j: Json) -> bool {
        &&& j is Object
        &&& text_ok(j, "id"@)
        &&& text_ok(j, "name"@)
        &&& count_ok(j, "columns"@, 255)
        &&& bool_ok(j, "visible"@)
        &&& (match member(j, "items"@) {
            None => true,
            Some(x) => Self::admits_list(x),
        })
    }

    /// Whether the section is what the value gives.
    pub open spec fn reads_section(s: V3Section<V3Project>, j: Json) -> bool {
        &&& opt_text(s.id) == text_at(j, "id"@)
        &&& opt_text(s.name) == text_at(j, "name"@)
        &&& small_count(s.columns) == count_at(j, "columns"@)
        &&& s.visible == bool_at(j, "visible"@)
        &&& (match member(j, "items"@) {
            None => s.items@.len() == 0,
            Some(x) => Self::reads_list(s.items@, x),
        })
    }

    /// Reads a section of them from JSON. A value that is not admitted is
    /// refused.
    pub fn decode_section(j: &Json) -> (r: Result<V3Section<V3Project>, ParseError>)
        ensures
            r is Ok <==> Self::admits_section(*j),
            r matches Ok(s) ==> Self::reads_section(s, *j),
            r matches Err(e) ==> e is ValidationError,
    {
        if !json::is_object(j) {
            return Err(json::wrong_kind("a section", "an object"));
        }
        let id = match json::read_text(j, "id") {
            Ok(v) => v,
            Err(e) => return Err(e),
        };
        let name = match json::read_text(j, "name") {
            Ok(v) => v,
            Err(e) => return Err(e),
        };
        let columns = match json::read_small(j, "columns") {
            Ok(v) => v,
            Err(e) => return Err(e),
        };
        let visible = match json::read_bool(j, "visible") {
            Ok(v) => v,
            Err(e) => return Err(e),
        };
        let items = match get_member(j, "items") {
            None => Vec::new(),
            Some(x) => match Self::decode_list(x) {
                Ok(v) => v,
                Err(e) => return Err(e),
            },
        };
        Ok(V3Section { id, name, columns, visible, items })
    }
}

/// A publication.
#[derive(Debug, Clone)]
pub struct V3Publication {
    pub id: Option<String>,
    pub visible: Option<bool>,
    pub name: Option<String>,
    pub publisher: Option<String>,
    pub date: Option<String>,
    pub summary: Option<String>,
    pub url: Option<V3Url>,
}

impl V3Publication {
    /// Whether the value is an object whose members are of the kinds that
    /// a publication has.
    pub open spec fn admits(j: Json) -> bool {
        &&& j is Object
        &&& text_ok(j, "id"@)
        &&& bool_ok(j, "visible"@)
        &&& text_ok(j, "name"@)
        &&& text_ok(j, "publisher"@)
        &&& text_ok(j, "date"@)
        &&& text_ok(j, "summary"@)
        &&& (match given(j, "url"@) {
            None => true,
            Some(x) => V3Url::admits(x),
        })
    }

    /// Whether each field is what the value gives under its key.
    pub open spec fn reads(self, j: Json) -> bool {
        &&& opt_text(self.id) == text_at(j, "id"@)
        &&& self.visible == bool_at(j, "visible"@)
        &&& opt_text(self.name) == text_at(j, "name"@)
        &&& opt_text(self.publisher) == text_at(j, "publisher"@)
        &&& opt_text(self.date) == text_at(j, "date"@)
        &&& opt_text(self.summary) == text_at(j, "summary"@)
        &&& (match given(j, "url"@) {
            None => self.url is None,
            Some(x) => self.url matches Some(y) && y.reads(x),
        })
    }

    /// Reads the value from JSON. A value that is not admitted is refused.
    pub fn decode(j: &Json) -> (r: Result<V3Publication, ParseError>)
        ensures
            r is Ok <==> Self::admits(*j),
            r matches Ok(t) ==> t.reads(*j),
            r matches Err(e) ==> e is ValidationError,
    {
        if !json::is_object(j) {
            return Err(json::wrong_kind("a publication", "an object"));
        }
        let id = match json::read_text(j, "id") {
            Ok(v) => v,
            Err(e) => return Err(e),
        };
        let visible = match json::read_bool(j, "visible") {
            Ok(v) => v,
            Err(e) => return Err(e),
        };
        let name = match json::read_text(j, "name") {
            Ok(v) => v,
            Err(e) => return Err(e),
        };
        let publisher = match json::read_text(j, "publisher") {
            Ok(v) => v,
            Err(e) => return Err(e),
        };
        let date = match json::read_text(j, "date") {
            Ok(v) => v,
            Err(e) => return Err(e),
        };
        let summary = match json::read_text(j, "summary") {
            Ok(v) => v,
            Err(e) => return Err(e),
        };
        let url = match get_given(j, "url") {
            None => None,
            Some(x) => match V3Url::decode(x) {
                Ok(v) => Some(v),
                Err(e) => return Err(e),
            },
        };
        Ok(V3Publication { id, visible, name, publisher, date, summary, url })
    }

    /// Whether each value of the sequence is admitted.
    pub open spec fn admits_all(a: Seq<Json>) -> bool {
        forall|i: int| 0 <= i < a.len() ==> Self::admits(#[trigger] a[i])
    }

    /// Whether the items are what the values give, one for one and in
    /// order.
    pub open spec fn reads_all(v: Seq<V3Publication>, a: Seq<Json>) -> bool {
        v.len() == a.len() && forall|i: int| 0 <= i < v.len() ==> (#[trigger] v[i]).reads(a[i])
    }

    /// Whether the value is an array of which each element is admitted.
    pub open spec fn admits_list(j: Json) -> bool {
        match j {
            Json::Array(a) => Self::admits_all(a@),
            _ => false,
        }
    }

    /// Whether the items are what the elements of the array give, in order.
    pub open spec fn reads_list(v: Seq<V3Publication>, j: Json) -> bool {
        match j {
            Json::Array(a) => Self::reads_all(v, a@),
            _ => false,
        }
    }

    /// Reads a list of them from a JSON array, item by item. A value that is
    /// not admitted is refused.
    pub fn decode_list(j: &Json) -> (r: Result<Vec<V3Publication>, ParseError>)
        ensures
            r is Ok <==> Self::admits_list(*j),
            r matches Ok(v) ==> Self::reads_list(v@, *j),
            r matches Err(e) ==> e is ValidationError,
    {
        match j {
            Json::Array(a) => {
                let mut out: Vec<V3Publication> = Vec::new();
                let mut i: usize = 0;
                while i < a.len()
                    invariant
                        i <= a@.len(),
                        out@.len() == i,
                        *j == Json::Array(*a),
                        forall|k: int| 0 <= k < i ==> Self::admits(#[trigger] a@[k]),
                        forall|k: int| 0 <= k < i ==> (#[trigger] out@[k]).reads(a@[k]),
                    decreases a@.len() - i,
                {
                    match Self::decode(&a[i]) {
                        Ok(t) => {
                            out.push(t);
                        },
                        Err(e) => {
                            assert(!Self::admits(a@[i as int]));
                            return Err(e);
                        },
                    }
                    i += 1;
                }
                Ok(out)
            },
            _ => Err(json::wrong_kind("a publication", "a list")),
        }
    }


    /// Whether the value is a section of such items.
    pub open spec fn admits_section(j: Json) -> bool {
        &&& j is Object
        &&& text_ok(j, "id"@)
        &&& text_ok(j, "name"@)
        &&& count_ok(j, "columns"@, 255)
        &&& bool_ok(j, "visible"@)
        &&& (match member(j, "items"@) {
            None => true,
            Some(x) => Self::admits_list(x),
        })
    }

    /// Whether the section is what the value gives.
    pub open spec fn reads_section(s: V3Section<V3Publication>, j: Json) -> bool {
        &&& opt_text(s.id) == text_at(j, "id"@)
        &&& opt_text(s.name) == text_at(j, "name"@)
        &&& small_count(s.columns) == count_at(j, "columns"@)
        &&& s.visible == bool_at(j, "visible"@)
        &&& (match member(j, "items"@) {
            None => s.items@.len() == 0,
            Some(x) => Self::reads_list(s.items@, x),
        })
    }

    /// Reads a section of them from JSON. A value that is not admitted is
    /// refused.
    pub fn decode_section(j: &Json) -> (r: Result<V3Section<V3Publication>, ParseError>)
        ensures
            r is Ok <==> Self::admits_section(*j),
            r matches Ok(s) ==> Self::reads_section(s, *j),
            r matches Err(e) ==> e is ValidationError,
    {
        if !json::is_object(j) {
            return Err(json::wrong_kind("a section", "an object"));
        }
        let id = match json::read_text(j, "id") {
            Ok(v) => v,
            Err(e) => return Err(e),
        };
        let name = match json::read_text(j, "name") {
            Ok(v) => v,
            Err(e) => return Err(e),
        };
        let columns = match json::read_small(j, "columns") {
            Ok(v) => v,
            Err(e) => return Err(e),
        };
        let visible = match json::read_bool(j, "visible") {
            Ok(v) => v,
            Err(e) => return Err(e),
        };
        let items = match get_member(j, "items") {
            None => Vec::new(),
            Some(x) => match Self::decode_list(x) {
                Ok(v) => v,
                Err(e) => return Err(e),
            },
        };
        Ok(V3Section { id, name, columns, visible, items })
    }
}

/// Voluntary work.
#[derive(Debug, Clone)]
pub struct V3Volunteer {
    pub id: Option<String>,
    pub visible: Option<bool>,
    pub organization: Option<String>,
    pub position: Option<String>,
    pub location: Option<String>,
    pub date: Option<String>,
    pub summary: Option<String>,
    pub url: Option<V3Url>,
}

impl V3Volunteer {
    /// Whether the value is an object whose members are of the kinds that
    /// voluntary work has.
    pub open spec fn admits(j: Json) -> bool {
        &&& j is Object
        &&& text_ok(j, "id"@)
        &&& bool_ok(j, "visible"@)
        &&& text_ok(j, "organization"@)
        &&& text_ok(j, "position"@)
        &&& text_ok(j, "location"@)
        &&& text_ok(j, "date"@)
        &&& text_ok(j, "summary"@)
        &&& (match given(j, "url"@) {
            None => true,
            Some(x) => V3Url::admits(x),
        })
    }

    /// Whether each field is what the value gives under its key.
    pub open spec fn reads(self, j: Json) -> bool {
        &&& opt_text(self.id) == text_at(j, "id"@)
        &&& self.visible == bool_at(j, "visible"@)
        &&& opt_text(self.organization) == text_at(j, "organization"@)
        &&& opt_text(self.position) == text_at(j, "position"@)
        &&& opt_text(self.location) == text_at(j, "location"@)
        &&& opt_text(self.date) == text_at(j, "date"@)
        &&& opt_text(self.summary) == text_at(j, "summary"@)
        &&& (match given(j, "url"@) {
            None => self.url is None,
            Some(x) => self.url matches Some(y) && y.reads(x),
        })
    }

    /// Reads the value from JSON. A value that is not admitted is refused.
    pub fn decode(j: &Json) -> (r: Result<V3Volunteer, ParseError>)
        ensures
            r is Ok <==> Self::admits(*j),
            r matches Ok(t) ==> t.reads(*j),
            r matches Err(e) ==> e is ValidationError,
    {
        if !json::is_object(j) {
            return Err(json::wrong_kind("voluntary work", "an object"));
        }
        let id = match json::read_text(j, "id") {
            Ok(v) => v,
            Err(e) => return Err(e),
        };
        let visible = match json::read_bool(j, "visible") {
            Ok(v) => v,
            Err(e) => return Err(e),
        };
        let organization = match json::read_text(j, "organization") {
            Ok(v) => v,
            Err(e) => return Err(e),
        };
        let position = match json::read_text(j, "position") {
            Ok(v) => v,
            Err(e) => return Err(e),
        };
        let location = match json::read_text(j, "location") {
            Ok(v) => v,
            Err(e) => return Err(e),
        };
        let date = match json::read_text(j, "date") {
            Ok(v) => v,
            Err(e) => return Err(e),
        };
        let summary = match json::read_text(j, "summary") {
            Ok(v) => v,
            Err(e) => return Err(e),
        };
        let url = match get_given(j, "url") {
            None => None,
            Some(x) => match V3Url::decode(x) {
                Ok(v) => Some(v),
                Err(e) => return Err(e),
            },
        };
        Ok(V3Volunteer { id, visible, organization, position, location, date, summary, url })
    }

    /// Whether each value of the sequence is admitted.
    pub open spec fn admits_all(a: Seq<Json>) -> bool {
        forall|i: int| 0 <= i < a.len() ==> Self::admits(#[trigger] a[i])
    }

    /// Whether the items are what the values give, one for one and in
    /// order.
    pub open spec fn reads_all(v: Seq<V3Volunteer>, a: Seq<Json>) -> bool {
        v.len() == a.len() && forall|i: int| 0 <= i < v.len() ==> (#[trigger] v[i]).reads(a[i])
    }

    /// Whether the value is an array of which each element is admitted.
    pub open spec fn admits_list(j: Json) -> bool {
        match j {
            Json::Array(a) => Self::admits_all(a@),
            _ => false,
        }
    }

    /// Whether the items are what the elements of the array give, in order.
    pub open spec fn reads_list(v: Seq<V3Volunteer>, j: Json) -> bool {
        match j {
            Json::Array(a) => Self::reads_all(v, a@),
            _ => false,
        }
    }

    /// Reads a list of them from a JSON array, item by item. A value that is
    /// not admitted is refused.
    pub fn decode_list(j: &Json) -> (r: Result<Vec<V3Volunteer>, ParseError>)
        ensures
            r is Ok <==> Self::admits_list(*j),
            r matches Ok(v) ==> Self::reads_list(v@, *j),
            r matches Err(e) ==> e is ValidationError,
    {
        match j {
            Json::Array(a) => {
                let mut out: Vec<V3Volunteer> = Vec::new();
                let mut i: usize = 0;
                while i < a.len()
                    invariant
                        i <= a@.len(),
                        out@.len() == i,
                        *j == Json::Array(*a),
                        forall|k: int| 0 <= k < i ==> Self::admits(#[trigger] a@[k]),
                        forall|k: int| 0 <= k < i ==> (#[trigger] out@[k]).reads(a@[k]),
                    decreases a@.len() - i,
                {
                    match Self::decode(&a[i]) {
                        Ok(t) => {
                            out.push(t);
                        },
                        Err(e) => {
                            assert(!Self::admits(a@[i as int]));
                            return Err(e);
                        },
                    }
                    i += 1;
                }
                Ok(out)
            },
            _ => Err(json::wrong_kind("voluntary work", "a list")),
        }
    }


    /// Whether the value is a section of such items.
    pub open spec fn admits_section(j: Json) -> bool {
        &&& j is Object
        &&& text_ok(j, "id"@)
        &&& text_ok(j, "name"@)
        &&& count_ok(j, "columns"@, 255)
        &&& bool_ok(j, "visible"@)
        &&& (match member(j, "items"@) {
            None => true,
            Some(x) => Self::admits_list(x),
        })
    }

    /// Whether the section is what the value gives.
    pub open spec fn reads_section(s: V3Section<V3Volunteer>, j: Json) -> bool {
        &&& opt_text(s.id) == text_at(j, "id"@)
        &&& opt_text(s.name) == text_at(j, "name"@)
        &&& small_count(s.columns) == count_at(j, "columns"@)
        &&& s.visible == bool_at(j, "visible"@)
        &&& (match member(j, "items"@) {
            None => s.items@.len() == 0,
            Some(x) => Self::reads_list(s.items@, x),
        })
    }

    /// Reads a section of them from JSON. A value that is not admitted is
    /// refused.
    pub fn decode_section(j: &Json) -> (r: Result<V3Section<V3Volunteer>, ParseError>)
        ensures
            r is Ok <==> Self::admits_section(*j),
            r matches Ok(s) ==> Self::reads_section(s, *j),
            r matches Err(e) ==> e is ValidationError,
    {
        if !json::is_object(j) {
            return Err(json::wrong_kind("a section", "an object"));
        }
        let id = match json::read_text(j, "id") {
            Ok(v) => v,
            Err(e) => return Err(e),
        };
        let name = match json::read_text(j, "name") {
            Ok(v) => v,
            Err(e) => return Err(e),
        };
        let columns = match json::read_small(j, "columns") {
            Ok(v) => v,
            Err(e) => return Err(e),
        };
        let visible = match json::read_bool(j, "visible") {
            Ok(v) => v,
            Err(e) => return Err(e),
        };
        let items = match get_member(j, "items") {
            None => Vec::new(),
            Some(x) => match Self::decode_list(x) {
                Ok(v) => v,
                Err(e) => return Err(e),
            },
        };
        Ok(V3Section { id, name, columns, visible, items })
    }
}

/// A reference.
#[derive(Debug, Clone)]
pub struct V3Reference {
    pub id: Option<String>,
    pub visible: Option<bool>,
    pub name: Option<String>,
    pub description: Option<String>,
    pub summary: Option<String>,
    pub url: Option<V3Url>,
}

impl V3Reference {
    /// Whether the value is an object whose members are of the kinds that
    /// a reference has.
    pub open spec fn admits(j: Json) -> bool {
        &&& j is Object
        &&& text_ok(j, "id"@)
        &&& bool_ok(j, "visible"@)
        &&& text_ok(j, "name"@)
        &&& text_ok(j, "description"@)
        &&& text_ok(j, "summary"@)
        &&& (match given(j, "url"@) {
            None => true,
            Some(x) => V3Url::admits(x),
        })
    }

    /// Whether each field is what the value gives under its key.
    pub open spec fn reads(self, j: Json) -> bool {
        &&& opt_text(self.id) == text_at(j, "id"@)
        &&& self.visible == bool_at(j, "visible"@)
        &&& opt_text(self.name) == text_at(j, "name"@)
        &&& opt_text(self.description) == text_at(j, "description"@)
        &&& opt_text(self.summary) == text_at(j, "summary"@)
        &&& (match given(j, "url"@) {
            None => self.url is None,
            Some(x) => self.url matches Some(y) && y.reads(x),
        })
    }

    /// Reads the value from JSON. A value that is not admitted is refused.
    pub fn decode(j: &Json) -> (r: Result<V3Reference, ParseError>)
        ensures
            r is Ok <==> Self::admits(*j),
            r matches Ok(t) ==> t.reads(*j),
            r matches Err(e) ==> e is ValidationError,
    {
        if !json::is_object(j) {
            return Err(json::wrong_kind("a reference", "an object"));
        }
        let id = match json::read_text(j, "id") {
            Ok(v) => v,
            Err(e) => return Err(e),
        };
        let visible = match json::read_bool(j, "visible") {
            Ok(v) => v,
            Err(e) => return Err(e),
        };
        let name = match json::read_text(j, "name") {
            Ok(v) => v,
            Err(e) => return Err(e),
        };
        let description = match json::read_text(j, "description") {
            Ok(v) => v,
            Err(e) => return Err(e),
        };
        let summary = match json::read_text(j, "summary") {
            Ok(v) => v,
            Err(e) => return Err(e),
        };
        let url = match get_given(j, "url") {
            None => None,
            Some(x) => match V3Url::decode(x) {
                Ok(v) => Some(v),
                Err(e) => return Err(e),
            },
        };
        Ok(V3Reference { id, visible, name, description, summary, url })
    }

    /// Whether each value of the sequence is admitted.
    pub open spec fn admits_all(a: Seq<Json>) -> bool {
        forall|i: int| 0 <= i < a.len() ==> Self::admits(#[trigger] a[i])
    }

    /// Whether the items are what the values give, one for one and in
    /// order.
    pub open spec fn reads_all(v: Seq<V3Reference>, a: Seq<Json>) -> bool {
        v.len() == a.len() && forall|i: int| 0 <= i < v.len() ==> (#[trigger] v[i]).reads(a[i])
    }

    /// Whether the value is an array of which each element is admitted.
    pub open spec fn admits_list(j: Json) -> bool {
        match j {
            Json::Array(a) => Self::admits_all(a@),
            _ => false,
        }
    }

    /// Whether the items are what the elements of the array give, in order.
    pub open spec fn reads_list(v: Seq<V3Reference>, j: Json) -> bool {
        match j {
            Json::Array(a) => Self::reads_all(v, a@),
            _ => false,
        }
    }

    /// Reads a list of them from a JSON array, item by item. A value that is
    /// not admitted is refused.
    pub fn decode_list(j: &Json) -> (r: Result<Vec<V3Reference>, ParseError>)
        ensures
            r is Ok <==> Self::admits_list(*j),
            r matches Ok(v) ==> Self::reads_list(v@, *j),
            r matches Err(e) ==> e is ValidationError,
    {
        match j {
            Json::Array(a) => {
                let mut out: Vec<V3Reference> = Vec::new();
                let mut i: usize = 0;
                while i < a.len()
                    invariant
                        i <= a@.len(),
                        out@.len() == i,
                        *j == Json::Array(*a),
                        forall|k: int| 0 <= k < i ==> Self::admits(#[trigger] a@[k]),
                        forall|k: int| 0 <= k < i ==> (#[trigger] out@[k]).reads(a@[k]),
                    decreases a@.len() - i,
                {
                    match Self::decode(&a[i]) {
                        Ok(t) => {
                            out.push(t);
                        },
                        Err(e) => {
                            assert(!Self::admits(a@[i as int]));
                            return Err(e);
                        },
                    }
                    i += 1;
                }
                Ok(out)
            },
            _ => Err(json::wrong_kind("a reference", "a list")),
        }
    }


    /// Whether the value is a section of such items.
    pub open spec fn admits_section(j: Json) -> bool {
        &&& j is Object
        &&& text_ok(j, "id"@)
        &&& text_ok(j, "name"@)
        &&& count_ok(j, "columns"@, 255)
        &&& bool_ok(j, "visible"@)
        &&& (match member(j, "items"@) {
            None => true,
            Some(x) => Self::admits_list(x),
        })
    }

    /// Whether the section is what the value gives.
    pub open spec fn reads_section(s: V3Section<V3Reference>, j: Json) -> bool {
        &&& opt_text(s.id) == text_at(j, "id"@)
        &&& opt_text(s.name) == text_at(j, "name"@)
        &&& small_count(s.columns) == count_at(j, "columns"@)
        &&& s.visible == bool_at(j, "visible"@)
        &&& (match member(j, "items"@) {
            None => s.items@.len() == 0,
            Some(x) => Self::reads_list(s.items@, x),
        })
    }

    /// Reads a section of them from JSON. A value that is not admitted is
    /// refused.
    pub fn decode_section(j: &Json) -> (r: Result<V3Section<V3Reference>, ParseError>)
        ensures
            r is Ok <==> Self::admits_section(*j),
            r matches Ok(s) ==> Self::reads_section(s, *j),
            r matches Err(e) ==> e is ValidationError,
    {
        if !json::is_object(j) {
            return Err(json::wrong_kind("a section", "an object"));
        }
        let id = match json::read_text(j, "id") {
            Ok(v) => v,
            Err(e) => return Err(e),
        };
        let name = match json::read_text(j, "name") {
            Ok(v) => v,
            Err(e) => return Err(e),
        };
        let columns = match json::read_small(j, "columns") {
            Ok(v) => v,
            Err(e) => return Err(e),
        };
        let visible = match json::read_bool(j, "visible") {
            Ok(v) => v,
            Err(e) => return Err(e),
        };
        let items = match get_member(j, "items") {
            None => Vec::new(),
            Some(x) => match Self::decode_list(x) {
                Ok(v) => v,
                Err(e) => return Err(e),
            },
        };
        Ok(V3Section { id, name, columns, visible, items })
    }
}

/// An item of a section of the subject's own.
#[derive(Debug, Clone)]
pub struct V3CustomItem {
    pub id: Option<String>,
    pub visible: Option<bool>,
    pub title: Option<String>,
    pub subtitle: Option<String>,
    pub date: Option<String>,
    pub location: Option<String>,
    pub summary: Option<String>,
    pub keywords: Vec<String>,
    pub url: Option<V3Url>,
}

impl V3CustomItem {
    /// Whether the value is an object whose members are of the kinds that
    /// a custom item has.
    pub open spec fn admits(j: Json) -> bool {
        &&& j is Object
        &&& text_ok(j, "id"@)
        &&& bool_ok(j, "visible"@)
        &&& text_ok(j, "title"@)
        &&& text_ok(j, "subtitle"@)
        &&& text_ok(j, "date"@)
        &&& text_ok(j, "location"@)
        &&& text_ok(j, "summary"@)
        &&& texts_or_none_ok(j, "keywords"@)
        &&& (match given(j, "url"@) {
            None => true,
            Some(x) => V3Url::admits(x),
        })
    }

    /// Whether each field is what the value gives under its key.
    pub open spec fn reads(self, j: Json) -> bool {
        &&& opt_text(self.id) == text_at(j, "id"@)
        &&& self.visible == bool_at(j, "visible"@)
        &&& opt_text(self.title) == text_at(j, "title"@)
        &&& opt_text(self.subtitle) == text_at(j, "subtitle"@)
        &&& opt_text(self.date) == text_at(j, "date"@)
        &&& opt_text(self.location) == text_at(j, "location"@)
        &&& opt_text(self.summary) == text_at(j, "summary"@)
        &&& texts(self.keywords@) == texts_or_none_at(j, "keywords"@)
        &&& (match given(j, "url"@) {
            None => self.url is None,
            Some(x) => self.url matches Some(y) && y.reads(x),
        })
    }

    /// Reads the value from JSON. A value that is not admitted is refused.
    pub fn decode(j: &Json) -> (r: Result<V3CustomItem, ParseError>)
        ensures
            r is Ok <==> Self::admits(*j),
            r matches Ok(t) ==> t.reads(*j),
            r matches Err(e) ==> e is ValidationError,
    {
        if !json::is_object(j) {
            return Err(json::wrong_kind("a custom item", "an object"));
        }
        let id = match json::read_text(j, "id") {
            Ok(v) => v,
            Err(e) => return Err(e),
        };
        let visible = match json::read_bool(j, "visible") {
            Ok(v) => v,
            Err(e) => return Err(e),
        };
        let title = match json::read_text(j, "title") {
            Ok(v) => v,
            Err(e) => return Err(e),
        };
        let subtitle = match json::read_text(j, "subtitle") {
            Ok(v) => v,
            Err(e) => return Err(e),
        };
        let date = match json::read_text(j, "date") {
            Ok(v) => v,
            Err(e) => return Err(e),
        };
        let location = match json::read_text(j, "location") {
            Ok(v) => v,
            Err(e) => return Err(e),
        };
        let summary = match json::read_text(j, "summary") {
            Ok(v) => v,
            Err(e) => return Err(e),
        };
        let keywords = match json::read_texts_or_none(j, "keywords") {
            Ok(v) => v,
            Err(e) => return Err(e),
        };
        let url = match get_given(j, "url") {
            None => None,
            Some(x) => match V3Url::decode(x) {
                Ok(v) => Some(v),
                Err(e) => return Err(e),
            },
        };
        Ok(V3CustomItem { id, visible, title, subtitle, date, location, summary, keywords, url })
    }

    /// Whether each value of the sequence is admitted.
    pub open spec fn admits_all(a: Seq<Json>) -> bool {
        forall|i: int| 0 <= i < a.len() ==> Self::admits(#[trigger] a[i])
    }

    /// Whether the items are what the values give, one for one and in
    /// order.
    pub open spec fn reads_all(v: Seq<V3CustomItem>, a: Seq<Json>) -> bool {
        v.len() == a.len() && forall|i: int| 0 <= i < v.len() ==> (#[trigger] v[i]).reads(a[i])
    }

    /// Whether the value is an array of which each element is admitted.
    pub open spec fn admits_list(j: Json) -> bool {
        match j {
            Json::Array(a) => Self::admits_all(a@),
            _ => false,
        }
    }

    /// Whether the items are what the elements of the array give, in order.
    pub open spec fn reads_list(v: Seq<V3CustomItem>, j: Json) -> bool {
        match j {
            Json::Array(a) => Self::reads_all(v, a@),
            _ => false,
        }
    }

    /// Reads a list of them from a JSON array, item by item. A value that is
    /// not admitted is refused.
    pub fn decode_list(j: &Json) -> (r: Result<Vec<V3CustomItem>, ParseError>)
        ensures
            r is Ok <==> Self::admits_list(*j),
            r matches Ok(v) ==> Self::reads_list(v@, *j),
            r matches Err(e) ==> e is ValidationError,
    {
        match j {
            Json::Array(a) => {
                let mut out: Vec<V3CustomItem> = Vec::new();
                let mut i: usize = 0;
                while i < a.len()
                    invariant
                        i <= a@.len(),
                        out@.len() == i,
                        *j == Json::Array(*a),
                        forall|k: int| 0 <= k < i ==> Self::admits(#[trigger] a@[k]),
                        forall|k: int| 0 <= k < i ==> (#[trigger] out@[k]).reads(a@[k]),
                    decreases a@.len() - i,
                {
                    match Self::decode(&a[i]) {
                        Ok(t) => {
                            out.push(t);
                        },
                        Err(e) => {
                            assert(!Self::admits(a@[i as int]));
                            return Err(e);
                        },
                    }
                    i += 1;
                }
                Ok(out)
            },
            _ => Err(json::wrong_kind("a custom item", "a list")),
        }
    }


    /// Whether the value is a section of such items.
    pub open spec fn admits_section(j: Json) -> bool {
        &&& j is Object
        &&& text_ok(j, "id"@)
        &&& text_ok(j, "name"@)
        &&& count_ok(j, "columns"@, 255)
        &&& bool_ok(j, "visible"@)
        &&& (match member(j, "items"@) {
            None => true,
            Some(x) => Self::admits_list(x),
        })
    }

    /// Whether the section is what the value gives.
    pub open spec fn reads_section(s: V3Section<V3CustomItem>, j: Json) -> bool {
        &&& opt_text(s.id) == text_at(j, "id"@)
        &&& opt_text(s.name) == text_at(j, "name"@)
        &&& small_count(s.columns) == count_at(j, "columns"@)
        &&& s.visible == bool_at(j, "visible"@)
        &&& (match member(j, "items"@) {
            None => s.items@.len() == 0,
            Some(x) => Self::reads_list(s.items@, x),
        })
    }

    /// Reads a section of them from JSON. A value that is not admitted is
    /// refused.
    pub fn decode_section(j: &Json) -> (r: Result<V3Section<V3CustomItem>, ParseError>)
        ensures
            r is Ok <==> Self::admits_section(*j),
            r matches Ok(s) ==> Self::reads_section(s, *j),
            r matches Err(e) ==> e is ValidationError,
    {
        if !json::is_object(j) {
            return Err(json::wrong_kind("a section", "an object"));
        }
        let id = match json::read_text(j, "id") {
            Ok(v) => v,
            Err(e) => return Err(e),
        };
        let name = match json::read_text(j, "name") {
            Ok(v) => v,
            Err(e) => return Err(e),
        };
        let columns = match json::read_small(j, "columns") {
            Ok(v) => v,
            Err(e) => return Err(e),
        };
        let visible = match json::read_bool(j, "visible") {
            Ok(v) => v,
            Err(e) => return Err(e),
        };
        let items = match get_member(j, "items") {
            None => Vec::new(),
            Some(x) => match Self::decode_list(x) {
                Ok(v) => v,
                Err(e) => return Err(e),
            },
        };
        Ok(V3Section { id, name, columns, visible, items })
    }


    /// Whether each member's value is a section.
    pub open spec fn admits_members(m: Seq<(String, Json)>) -> bool {
        forall|i: int| 0 <= i < m.len() ==> Self::admits_section((#[trigger] m[i]).1)
    }

    /// Whether the sections are what the members give, key for key and in
    /// order.
    pub open spec fn reads_members(
        v: Seq<(String, V3Section<V3CustomItem>)>,
        m: Seq<(String, Json)>,
    ) -> bool {
        v.len() == m.len() && forall|i: int|
            0 <= i < v.len() ==> (#[trigger] v[i]).0@ == m[i].0@ && Self::reads_section(
                v[i].1,
                m[i].1,
            )
    }

    /// Whether the value is an object of which each member is a section.
    pub open spec fn admits_sections(j: Json) -> bool {
        match j {
            Json::Object(m) => Self::admits_members(m@),
            _ => false,
        }
    }

    /// Whether the sections are what the members of the object give.
    pub open spec fn reads_sections(v: Seq<(String, V3Section<V3CustomItem>)>, j: Json) -> bool {
        match j {
            Json::Object(m) => Self::reads_members(v, m@),
            _ => false,
        }
    }

    /// Reads the subject's own sections from a JSON object, member by member,
    /// in the order of the members.
    pub fn decode_sections(j: &Json) -> (r: Result<Vec<(String, V3Section<V3CustomItem>)>, ParseError>)
        ensures
            r is Ok <==> Self::admits_sections(*j),
            r matches Ok(v) ==> Self::reads_sections(v@, *j),
            r matches Err(e) ==> e is ValidationError,
    {
        match j {
            Json::Object(m) => {
                let mut out: Vec<(String, V3Section<V3CustomItem>)> = Vec::new();
                let mut i: usize = 0;
                while i < m.len()
                    invariant
                        i <= m@.len(),
                        out@.len() == i,
                        *j == Json::Object(*m),
                        forall|k: int| 0 <= k < i ==> Self::admits_section((#[trigger] m@[k]).1),
                        forall|k: int|
                            0 <= k < i ==> (#[trigger] out@[k]).0@ == m@[k].0@
                                && Self::reads_section(out@[k].1, m@[k].1),
                    decreases m@.len() - i,
                {
                    match Self::decode_section(&m[i].1) {
                        Ok(s) => {
                            out.push((m[i].0.clone(), s));
                        },
                        Err(e) => {
                            assert(!Self::admits_section(m@[i as int].1));
                            return Err(e);
                        },
                    }
                    i += 1;
                }
                Ok(out)
            },
            _ => Err(json::wrong_kind("custom sections", "an object")),
        }
    }
}

/// All the sections.
#[derive(Debug, Clone)]
pub struct V3Sections {
    pub profiles: V3Section<V3Profile>,
    pub experience: V3Section<V3Experience>,
    pub education: V3Section<V3Education>,
    pub skills: V3Section<V3Skill>,
    pub languages: V3Section<V3Language>,
    pub awards: V3Section<V3Award>,
    pub certifications: V3Section<V3Certification>,
    pub interests: V3Section<V3Interest>,
    pub projects: V3Section<V3Project>,
    pub publications: V3Section<V3Publication>,
    pub volunteer: V3Section<V3Volunteer>,
    pub references: V3Section<V3Reference>,
    pub custom: Vec<(String, V3Section<V3CustomItem>)>,
}

impl V3Sections {
    /// Whether the value is an object whose members are of the kinds that
    /// the sections has.
    pub open spec fn admits(j: Json) -> bool {
        &&& j is Object
        &&& (match member(j, "profiles"@) {
            None => true,
            Some(x) => V3Profile::admits_section(x),
        })
        &&& (match member(j, "experience"@) {
            None => true,
            Some(x) => V3Experience::admits_section(x),
        })
        &&& (match member(j, "education"@) {
            None => true,
            Some(x) => V3Education::admits_section(x),
        })
        &&& (match member(j, "skills"@) {
            None => true,
            Some(x) => V3Skill::admits_section(x),
        })
        &&& (match member(j, "languages"@) {
            None => true,
            Some(x) => V3Language::admits_section(x),
        })
        &&& (match member(j, "awards"@) {
            None => true,
            Some(x) => V3Award::admits_section(x),
        })
        &&& (match member(j, "certifications"@) {
            None => true,
            Some(x) => V3Certification::admits_section(x),
        })
        &&& (match member(j, "interests"@) {
            None => true,
            Some(x) => V3Interest::admits_section(x),
        })
        &&& (match member(j, "projects"@) {
            None => true,
            Some(x) => V3Project::admits_section(x),
        })
        &&& (match member(j, "publications"@) {
            None => true,
            Some(x) => V3Publication::admits_section(x),
        })
        &&& (match member(j, "volunteer"@) {
            None => true,
            Some(x) => V3Volunteer::admits_section(x),
        })
        &&& (match member(j, "references"@) {
            None => true,
            Some(x) => V3Reference::admits_section(x),
        })
        &&& (match member(j, "custom"@) {
            None => true,
            Some(x) => V3CustomItem::admits_sections(x),
        })
    }

    /// Whether each field is what the value gives under its key.
    pub open spec fn reads(self, j: Json) -> bool {
        &&& (match member(j, "profiles"@) {
            None => self.profiles.blank(),
            Some(x) => V3Profile::reads_section(self.profiles, x),
        })
        &&& (match member(j, "experience"@) {
            None => self.experience.blank(),
            Some(x) => V3Experience::reads_section(self.experience, x),
        })
        &&& (match member(j, "education"@) {
            None => self.education.blank(),
            Some(x) => V3Education::reads_section(self.education, x),
        })
        &&& (match member(j, "skills"@) {
            None => self.skills.blank(),
            Some(x) => V3Skill::reads_section(self.skills, x),
        })
        &&& (match member(j, "languages"@) {
            None => self.languages.blank(),
            Some(x) => V3Language::reads_section(self.languages, x),
        })
        &&& (match member(j, "awards"@) {
            None => self.awards.blank(),
            Some(x) => V3Award::reads_section(self.awards, x),
        })
        &&& (match member(j, "certifications"@) {
            None => self.certifications.blank(),
            Some(x) => V3Certification::reads_section(self.certifications, x),
        })
        &&& (match member(j, "interests"@) {
            None => self.interests.blank(),
            Some(x) => V3Interest::reads_section(self.interests, x),
        })
        &&& (match member(j, "projects"@) {
            None => self.projects.blank(),
            Some(x) => V3Project::reads_section(self.projects, x),
        })
        &&& (match member(j, "publications"@) {
            None => self.publications.blank(),
            Some(x) => V3Publication::reads_section(self.publications, x),
        })
        &&& (match member(j, "volunteer"@) {
            None => self.volunteer.blank(),
            Some(x) => V3Volunteer::reads_section(self.volunteer, x),
        })
        &&& (match member(j, "references"@) {
            None => self.references.blank(),
            Some(x) => V3Reference::reads_section(self.references, x),
        })
        &&& (match member(j, "custom"@) {
            None => self.custom@.len() == 0,
            Some(x) => V3CustomItem::reads_sections(self.custom@, x),
        })
    }

    /// Whether nothing is given.
    pub open spec fn blank(self) -> bool {
        &&& self.profiles.blank()
        &&& self.experience.blank()
        &&& self.education.blank()
        &&& self.skills.blank()
        &&& self.languages.blank()
        &&& self.awards.blank()
        &&& self.certifications.blank()
        &&& self.interests.blank()
        &&& self.projects.blank()
        &&& self.publications.blank()
        &&& self.volunteer.blank()
        &&& self.references.blank()
        &&& self.custom@.len() == 0
    }

    /// Reads the value from JSON. A value that is not admitted is refused.
    pub fn decode(j: &Json) -> (r: Result<V3Sections, ParseError>)
        ensures
            r is Ok <==> Self::admits(*j),
            r matches Ok(t) ==> t.reads(*j),
            r matches Err(e) ==> e is ValidationError,
    {
        if !json::is_object(j) {
            return Err(json::wrong_kind("the sections", "an object"));
        }
        let profiles = match get_member(j, "profiles") {
            None => V3Section::default(),
            Some(x) => match V3Profile::decode_section(x) {
                Ok(v) => v,
                Err(e) => return Err(e),
            },
        };
        let experience = match get_member(j, "experience") {
            None => V3Section::default(),
            Some(x) => match V3Experience::decode_section(x) {
                Ok(v) => v,
                Err(e) => return Err(e),
            },
        };
        let education = match get_member(j, "education") {
            None => V3Section::default(),
            Some(x) => match V3Education::decode_section(x) {
                Ok(v) => v,
                Err(e) => return Err(e),
            },
        };
        let skills = match get_member(j, "skills") {
            None => V3Section::default(),
            Some(x) => match V3Skill::decode_section(x) {
                Ok(v) => v,
                Err(e) => return Err(e),
            },
        };
        let languages = match get_member(j, "languages") {
            None => V3Section::default(),
            Some(x) => match V3Language::decode_section(x) {
                Ok(v) => v,
                Err(e) => return Err(e),
            },
        };
        let awards = match get_member(j, "awards") {
            None => V3Section::default(),
            Some(x) => match V3Award::decode_section(x) {
                Ok(v) => v,
                Err(e) => return Err(e),
            },
        };
        let certifications = match get_member(j, "certifications") {
            None => V3Section::default(),
            Some(x) => match V3Certification::decode_section(x) {
                Ok(v) => v,
                Err(e) => return Err(e),
            },
        };
        let interests = match get_member(j, "interests") {
            None => V3Section::default(),
            Some(x) => match V3Interest::decode_section(x) {
                Ok(v) => v,
                Err(e) => return Err(e),
            },
        };
        let projects = match get_member(j, "projects") {
            None => V3Section::default(),
            Some(x) => match V3Project::decode_section(x) {
                Ok(v) => v,
                Err(e) => return Err(e),
            },
        };
        let publications = match get_member(j, "publications") {
            None => V3Section::default(),
            Some(x) => match V3Publication::decode_section(x) {
                Ok(v) => v,
                Err(e) => return Err(e),
            },
        };
        let volunteer = match get_member(j, "volunteer") {
            None => V3Section::default(),
            Some(x) => match V3Volunteer::decode_section(x) {
                Ok(v) => v,
                Err(e) => return Err(e),
            },
        };
        let references = match get_member(j, "references") {
            None => V3Section::default(),
            Some(x) => match V3Reference::decode_section(x) {
                Ok(v) => v,
                Err(e) => return Err(e),
            },
        };
        let custom = match get_member(j, "custom") {
            None => Vec::new(),
            Some(x) => match V3CustomItem::decode_sections(x) {
                Ok(v) => v,
                Err(e) => return Err(e),
            },
        };
        Ok(V3Sections { profiles, experience, education, skills, languages, awards, certifications, interests, projects, publications, volunteer, references, custom })
    }
}

impl Default for V3Sections {
    fn default() -> (r: V3Sections)
        ensures
            r.blank(),
    {
        V3Sections {
            profiles: V3Section::default(),
            experience: V3Section::default(),
            education: V3Section::default(),
            skills: V3Section::default(),
            languages: V3Section::default(),
            awards: V3Section::default(),
            certifications: V3Section::default(),
            interests: V3Section::default(),
            projects: V3Section::default(),
            publications: V3Section::default(),
            volunteer: V3Section::default(),
            references: V3Section::default(),
            custom: Vec::new(),
        }
    }
}

/// The colours.
#[derive(Debug, Clone)]
pub struct V3Theme {
    pub primary: Option<String>,
    pub background: Option<String>,
    pub text: Option<String>,
}

impl V3Theme {
    /// Whether the value is an object whose members are of the kinds that
    /// a theme has.
    pub open spec fn admits(j: Json) -> bool {
        &&& j is Object
        &&& text_ok(j, "primary"@)
        &&& text_ok(j, "background"@)
        &&& text_ok(j, "text"@)
    }

    /// Whether each field is what the value gives under its key.
    pub open spec fn reads(self, j: Json) -> bool {
        &&& opt_text(self.primary) == text_at(j, "primary"@)
        &&& opt_text(self.background) == text_at(j, "background"@)
        &&& opt_text(self.text) == text_at(j, "text"@)
    }

    /// Whether nothing is given.
    pub open spec fn blank(self) -> bool {
        &&& self.primary is None
        &&& self.background is None
        &&& self.text is None
    }

    /// Reads the value from JSON. A value that is not admitted is refused.
    pub fn decode(j: &Json) -> (r: Result<V3Theme, ParseError>)
        ensures
            r is Ok <==> Self::admits(*j),
            r matches Ok(t) ==> t.reads(*j),
            r matches Err(e) ==> e is ValidationError,
    {
        if !json::is_object(j) {
            return Err(json::wrong_kind("a theme", "an object"));
        }
        let primary = match json::read_text(j, "primary") {
            Ok(v) => v,
            Err(e) => return Err(e),
        };
        let background = match json::read_text(j, "background") {
            Ok(v) => v,
            Err(e) => return Err(e),
        };
        let text = match json::read_text(j, "text") {
            Ok(v) => v,
            Err(e) => return Err(e),
        };
        Ok(V3Theme { primary, background, text })
    }
}

impl Default for V3Theme {
    fn default() -> (r: V3Theme)
        ensures
            r.blank(),
    {
        V3Theme {
            primary: None,
            background: None,
            text: None,
        }
    }
}

/// The font.
#[derive(Debug, Clone)]
pub struct V3Font {
    pub family: Option<String>,
    pub subset: Option<String>,
    pub variants: Option<Vec<String>>,
    pub size: Option<u32>,
}

impl V3Font {
    /// Whether the value is an object whose members are of the kinds that
    /// a font has.
    pub open spec fn admits(j: Json) -> bool {
        &&& j is Object
        &&& text_ok(j, "family"@)
        &&& text_ok(j, "subset"@)
        &&& texts_ok(j, "variants"@)
        &&& count_ok(j, "size"@, 4294967295)
    }

    /// Whether each field is what the value gives under its key.
    pub open spec fn reads(self, j: Json) -> bool {
        &&& opt_text(self.family) == text_at(j, "family"@)
        &&& opt_text(self.subset) == text_at(j, "subset"@)
        &&& opt_texts(self.variants) == texts_at(j, "variants"@)
        &&& size_count(self.size) == count_at(j, "size"@)
    }

    /// Reads the value from JSON. A value that is not admitted is refused.
    pub fn decode(j: &Json) -> (r: Result<V3Font, ParseError>)
        ensures
            r is Ok <==> Self::admits(*j),
            r matches Ok(t) ==> t.reads(*j),
            r matches Err(e) ==> e is ValidationError,
    {
        if !json::is_object(j) {
            return Err(json::wrong_kind("a font", "an object"));
        }
        let family = match json::read_text(j, "family") {
            Ok(v) => v,
            Err(e) => return Err(e),
        };
        let subset = match json::read_text(j, "subset") {
            Ok(v) => v,
            Err(e) => return Err(e),
        };
        let variants = match json::read_texts(j, "variants") {
            Ok(v) => v,
            Err(e) => return Err(e),
        };
        let size = match json::read_size(j, "size") {
            Ok(v) => v,
            Err(e) => return Err(e),
        };
        Ok(V3Font { family, subset, variants, size })
    }
}

/// How text is set.
#[derive(Debug, Clone)]
pub struct V3Typography {
    pub font: Option<V3Font>,
    pub line_height: Option<Decimal>,
    pub hide_icons: Option<bool>,
    pub underline_links: Option<bool>,
}

impl V3Typography {
    /// Whether the value is an object whose members are of the kinds that
    /// typography has.
    pub open spec fn admits(j: Json) -> bool {
        &&& j is Object
        &&& (match given(j, "font"@) {
            None => true,
            Some(x) => V3Font::admits(x),
        })
        &&& number_ok(j, "lineHeight"@)
        &&& bool_ok(j, "hideIcons"@)
        &&& bool_ok(j, "underlineLinks"@)
    }

    /// Whether each field is what the value gives under its key.
    pub open spec fn reads(self, j: Json) -> bool {
        &&& (match given(j, "font"@) {
            None => self.font is None,
            Some(x) => self.font matches Some(y) && y.reads(x),
        })
        &&& opt_decimal(self.line_height) == number_at(j, "lineHeight"@)
        &&& self.hide_icons == bool_at(j, "hideIcons"@)
        &&& self.underline_links == bool_at(j, "underlineLinks"@)
    }

    /// Whether nothing is given.
    pub open spec fn blank(self) -> bool {
        &&& self.font is None
        &&& self.line_height is None
        &&& self.hide_icons is None
        &&& self.underline_links is None
    }

    /// Reads the value from JSON. A value that is not admitted is refused.
    pub fn decode(j: &Json) -> (r: Result<V3Typography, ParseError>)
        ensures
            r is Ok <==> Self::admits(*j),
            r matches Ok(t) ==> t.reads(*j),
            r matches Err(e) ==> e is ValidationError,
    {
        if !json::is_object(j) {
            return Err(json::wrong_kind("typography", "an object"));
        }
        let font = match get_given(j, "font") {
            None => None,
            Some(x) => match V3Font::decode(x) {
                Ok(v) => Some(v),
                Err(e) => return Err(e),
            },
        };
        let line_height = match json::read_number(j, "lineHeight") {
            Ok(v) => v,
            Err(e) => return Err(e),
        };
        let hide_icons = match json::read_bool(j, "hideIcons") {
            Ok(v) => v,
            Err(e) => return Err(e),
        };
        let underline_links = match json::read_bool(j, "underlineLinks") {
            Ok(v) => v,
            Err(e) => return Err(e),
        };
        Ok(V3Typography { font, line_height, hide_icons, underline_links })
    }
}

impl Default for V3Typography {
    fn default() -> (r: V3Typography)
        ensures
            r.blank(),
    {
        V3Typography {
            font: None,
            line_height: None,
            hide_icons: None,
            underline_links: None,
        }
    }
}

/// What is drawn on every page.
#[derive(Debug, Clone)]
pub struct V3PageOptions {
    pub break_line: Option<bool>,
    pub page_numbers: Option<bool>,
}

impl V3PageOptions {
    /// Whether the value is an object whose members are of the kinds that
    /// page options has.
    pub open spec fn admits(j: Json) -> bool {
        &&& j is Object
        &&& bool_ok(j, "breakLine"@)
        &&& bool_ok(j, "pageNumbers"@)
    }

    /// Whether each field is what the value gives under its key.
    pub open spec fn reads(self, j: Json) -> bool {
        &&& self.break_line == bool_at(j, "breakLine"@)
        &&& self.page_numbers == bool_at(j, "pageNumbers"@)
    }

    /// Reads the value from JSON. A value that is not admitted is refused.
    pub fn decode(j: &Json) -> (r: Result<V3PageOptions, ParseError>)
        ensures
            r is Ok <==> Self::admits(*j),
            r matches Ok(t) ==> t.reads(*j),
            r matches Err(e) ==> e is ValidationError,
    {
        if !json::is_object(j) {
            return Err(json::wrong_kind("page options", "an object"));
        }
        let break_line = match json::read_bool(j, "breakLine") {
            Ok(v) => v,
            Err(e) => return Err(e),
        };
        let page_numbers = match json::read_bool(j, "pageNumbers") {
            Ok(v) => v,
            Err(e) => return Err(e),
        };
        Ok(V3PageOptions { break_line, page_numbers })
    }
}

/// The page.
#[derive(Debug, Clone)]
pub struct V3Page {
    pub format: Option<String>,
    pub margin: Option<u32>,
    pub options: Option<V3PageOptions>,
}

impl V3Page {
    /// Whether the value is an object whose members are of the kinds that
    /// a page has.
    pub open spec fn admits(j: Json) -> bool {
        &&& j is Object
        &&& text_ok(j, "format"@)
        &&& count_ok(j, "margin"@, 4294967295)
        &&& (match given(j, "options"@) {
            None => true,
            Some(x) => V3PageOptions::admits(x),
        })
    }

    /// Whether each field is what the value gives under its key.
    pub open spec fn reads(self, j: Json) -> bool {
        &&& opt_text(self.format) == text_at(j, "format"@)
        &&& size_count(self.margin) == count_at(j, "margin"@)
        &&& (match given(j, "options"@) {
            None => self.options is None,
            Some(x) => self.options matches Some(y) && y.reads(x),
        })
    }

    /// Whether nothing is given.
    pub open spec fn blank(self) -> bool {
        &&& self.format is None
        &&& self.margin is None
        &&& self.options is None
    }

    /// Reads the value from JSON. A value that is not admitted is refused.
    pub fn decode(j: &Json) -> (r: Result<V3Page, ParseError>)
        ensures
            r is Ok <==> Self::admits(*j),
            r matches Ok(t) ==> t.reads(*j),
            r matches Err(e) ==> e is ValidationError,
    {
        if !json::is_object(j) {
            return Err(json::wrong_kind("a page", "an object"));
        }
        let format = match json::read_text(j, "format") {
            Ok(v) => v,
            Err(e) => return Err(e),
        };
        let margin = match json::read_size(j, "margin") {
            Ok(v) => v,
            Err(e) => return Err(e),
        };
        let options = match get_given(j, "options") {
            None => None,
            Some(x) => match V3PageOptions::decode(x) {
                Ok(v) => Some(v),
                Err(e) => return Err(e),
            },
        };
        Ok(V3Page { format, margin, options })
    }
}

impl Default for V3Page {
    fn default() -> (r: V3Page)
        ensures
            r.blank(),
    {
        V3Page {
            format: None,
            margin: None,
            options: None,
        }
    }
}

/// A style sheet of the subject's own.
#[derive(Debug, Clone)]
pub struct V3Css {
    pub value: Option<String>,
    pub visible: Option<bool>,
}

impl V3Css {
    /// Whether the value is an object whose members are of the kinds that
    /// a style sheet has.
    pub open spec fn admits(j: Json) -> bool {
        &&& j is Object
        &&& text_ok(j, "value"@)
        &&& bool_ok(j, "visible"@)
    }

    /// Whether each field is what the value gives under its key.
    pub open spec fn reads(self, j: Json) -> bool {
        &&& opt_text(self.value) == text_at(j, "value"@)
        &&& self.visible == bool_at(j, "visible"@)
    }

    /// Reads the value from JSON. A value that is not admitted is refused.
    pub fn decode(j: &Json) -> (r: Result<V3Css, ParseError>)
        ensures
            r is Ok <==> Self::admits(*j),
            r matches Ok(t) ==> t.reads(*j),
            r matches Err(e) ==> e is ValidationError,
    {
        if !json::is_object(j) {
            return Err(json::wrong_kind("a style sheet", "an object"));
        }
        let value = match json::read_text(j, "value") {
            Ok(v) => v,
            Err(e) => return Err(e),
        };
        let visible = match json::read_bool(j, "visible") {
            Ok(v) => v,
            Err(e) => return Err(e),
        };
        Ok(V3Css { value, visible })
    }
}

/// How dates are written.
#[derive(Debug, Clone)]
pub struct V3DateConfig {
    pub format: Option<String>,
}

impl V3DateConfig {
    /// Whether the value is an object whose members are of the kinds that
    /// a date format has.
    pub open spec fn admits(j: Json) -> bool {
        &&& j is Object
        &&& text_ok(j, "format"@)
    }

    /// Whether each field is what the value gives under its key.
    pub open spec fn reads(self, j: Json) -> bool {
        &&& opt_text(self.format) == text_at(j, "format"@)
    }

    /// Reads the value from JSON. A value that is not admitted is refused.
    pub fn decode(j: &Json) -> (r: Result<V3DateConfig, ParseError>)
        ensures
            r is Ok <==> Self::admits(*j),
            r matches Ok(t) ==> t.reads(*j),
            r matches Err(e) ==> e is ValidationError,
    {
        if !json::is_object(j) {
            return Err(json::wrong_kind("a date format", "an object"));
        }
        let format = match json::read_text(j, "format") {
            Ok(v) => v,
            Err(e) => return Err(e),
        };
        Ok(V3DateConfig { format })
    }
}

/// How the document is presented.
#[derive(Debug, Clone)]
pub struct V3Metadata {
    pub template: Option<String>,
    pub layout: Option<Vec<Vec<Vec<String>>>>,
    pub theme: V3Theme,
    pub typography: V3Typography,
    pub page: V3Page,
    pub css: Option<V3Css>,
    pub locale: Option<String>,
    pub date: Option<V3DateConfig>,
}

impl V3Metadata {
    /// Whether the value is an object whose members are of the kinds that
    /// the metadata has.
    pub open spec fn admits(j: Json) -> bool {
        &&& j is Object
        &&& text_ok(j, "template"@)
        &&& layout_ok(j, "layout"@)
        &&& (match member(j, "theme"@) {
            None => true,
            Some(x) => V3Theme::admits(x),
        })
        &&& (match member(j, "typography"@) {
            None => true,
            Some(x) => V3Typography::admits(x),
        })
        &&& (match member(j, "page"@) {
            None => true,
            Some(x) => V3Page::admits(x),
        })
        &&& (match given(j, "css"@) {
            None => true,
            Some(x) => V3Css::admits(x),
        })
        &&& text_ok(j, "locale"@)
        &&& (match given(j, "date"@) {
            None => true,
            Some(x) => V3DateConfig::admits(x),
        })
    }

    /// Whether each field is what the value gives under its key.
    pub open spec fn reads(self, j: Json) -> bool {
        &&& opt_text(self.template) == text_at(j, "template"@)
        &&& opt_layout_names(self.layout) == layout_at(j, "layout"@)
        &&& (match member(j, "theme"@) {
            None => self.theme.blank(),
            Some(x) => self.theme.reads(x),
        })
        &&& (match member(j, "typography"@) {
            None => self.typography.blank(),
            Some(x) => self.typography.reads(x),
        })
        &&& (match member(j, "page"@) {
            None => self.page.blank(),
            Some(x) => self.page.reads(x),
        })
        &&& (match given(j, "css"@) {
            None => self.css is None,
            Some(x) => self.css matches Some(y) && y.reads(x),
        })
        &&& opt_text(self.locale) == text_at(j, "locale"@)
        &&& (match given(j, "date"@) {
            None => self.date is None,
            Some(x) => self.date matches Some(y) && y.reads(x),
        })
    }

    /// Whether nothing is given.
    pub open spec fn blank(self) -> bool {
        &&& self.template is None
        &&& self.layout is None
        &&& self.theme.blank()
        &&& self.typography.blank()
        &&& self.page.blank()
        &&& self.css is None
        &&& self.locale is None
        &&& self.date is None
    }

    /// Reads the value from JSON. A value that is not admitted is refused.
    pub fn decode(j: &Json) -> (r: Result<V3Metadata, ParseError>)
        ensures
            r is Ok <==> Self::admits(*j),
            r matches Ok(t) ==> t.reads(*j),
            r matches Err(e) ==> e is ValidationError,
    {
        if !json::is_object(j) {
            return Err(json::wrong_kind("the metadata", "an object"));
        }
        let template = match json::read_text(j, "template") {
            Ok(v) => v,
            Err(e) => return Err(e),
        };
        let layout = match json::read_layout(j, "layout") {
            Ok(v) => v,
            Err(e) => return Err(e),
        };
        let theme = match get_member(j, "theme") {
            None => V3Theme::default(),
            Some(x) => match V3Theme::decode(x) {
                Ok(v) => v,
                Err(e) => return Err(e),
            },
        };
        let typography = match get_member(j, "typography") {
            None => V3Typography::default(),
            Some(x) => match V3Typography::decode(x) {
                Ok(v) => v,
                Err(e) => return Err(e),
            },
        };
        let page = match get_member(j, "page") {
            None => V3Page::default(),
            Some(x) => match V3Page::decode(x) {
                Ok(v) => v,
                Err(e) => return Err(e),
            },
        };
        let css = match get_given(j, "css") {
            None => None,
            Some(x) => match V3Css::decode(x) {
                Ok(v) => Some(v),
                Err(e) => return Err(e),
            },
        };
        let locale = match json::read_text(j, "locale") {
            Ok(v) => v,
            Err(e) => return Err(e),
        };
        let date = match get_given(j, "date") {
            None => None,
            Some(x) => match V3DateConfig::decode(x) {
                Ok(v) => Some(v),
                Err(e) => return Err(e),
            },
        };
        Ok(V3Metadata { template, layout, theme, typography, page, css, locale, date })
    }
}

impl Default for V3Metadata {
    fn default() -> (r: V3Metadata)
        ensures
            r.blank(),
    {
        V3Metadata {
            template: None,
            layout: None,
            theme: V3Theme::default(),
            typography: V3Typography::default(),
            page: V3Page::default(),
            css: None,
            locale: None,
            date: None,
        }
    }
}

/// A résumé in the predecessor format.
#[derive(Debug, Clone)]
pub struct V3Resume {
    pub id: Option<String>,
    pub name: Option<String>,
    pub slug: Option<String>,
    pub public: Option<bool>,
    pub basics: V3Basics,
    pub sections: V3Sections,
    pub metadata: V3Metadata,
}

impl V3Resume {
    /// Whether the value is an object whose members are of the kinds that
    /// a résumé has.
    pub open spec fn admits(j: Json) -> bool {
        &&& j is Object
        &&& text_ok(j, "id"@)
        &&& text_ok(j, "name"@)
        &&& text_ok(j, "slug"@)
        &&& bool_ok(j, "public"@)
        &&& (match member(j, "basics"@) {
            None => true,
            Some(x) => V3Basics::admits(x),
        })
        &&& (match member(j, "sections"@) {
            None => true,
            Some(x) => V3Sections::admits(x),
        })
        &&& (match member(j, "metadata"@) {
            None => true,
            Some(x) => V3Metadata::admits(x),
        })
    }

    /// Whether each field is what the value gives under its key.
    pub open spec fn reads(self, j: Json) -> bool {
        &&& opt_text(self.id) == text_at(j, "id"@)
        &&& opt_text(self.name) == text_at(j, "name"@)
        &&& opt_text(self.slug) == text_at(j, "slug"@)
        &&& self.public == bool_at(j, "public"@)
        &&& (match member(j, "basics"@) {
            None => self.basics.blank(),
            Some(x) => self.basics.reads(x),
        })
        &&& (match member(j, "sections"@) {
            None => self.sections.blank(),
            Some(x) => self.sections.reads(x),
        })
        &&& (match member(j, "metadata"@) {
            None => self.metadata.blank(),
            Some(x) => self.metadata.reads(x),
        })
    }

    /// Reads the value from JSON. A value that is not admitted is refused.
    pub fn decode(j: &Json) -> (r: Result<V3Resume, ParseError>)
        ensures
            r is Ok <==> Self::admits(*j),
            r matches Ok(t) ==> t.reads(*j),
            r matches Err(e) ==> e is ValidationError,
    {
        if !json::is_object(j) {
            return Err(json::wrong_kind("a résumé", "an object"));
        }
        let id = match json::read_text(j, "id") {
            Ok(v) => v,
            Err(e) => return Err(e),
        };
        let name = match json::read_text(j, "name") {
            Ok(v) => v,
            Err(e) => return Err(e),
        };
        let slug = match json::read_text(j, "slug") {
            Ok(v) => v,
            Err(e) => return Err(e),
        };
        let public = match json::read_bool(j, "public") {
            Ok(v) => v,
            Err(e) => return Err(e),
        };
        let basics = match get_member(j, "basics") {
            None => V3Basics::default(),
            Some(x) => match V3Basics::decode(x) {
                Ok(v) => v,
                Err(e) => return Err(e),
            },
        };
        let sections = match get_member(j, "sections") {
            None => V3Sections::default(),
            Some(x) => match V3Sections::decode(x) {
                Ok(v) => v,
                Err(e) => return Err(e),
            },
        };
        let metadata = match get_member(j, "metadata") {
            None => V3Metadata::default(),
            Some(x) => match V3Metadata::decode(x) {
                Ok(v) => v,
                Err(e) => return Err(e),
            },
        };
        Ok(V3Resume { id, name, slug, public, basics, sections, metadata })
    }
}

} // verus!
