//! Reading a document from its JSON. A member that is not there takes its
//! default; one of the wrong kind is refused, and so is a value without a
//! member that must be there: the identifier of an item or a section, and
//! the first of an item's required fields.

use vstd::prelude::*;
use crate::json;
use crate::json::{
    bool_or_at, bool_or_ok, count_or_at, count_or_ok, get_member, json_reading, layout_or_at,
    layout_or_ok, member, number_or_at, number_or_ok, read_json, strict_text_at, strict_text_ok,
    text_or_at, text_or_ok, texts_or_at, texts_or_none_at, texts_or_none_ok, Json,
};
use crate::parser::traits::ParseError;
use crate::schema::basics::{Basics, Picture, PictureEffects};
use crate::schema::items::{
    Award, Certification, CustomItem, Education, Experience, Interest, Language, Profile, Project,
    Publication, Reference, Skill, Volunteer,
};
use crate::schema::metadata::{
    default_layout_names, default_variants, layout_names, CustomCss, FontConfig, Metadata,
    PageConfig, PageFormat, PageOptions, Theme, Typography,
};
use crate::schema::resume::ResumeData;
use crate::schema::sections::{CustomSection, CustomSections, Section, Sections, SummarySection};
use crate::schema::shared::{CustomField, Url};
use crate::text::{same_text, texts};

verus! {

impl PageFormat {
    /// Whether the value is the name of a paper: `a4` or `letter`.
    pub open spec fn admits(j: Json) -> bool {
        j matches Json::Text(s) && (s@ == "a4"@ || s@ == "letter"@)
    }

    /// Whether each field is what the value gives under its key.
    pub open spec fn reads(self, j: Json) -> bool {
        j matches Json::Text(s) && (self == if s@ == "letter"@ {
            PageFormat::Letter
        } else {
            PageFormat::A4
        })
    }

    /// Reads the value from JSON. A value that is not admitted is refused.
    pub fn decode(j: &Json) -> (r: Result<PageFormat, ParseError>)
        ensures
            r is Ok <==> Self::admits(*j),
            r matches Ok(t) ==> t.reads(*j),
            r matches Err(e) ==> e is ValidationError,
    {
        match j {
            Json::Text(s) => {
                proof {
                    reveal_strlit("a4");
                    reveal_strlit("letter");
                    assert("a4"@.len() != "letter"@.len());
                }
                if same_text(s.as_str(), "a4") {
                    Ok(PageFormat::A4)
                } else if same_text(s.as_str(), "letter") {
                    Ok(PageFormat::Letter)
                } else {
                    Err(json::wrong_kind("format", "`a4` or `letter`"))
                }
            },
            _ => Err(json::wrong_kind("format", "a string")),
        }
    }
}

impl Url {
    /// Whether the value is an object that can be read as a link.
    pub open spec fn admits(j: Json) -> bool {
        &&& j is Object
        &&& text_or_ok(j, "label"@)
        &&& text_or_ok(j, "href"@)
    }

    /// Whether each field is what the value gives under its key, or its
    /// default where the value has no such member.
    pub open spec fn reads(self, j: Json) -> bool {
        &&& self.label@ == text_or_at(j, "label"@, ""@)
        &&& self.href@ == text_or_at(j, "href"@, ""@)
    }

    /// Reads the value from JSON. A value that is not admitted is refused.
    pub fn decode(j: &Json) -> (r: Result<Url, ParseError>)
        ensures
            r is Ok <==> Self::admits(*j),
            r matches Ok(t) ==> t.reads(*j),
            r matches Err(e) ==> e is ValidationError,
    {
        if !json::is_object(j) {
            return Err(json::wrong_kind("a link", "an object"));
        }
        let label = match json::read_text_or(j, "label", "") {
            Ok(v) => v,
            Err(e) => return Err(e),
        };
        let href = match json::read_text_or(j, "href", "") {
            Ok(v) => v,
            Err(e) => return Err(e),
        };
        Ok(Url { label, href })
    }
}

impl CustomField {
    /// Whether the value is an object that can be read as a custom field.
    pub open spec fn admits(j: Json) -> bool {
        &&& j is Object
        &&& strict_text_ok(j, "id"@)
        &&& text_or_ok(j, "icon"@)
        &&& text_or_ok(j, "name"@)
        &&& text_or_ok(j, "value"@)
    }

    /// Whether each field is what the value gives under its key, or its
    /// default where the value has no such member.
    pub open spec fn reads(self, j: Json) -> bool {
        &&& self.id@ == strict_text_at(j, "id"@)
        &&& self.icon@ == text_or_at(j, "icon"@, ""@)
        &&& self.name@ == text_or_at(j, "name"@, ""@)
        &&& self.value@ == text_or_at(j, "value"@, ""@)
    }

    /// Reads the value from JSON. A value that is not admitted is refused.
    pub fn decode(j: &Json) -> (r: Result<CustomField, ParseError>)
        ensures
            r is Ok <==> Self::admits(*j),
            r matches Ok(t) ==> t.reads(*j),
            r matches Err(e) ==> e is ValidationError,
    {
        if !json::is_object(j) {
            return Err(json::wrong_kind("a custom field", "an object"));
        }
        let id = match json::read_required_text(j, "id") {
            Ok(v) => v,
            Err(e) => return Err(e),
        };
        let icon = match json::read_text_or(j, "icon", "") {
            Ok(v) => v,
            Err(e) => return Err(e),
        };
        let name = match json::read_text_or(j, "name", "") {
            Ok(v) => v,
            Err(e) => return Err(e),
        };
        let value = match json::read_text_or(j, "value", "") {
            Ok(v) => v,
            Err(e) => return Err(e),
        };
        Ok(CustomField { id, icon, name, value })
    }

    /// Whether each value of the sequence is admitted.
    pub open spec fn admits_all(a: Seq<Json>) -> bool {
        forall|i: int| 0 <= i < a.len() ==> Self::admits(#[trigger] a[i])
    }

    /// Whether the items are what the values give, one for one and in
    /// order.
    pub open spec fn reads_all(v: Seq<CustomField>, a: Seq<Json>) -> bool {
        v.len() == a.len() && forall|i: int| 0 <= i < v.len() ==> (#[trigger] v[i]).reads(a[i])
    }

    /// Whether the value is an array of which each element is admitted.
    pub open spec fn admits_list(j: Json) -> bool {
        match j {
            Json::Array(a) => Self::admits_all(a@),
            _ => false,
        }
    }

    /// Whether the items are what the elements of the array give, in order.
    pub open spec fn reads_list(v: Seq<CustomField>, j: Json) -> bool {
        match j {
            Json::Array(a) => Self::reads_all(v, a@),
            _ => false,
        }
    }

    /// Reads a list of them from a JSON array, item by item. A value that is
    /// not admitted is refused.
    pub fn decode_list(j: &Json) -> (r: Result<Vec<CustomField>, ParseError>)
        ensures
            r is Ok <==> Self::admits_list(*j),
            r matches Ok(v) ==> Self::reads_list(v@, *j),
            r matches Err(e) ==> e is ValidationError,
    {
        match j {
            Json::Array(a) => {
                let mut out: Vec<CustomField> = Vec::new();
                let mut i: usize = 0;
                while i < a.len()
                    invariant
                        i <= a@.len(),
                        out@.len() == i,
                        *j == Json::Array(*a),
                        forall|k: int| 0 <= k < i ==> Self::admits(#[trigger] a@[k]),
                        forall|k: int| 0 <= k < i ==> (#[trigger] out@[k]).reads(a@[k]),
                    decreases a@.len() - i,
                {
                    match Self::decode(&a[i]) {
                        Ok(t) => {
                            out.push(t);
                        },
                        Err(e) => {
                            assert(!Self::admits(a@[i as int]));
                            return Err(e);
                        },
                    }
                    i += 1;
                }
                Ok(out)
            },
            _ => Err(json::wrong_kind("a custom field", "a list")),
        }
    }
}

impl PictureEffects {
    /// Whether the value is an object that can be read as picture effects.
    pub open spec fn admits(j: Json) -> bool {
        &&& j is Object
        &&& bool_or_ok(j, "hidden"@)
        &&& bool_or_ok(j, "border"@)
        &&& bool_or_ok(j, "grayscale"@)
    }

    /// Whether each field is what the value gives under its key, or its
    /// default where the value has no such member.
    pub open spec fn reads(self, j: Json) -> bool {
        &&& self.hidden == bool_or_at(j, "hidden"@, false)
        &&& self.border == bool_or_at(j, "border"@, false)
        &&& self.grayscale == bool_or_at(j, "grayscale"@, false)
    }

    /// Reads the value from JSON. A value that is not admitted is refused.
    pub fn decode(j: &Json) -> (r: Result<PictureEffects, ParseError>)
        ensures
            r is Ok <==> Self::admits(*j),
            r matches Ok(t) ==> t.reads(*j),
            r matches Err(e) ==> e is ValidationError,
    {
        if !json::is_object(j) {
            return Err(json::wrong_kind("picture effects", "an object"));
        }
        let hidden = match json::read_bool_or(j, "hidden", false) {
            Ok(v) => v,
            Err(e) => return Err(e),
        };
        let border = match json::read_bool_or(j, "border", false) {
            Ok(v) => v,
            Err(e) => return Err(e),
        };
        let grayscale = match json::read_bool_or(j, "grayscale", false) {
            Ok(v) => v,
            Err(e) => return Err(e),
        };
        Ok(PictureEffects { hidden, border, grayscale })
    }
}

impl Picture {
    /// Whether the value is an object that can be read as a picture.
    pub open spec fn admits(j: Json) -> bool {
        &&& j is Object
        &&& text_or_ok(j, "url"@)
        &&& count_or_ok(j, "size"@, 4294967295)
        &&& number_or_ok(j, "aspectRatio"@)
        &&& count_or_ok(j, "borderRadius"@, 4294967295)
        &&& (match member(j, "effects"@) {
            None => true,
            Some(x) => PictureEffects::admits(x),
        })
    }

    /// Whether each field is what the value gives under its key, or its
    /// default where the value has no such member.
    pub open spec fn reads(self, j: Json) -> bool {
        &&& self.url@ == text_or_at(j, "url"@, ""@)
        &&& self.size as nat == count_or_at(j, "size"@, 64)
        &&& self.aspect_ratio.text@ == number_or_at(j, "aspectRatio"@, "1.0"@)
        &&& self.border_radius as nat == count_or_at(j, "borderRadius"@, 0)
        &&& (match member(j, "effects"@) {
            None => !self.effects.hidden && !self.effects.border && !self.effects.grayscale,
            Some(x) => self.effects.reads(x),
        })
    }

    /// Reads the value from JSON. A value that is not admitted is refused.
    pub fn decode(j: &Json) -> (r: Result<Picture, ParseError>)
        ensures
            r is Ok <==> Self::admits(*j),
            r matches Ok(t) ==> t.reads(*j),
            r matches Err(e) ==> e is ValidationError,
    {
        if !json::is_object(j) {
            return Err(json::wrong_kind("a picture", "an object"));
        }
        let url = match json::read_text_or(j, "url", "") {
            Ok(v) => v,
            Err(e) => return Err(e),
        };
        let size = match json::read_size_or(j, "size", 64) {
            Ok(v) => v,
            Err(e) => return Err(e),
        };
        let aspect_ratio = match json::read_number_or(j, "aspectRatio", "1.0") {
            Ok(v) => v,
            Err(e) => return Err(e),
        };
        let border_radius = match json::read_size_or(j, "borderRadius", 0) {
            Ok(v) => v,
            Err(e) => return Err(e),
        };
        let effects = match get_member(j, "effects") {
            None => PictureEffects::default(),
            Some(x) => match PictureEffects::decode(x) {
                Ok(v) => v,
                Err(e) => return Err(e),
            },
        };
        Ok(Picture { url, size, aspect_ratio, border_radius, effects })
    }
}

impl Basics {
    /// Whether the value is an object that can be read as the basics.
    pub open spec fn admits(j: Json) -> bool {
        &&& j is Object
        &&& text_or_ok(j, "name"@)
        &&& text_or_ok(j, "headline"@)
        &&& text_or_ok(j, "email"@)
        &&& text_or_ok(j, "phone"@)
        &&& text_or_ok(j, "location"@)
        &&& (match member(j, "url"@) {
            None => true,
            Some(x) => Url::admits(x),
        })
        &&& (match member(j, "customFields"@) {
            None => true,
            Some(x) => CustomField::admits_list(x),
        })
        &&& (match member(j, "picture"@) {
            None => true,
            Some(x) => Picture::admits(x),
        })
    }

    /// Whether each field is what the value gives under its key, or its
    /// default where the value has no such member.
    pub open spec fn reads(self, j: Json) -> bool {
        &&& self.name@ == text_or_at(j, "name"@, ""@)
        &&& self.headline@ == text_or_at(j, "headline"@, ""@)
        &&& self.email@ == text_or_at(j, "email"@, ""@)
        &&& self.phone@ == text_or_at(j, "phone"@, ""@)
        &&& self.location@ == text_or_at(j, "location"@, ""@)
        &&& (match member(j, "url"@) {
            None => self.url.label@.len() == 0 && self.url.href@.len() == 0,
            Some(x) => self.url.reads(x),
        })
        &&& (match member(j, "customFields"@) {
            None => self.custom_fields@.len() == 0,
            Some(x) => CustomField::reads_list(self.custom_fields@, x),
        })
        &&& (match member(j, "picture"@) {
            None => self.picture.url@.len() == 0 && self.picture.plain(),
            Some(x) => self.picture.reads(x),
        })
    }

    /// Reads the value from JSON. A value that is not admitted is refused.
    pub fn decode(j: &Json) -> (r: Result<Basics, ParseError>)
        ensures
            r is Ok <==> Self::admits(*j),
            r matches Ok(t) ==> t.reads(*j),
            r matches Err(e) ==> e is ValidationError,
    {
        if !json::is_object(j) {
            return Err(json::wrong_kind("the basics", "an object"));
        }
        let name = match json::read_text_or(j, "name", "") {
            Ok(v) => v,
            Err(e) => return Err(e),
        };
        let headline = match json::read_text_or(j, "headline", "") {
            Ok(v) => v,
            Err(e) => return Err(e),
        };
        let email = match json::read_text_or(j, "email", "") {
            Ok(v) => v,
            Err(e) => return Err(e),
        };
        let phone = match json::read_text_or(j, "phone", "") {
            Ok(v) => v,
            Err(e) => return Err(e),
        };
        let location = match json::read_text_or(j, "location", "") {
            Ok(v) => v,
            Err(e) => return Err(e),
        };
        let url = match get_member(j, "url") {
            None => Url::default(),
            Some(x) => match Url::decode(x) {
                Ok(v) => v,
                Err(e) => return Err(e),
            },
        };
        let custom_fields = match get_member(j, "customFields") {
            None => Vec::new(),
            Some(x) => match CustomField::decode_list(x) {
                Ok(v) => v,
                Err(e) => return Err(e),
            },
        };
        let picture = match get_member(j, "picture") {
            None => Picture::default(),
            Some(x) => match Picture::decode(x) {
                Ok(v) => v,
                Err(e) => return Err(e),
            },
        };
        Ok(Basics { name, headline, email, phone, location, url, custom_fields, picture })
    }
}

impl Experience {
    /// Whether the value is an object that can be read as a position.
    pub open spec fn admits(j: Json) -> bool {
        &&& j is Object
        &&& strict_text_ok(j, "id"@)
        &&& bool_or_ok(j, "visible"@)
        &&& strict_text_ok(j, "company"@)
        &&& text_or_ok(j, "position"@)
        &&& text_or_ok(j, "location"@)
        &&& text_or_ok(j, "date"@)
        &&& text_or_ok(j, "summary"@)
        &&& (match member(j, "url"@) {
            None => true,
            Some(x) => Url::admits(x),
        })
    }

    /// Whether each field is what the value gives under its key, or its
    /// default where the value has no such member.
    pub open spec fn reads(self, j: Json) -> bool {
        &&& self.id@ == strict_text_at(j, "id"@)
        &&& self.visible == bool_or_at(j, "visible"@, true)
        &&& self.company@ == strict_text_at(j, "company"@)
        &&& self.position@ == text_or_at(j, "position"@, ""@)
        &&& self.location@ == text_or_at(j, "location"@, ""@)
        &&& self.date@ == text_or_at(j, "date"@, ""@)
        &&& self.summary@ == text_or_at(j, "summary"@, ""@)
        &&& (match member(j, "url"@) {
            None => self.url.label@.len() == 0 && self.url.href@.len() == 0,
            Some(x) => self.url.reads(x),
        })
    }

    /// Reads the value from JSON. A value that is not admitted is refused.
    pub fn decode(j: &Json) -> (r: Result<Experience, ParseError>)
        ensures
            r is Ok <==> Self::admits(*j),
            r matches Ok(t) ==> t.reads(*j),
            r matches Err(e) ==> e is ValidationError,
    {
        if !json::is_object(j) {
            return Err(json::wrong_kind("a position", "an object"));
        }
        let id = match json::read_required_text(j, "id") {
            Ok(v) => v,
            Err(e) => return Err(e),
        };
        let visible = match json::read_bool_or(j, "visible", true) {
            Ok(v) => v,
            Err(e) => return Err(e),
        };
        let company = match json::read_required_text(j, "company") {
            Ok(v) => v,
            Err(e) => return Err(e),
        };
        let position = match json::read_text_or(j, "position", "") {
            Ok(v) => v,
            Err(e) => return Err(e),
        };
        let location = match json::read_text_or(j, "location", "") {
            Ok(v) => v,
            Err(e) => return Err(e),
        };
        let date = match json::read_text_or(j, "date", "") {
            Ok(v) => v,
            Err(e) => return Err(e),
        };
        let summary = match json::read_text_or(j, "summary", "") {
            Ok(v) => v,
            Err(e) => return Err(e),
        };
        let url = match get_member(j, "url") {
            None => Url::default(),
            Some(x) => match Url::decode(x) {
                Ok(v) => v,
                Err(e) => return Err(e),
            },
        };
        Ok(Experience { id, visible, company, position, location, date, summary, url })
    }

    /// Whether each value of the sequence is admitted.
    pub open spec fn admits_all(a: Seq<Json>) -> bool {
        forall|i: int| 0 <= i < a.len() ==> Self::admits(#[trigger] a[i])
    }

    /// Whether the items are what the values give, one for one and in
    /// order.
    pub open spec fn reads_all(v: Seq<Experience>, a: Seq<Json>) -> bool {
        v.len() == a.len() && forall|i: int| 0 <= i < v.len() ==> (#[trigger] v[i]).reads(a[i])
    }

    /// Whether the value is an array of which each element is admitted.
    pub open spec fn admits_list(j: Json) -> bool {
        match j {
            Json::Array(a) => Self::admits_all(a@),
            _ => false,
        }
    }

    /// Whether the items are what the elements of the array give, in order.
    pub open spec fn reads_list(v: Seq<Experience>, j: Json) -> bool {
        match j {
            Json::Array(a) => Self::reads_all(v, a@),
            _ => false,
        }
    }

    /// Reads a list of them from a JSON array, item by item. A value that is
    /// not admitted is refused.
    pub fn decode_list(j: &Json) -> (r: Result<Vec<Experience>, ParseError>)
        ensures
            r is Ok <==> Self::admits_list(*j),
            r matches Ok(v) ==> Self::reads_list(v@, *j),
            r matches Err(e) ==> e is ValidationError,
    {
        match j {
            Json::Array(a) => {
                let mut out: Vec<Experience> = Vec::new();
                let mut i: usize = 0;
                while i < a.len()
                    invariant
                        i <= a@.len(),
                        out@.len() == i,
                        *j == Json::Array(*a),
                        forall|k: int| 0 <= k < i ==> Self::admits(#[trigger] a@[k]),
                        forall|k: int| 0 <= k < i ==> (#[trigger] out@[k]).reads(a@[k]),
                    decreases a@.len() - i,
                {
                    match Self::decode(&a[i]) {
                        Ok(t) => {
                            out.push(t);
                        },
                        Err(e) => {
                            assert(!Self::admits(a@[i as int]));
                            return Err(e);
                        },
                    }
                    i += 1;
                }
                Ok(out)
            },
            _ => Err(json::wrong_kind("a position", "a list")),
        }
    }


    /// Whether the value is a section of such items.
    pub open spec fn admits_section(j: Json) -> bool {
        &&& j is Object
        &&& strict_text_ok(j, "id"@)
        &&& text_or_ok(j, "name"@)
        &&& count_or_ok(j, "columns"@, 255)
        &&& bool_or_ok(j, "separateLinks"@)
        &&& bool_or_ok(j, "visible"@)
        &&& (match member(j, "items"@) {
            None => true,
            Some(x) => Self::admits_list(x),
        })
    }

    /// Whether the section is what the value gives: one column, links
    /// apart and shown, where the value does not say.
    pub open spec fn reads_section(s: Section<Experience>, j: Json) -> bool {
        &&& s.id@ == strict_text_at(j, "id"@)
        &&& s.name@ == text_or_at(j, "name"@, ""@)
        &&& s.columns as nat == count_or_at(j, "columns"@, 1)
        &&& s.separate_links == bool_or_at(j, "separateLinks"@, true)
        &&& s.visible == bool_or_at(j, "visible"@, true)
        &&& (match member(j, "items"@) {
            None => s.items@.len() == 0,
            Some(x) => Self::reads_list(s.items@, x),
        })
    }

    /// Reads a section of them from JSON. A value that is not admitted is
    /// refused.
    pub fn decode_section(j: &Json) -> (r: Result<Section<Experience>, ParseError>)
        ensures
            r is Ok <==> Self::admits_section(*j),
            r matches Ok(s) ==> Self::reads_section(s, *j),
            r matches Err(e) ==> e is ValidationError,
    {
        if !json::is_object(j) {
            return Err(json::wrong_kind("a section", "an object"));
        }
        let id = match json::read_required_text(j, "id") {
            Ok(v) => v,
            Err(e) => return Err(e),
        };
        let name = match json::read_text_or(j, "name", "") {
            Ok(v) => v,
            Err(e) => return Err(e),
        };
        let columns = match json::read_small_or(j, "columns", 1) {
            Ok(v) => v,
            Err(e) => return Err(e),
        };
        let separate_links = match json::read_bool_or(j, "separateLinks", true) {
            Ok(v) => v,
            Err(e) => return Err(e),
        };
        let visible = match json::read_bool_or(j, "visible", true) {
            Ok(v) => v,
            Err(e) => return Err(e),
        };
        let items = match get_member(j, "items") {
            None => Vec::new(),
            Some(x) => match Self::decode_list(x) {
                Ok(v) => v,
                Err(e) => return Err(e),
            },
        };
        Ok(Section { id, name, columns, separate_links, visible, items })
    }
}

impl Education {
    /// Whether the value is an object that can be read as a course of study.
    pub open spec fn admits(j: Json) -> bool {
        &&& j is Object
        &&& strict_text_ok(j, "id"@)
        &&& bool_or_ok(j, "visible"@)
        &&& strict_text_ok(j, "institution"@)
        &&& text_or_ok(j, "area"@)
        &&& text_or_ok(j, "studyType"@)
        &&& text_or_ok(j, "date"@)
        &&& text_or_ok(j, "score"@)
        &&& text_or_ok(j, "summary"@)
        &&& (match member(j, "url"@) {
            None => true,
            Some(x) => Url::admits(x),
        })
    }

    /// Whether each field is what the value gives under its key, or its
    /// default where the value has no such member.
    pub open spec fn reads(self, j: Json) -> bool {
        &&& self.id@ == strict_text_at(j, "id"@)
        &&& self.visible == bool_or_at(j, "visible"@, true)
        &&& self.institution@ == strict_text_at(j, "institution"@)
        &&& self.area@ == text_or_at(j, "area"@, ""@)
        &&& self.study_type@ == text_or_at(j, "studyType"@, ""@)
        &&& self.date@ == text_or_at(j, "date"@, ""@)
        &&& self.score@ == text_or_at(j, "score"@, ""@)
        &&& self.summary@ == text_or_at(j, "summary"@, ""@)
        &&& (match member(j, "url"@) {
            None => self.url.label@.len() == 0 && self.url.href@.len() == 0,
            Some(x) => self.url.reads(x),
        })
    }

    /// Reads the value from JSON. A value that is not admitted is refused.
    pub fn decode(j: &Json) -> (r: Result<Education, ParseError>)
        ensures
            r is Ok <==> Self::admits(*j),
            r matches Ok(t) ==> t.reads(*j),
            r matches Err(e) ==> e is ValidationError,
    {
        if !json::is_object(j) {
            return Err(json::wrong_kind("a course of study", "an object"));
        }
        let id = match json::read_required_text(j, "id") {
            Ok(v) => v,
            Err(e) => return Err(e),
        };
        let visible = match json::read_bool_or(j, "visible", true) {
            Ok(v) => v,
            Err(e) => return Err(e),
        };
        let institution = match json::read_required_text(j, "institution") {
            Ok(v) => v,
            Err(e) => return Err(e),
        };
        let area = match json::read_text_or(j, "area", "") {
            Ok(v) => v,
            Err(e) => return Err(e),
        };
        let study_type = match json::read_text_or(j, "studyType", "") {
            Ok(v) => v,
            Err(e) => return Err(e),
        };
        let date = match json::read_text_or(j, "date", "") {
            Ok(v) => v,
            Err(e) => return Err(e),
        };
        let score = match json::read_text_or(j, "score", "") {
            Ok(v) => v,
            Err(e) => return Err(e),
        };
        let summary = match json::read_text_or(j, "summary", "") {
            Ok(v) => v,
            Err(e) => return Err(e),
        };
        let url = match get_member(j, "url") {
            None => Url::default(),
            Some(x) => match Url::decode(x) {
                Ok(v) => v,
                Err(e) => return Err(e),
            },
        };
        Ok(Education { id, visible, institution, area, study_type, date, score, summary, url })
    }

    /// Whether each value of the sequence is admitted.
    pub open spec fn admits_all(a: Seq<Json>) -> bool {
        forall|i: int| 0 <= i < a.len() ==> Self::admits(#[trigger] a[i])
    }

    /// Whether the items are what the values give, one for one and in
    /// order.
    pub open spec fn reads_all(v: Seq<Education>, a: Seq<Json>) -> bool {
        v.len() == a.len() && forall|i: int| 0 <= i < v.len() ==> (#[trigger] v[i]).reads(a[i])
    }

    /// Whether the value is an array of which each element is admitted.
    pub open spec fn admits_list(j: Json) -> bool {
        match j {
            Json::Array(a) => Self::admits_all(a@),
            _ => false,
        }
    }

    /// Whether the items are what the elements of the array give, in order.
    pub open spec fn reads_list(v: Seq<Education>, j: Json) -> bool {
        match j {
            Json::Array(a) => Self::reads_all(v, a@),
            _ => false,
        }
    }

    /// Reads a list of them from a JSON array, item by item. A value that is
    /// not admitted is refused.
    pub fn decode_list(j: &Json) -> (r: Result<Vec<Education>, ParseError>)
        ensures
            r is Ok <==> Self::admits_list(*j),
            r matches Ok(v) ==> Self::reads_list(v@, *j),
            r matches Err(e) ==> e is ValidationError,
    {
        match j {
            Json::Array(a) => {
                let mut out: Vec<Education> = Vec::new();
                let mut i: usize = 0;
                while i < a.len()
                    invariant
                        i <= a@.len(),
                        out@.len() == i,
                        *j == Json::Array(*a),
                        forall|k: int| 0 <= k < i ==> Self::admits(#[trigger] a@[k]),
                        forall|k: int| 0 <= k < i ==> (#[trigger] out@[k]).reads(a@[k]),
                    decreases a@.len() - i,
                {
                    match Self::decode(&a[i]) {
                        Ok(t) => {
                            out.push(t);
                        },
                        Err(e) => {
                            assert(!Self::admits(a@[i as int]));
                            return Err(e);
                        },
                    }
                    i += 1;
                }
                Ok(out)
            },
            _ => Err(json::wrong_kind("a course of study", "a list")),
        }
    }


    /// Whether the value is a section of such items.
    pub open spec fn admits_section(j: Json) -> bool {
        &&& j is Object
        &&& strict_text_ok(j, "id"@)
        &&& text_or_ok(j, "name"@)
        &&& count_or_ok(j, "columns"@, 255)
        &&& bool_or_ok(j, "separateLinks"@)
        &&& bool_or_ok(j, "visible"@)
        &&& (match member(j, "items"@) {
            None => true,
            Some(x) => Self::admits_list(x),
        })
    }

    /// Whether the section is what the value gives: one column, links
    /// apart and shown, where the value does not say.
    pub open spec fn reads_section(s: Section<Education>, j: Json) -> bool {
        &&& s.id@ == strict_text_at(j, "id"@)
        &&& s.name@ == text_or_at(j, "name"@, ""@)
        &&& s.columns as nat == count_or_at(j, "columns"@, 1)
        &&& s.separate_links == bool_or_at(j, "separateLinks"@, true)
        &&& s.visible == bool_or_at(j, "visible"@, true)
        &&& (match member(j, "items"@) {
            None => s.items@.len() == 0,
            Some(x) => Self::reads_list(s.items@, x),
        })
    }

    /// Reads a section of them from JSON. A value that is not admitted is
    /// refused.
    pub fn decode_section(j: &Json) -> (r: Result<Section<Education>, ParseError>)
        ensures
            r is Ok <==> Self::admits_section(*j),
            r matches Ok(s) ==> Self::reads_section(s, *j),
            r matches Err(e) ==> e is ValidationError,
    {
        if !json::is_object(j) {
            return Err(json::wrong_kind("a section", "an object"));
        }
        let id = match json::read_required_text(j, "id") {
            Ok(v) => v,
            Err(e) => return Err(e),
        };
        let name = match json::read_text_or(j, "name", "") {
            Ok(v) => v,
            Err(e) => return Err(e),
        };
        let columns = match json::read_small_or(j, "columns", 1) {
            Ok(v) => v,
            Err(e) => return Err(e),
        };
        let separate_links = match json::read_bool_or(j, "separateLinks", true) {
            Ok(v) => v,
            Err(e) => return Err(e),
        };
        let visible = match json::read_bool_or(j, "visible", true) {
            Ok(v) => v,
            Err(e) => return Err(e),
        };
        let items = match get_member(j, "items") {
            None => Vec::new(),
            Some(x) => match Self::decode_list(x) {
                Ok(v) => v,
                Err(e) => return Err(e),
            },
        };
        Ok(Section { id, name, columns, separate_links, visible, items })
    }
}

impl Skill {
    /// Whether the value is an object that can be read as a skill.
    pub open spec fn admits(j: Json) -> bool {
        &&& j is Object
        &&& strict_text_ok(j, "id"@)
        &&& bool_or_ok(j, "visible"@)
        &&& text_or_ok(j, "name"@)
        &&& text_or_ok(j, "description"@)
        &&& count_or_ok(j, "level"@, 255)
        &&& texts_or_none_ok(j, "keywords"@)
    }

    /// Whether each field is what the value gives under its key, or its
    /// default where the value has no such member.
    pub open spec fn reads(self, j: Json) -> bool {
        &&& self.id@ == strict_text_at(j, "id"@)
        &&& self.visible == bool_or_at(j, "visible"@, true)
        &&& self.name@ == text_or_at(j, "name"@, ""@)
        &&& self.description@ == text_or_at(j, "description"@, ""@)
        &&& self.level as nat == count_or_at(j, "level"@, 1)
        &&& texts(self.keywords@) == texts_or_none_at(j, "keywords"@)
    }

    /// Reads the value from JSON. A value that is not admitted is refused.
    pub fn decode(j: &Json) -> (r: Result<Skill, ParseError>)
        ensures
            r is Ok <==> Self::admits(*j),
            r matches Ok(t) ==> t.reads(*j),
            r matches Err(e) ==> e is ValidationError,
    {
        if !json::is_object(j) {
            return Err(json::wrong_kind("a skill", "an object"));
        }
        let id = match json::read_required_text(j, "id") {
            Ok(v) => v,
            Err(e) => return Err(e),
        };
        let visible = match json::read_bool_or(j, "visible", true) {
            Ok(v) => v,
            Err(e) => return Err(e),
        };
        let name = match json::read_text_or(j, "name", "") {
            Ok(v) => v,
            Err(e) => return Err(e),
        };
        let description = match json::read_text_or(j, "description", "") {
            Ok(v) => v,
            Err(e) => return Err(e),
        };
        let level = match json::read_small_or(j, "level", 1) {
            Ok(v) => v,
            Err(e) => return Err(e),
        };
        let keywords = match json::read_texts_or_none(j, "keywords") {
            Ok(v) => v,
            Err(e) => return Err(e),
        };
        Ok(Skill { id, visible, name, description, level, keywords })
    }

    /// Whether each value of the sequence is admitted.
    pub open spec fn admits_all(a: Seq<Json>) -> bool {
        forall|i: int| 0 <= i < a.len() ==> Self::admits(#[trigger] a[i])
    }

    /// Whether the items are what the values give, one for one and in
    /// order.
    pub open spec fn reads_all(v: Seq<Skill>, a: Seq<Json>) -> bool {
        v.len() == a.len() && forall|i: int| 0 <= i < v.len() ==> (#[trigger] v[i]).reads(a[i])
    }

    /// Whether the value is an array of which each element is admitted.
    pub open spec fn admits_list(j: Json) -> bool {
        match j {
            Json::Array(a) => Self::admits_all(a@),
            _ => false,
        }
    }

    /// Whether the items are what the elements of the array give, in order.
    pub open spec fn reads_list(v: Seq<Skill>, j: Json) -> bool {
        match j {
            Json::Array(a) => Self::reads_all(v, a@),
            _ => false,
        }
    }

    /// Reads a list of them from a JSON array, item by item. A value that is
    /// not admitted is refused.
    pub fn decode_list(j: &Json) -> (r: Result<Vec<Skill>, ParseError>)
        ensures
            r is Ok <==> Self::admits_list(*j),
            r matches Ok(v) ==> Self::reads_list(v@, *j),
            r matches Err(e) ==> e is ValidationError,
    {
        match j {
            Json::Array(a) => {
                let mut out: Vec<Skill> = Vec::new();
                let mut i: usize = 0;
                while i < a.len()
                    invariant
                        i <= a@.len(),
                        out@.len() == i,
                        *j == Json::Array(*a),
                        forall|k: int| 0 <= k < i ==> Self::admits(#[trigger] a@[k]),
                        forall|k: int| 0 <= k < i ==> (#[trigger] out@[k]).reads(a@[k]),
                    decreases a@.len() - i,
                {
                    match Self::decode(&a[i]) {
                        Ok(t) => {
                            out.push(t);
                        },
                        Err(e) => {
                            assert(!Self::admits(a@[i as int]));
                            return Err(e);
                        },
                    }
                    i += 1;
                }
                Ok(out)
            },
            _ => Err(json::wrong_kind("a skill", "a list")),
        }
    }


    /// Whether the value is a section of such items.
    pub open spec fn admits_section(j: Json) -> bool {
        &&& j is Object
        &&& strict_text_ok(j, "id"@)
        &&& text_or_ok(j, "name"@)
        &&& count_or_ok(j, "columns"@, 255)
        &&& bool_or_ok(j, "separateLinks"@)
        &&& bool_or_ok(j, "visible"@)
        &&& (match member(j, "items"@) {
            None => true,
            Some(x) => Self::admits_list(x),
        })
    }

    /// Whether the section is what the value gives: one column, links
    /// apart and shown, where the value does not say.
    pub open spec fn reads_section(s: Section<Skill>, j: Json) -> bool {
        &&& s.id@ == strict_text_at(j, "id"@)
        &&& s.name@ == text_or_at(j, "name"@, ""@)
        &&& s.columns as nat == count_or_at(j, "columns"@, 1)
        &&& s.separate_links == bool_or_at(j, "separateLinks"@, true)
        &&& s.visible == bool_or_at(j, "visible"@, true)
        &&& (match member(j, "items"@) {
            None => s.items@.len() == 0,
            Some(x) => Self::reads_list(s.items@, x),
        })
    }

    /// Reads a section of them from JSON. A value that is not admitted is
    /// refused.
    pub fn decode_section(j: &Json) -> (r: Result<Section<Skill>, ParseError>)
        ensures
            r is Ok <==> Self::admits_section(*j),
            r matches Ok(s) ==> Self::reads_section(s, *j),
            r matches Err(e) ==> e is ValidationError,
    {
        if !json::is_object(j) {
            return Err(json::wrong_kind("a section", "an object"));
        }
        let id = match json::read_required_text(j, "id") {
            Ok(v) => v,
            Err(e) => return Err(e),
        };
        let name = match json::read_text_or(j, "name", "") {
            Ok(v) => v,
            Err(e) => return Err(e),
        };
        let columns = match json::read_small_or(j, "columns", 1) {
            Ok(v) => v,
            Err(e) => return Err(e),
        };
        let separate_links = match json::read_bool_or(j, "separateLinks", true) {
            Ok(v) => v,
            Err(e) => return Err(e),
        };
        let visible = match json::read_bool_or(j, "visible", true) {
            Ok(v) => v,
            Err(e) => return Err(e),
        };
        let items = match get_member(j, "items") {
            None => Vec::new(),
            Some(x) => match Self::decode_list(x) {
                Ok(v) => v,
                Err(e) => return Err(e),
            },
        };
        Ok(Section { id, name, columns, separate_links, visible, items })
    }
}

impl Project {
    /// Whether the value is an object that can be read as a project.
    pub open spec fn admits(j: Json) -> bool {
        &&& j is Object
        &&& strict_text_ok(j, "id"@)
        &&& bool_or_ok(j, "visible"@)
        &&& strict_text_ok(j, "name"@)
        &&& text_or_ok(j, "description"@)
        &&& text_or_ok(j, "date"@)
        &&& text_or_ok(j, "summary"@)
        &&& texts_or_none_ok(j, "keywords"@)
        &&& (match member(j, "url"@) {
            None => true,
            Some(x) => Url::admits(x),
        })
    }

    /// Whether each field is what the value gives under its key, or its
    /// default where the value has no such member.
    pub open spec fn reads(self, j: Json) -> bool {
        &&& self.id@ == strict_text_at(j, "id"@)
        &&& self.visible == bool_or_at(j, "visible"@, true)
        &&& self.name@ == strict_text_at(j, "name"@)
        &&& self.description@ == text_or_at(j, "description"@, ""@)
        &&& self.date@ == text_or_at(j, "date"@, ""@)
        &&& self.summary@ == text_or_at(j, "summary"@, ""@)
        &&& texts(self.keywords@) == texts_or_none_at(j, "keywords"@)
        &&& (match member(j, "url"@) {
            None => self.url.label@.len() == 0 && self.url.href@.len() == 0,
            Some(x) => self.url.reads(x),
        })
    }

    /// Reads the value from JSON. A value that is not admitted is refused.
    pub fn decode(j: &Json) -> (r: Result<Project, ParseError>)
        ensures
            r is Ok <==> Self::admits(*j),
            r matches Ok(t) ==> t.reads(*j),
            r matches Err(e) ==> e is ValidationError,
    {
        if !json::is_object(j) {
            return Err(json::wrong_kind("a project", "an object"));
        }
        let id = match json::read_required_text(j, "id") {
            Ok(v) => v,
            Err(e) => return Err(e),
        };
        let visible = match json::read_bool_or(j, "visible", true) {
            Ok(v) => v,
            Err(e) => return Err(e),
        };
        let name = match json::read_required_text(j, "name") {
            Ok(v) => v,
            Err(e) => return Err(e),
        };
        let description = match json::read_text_or(j, "description", "") {
            Ok(v) => v,
            Err(e) => return Err(e),
        };
        let date = match json::read_text_or(j, "date", "") {
            Ok(v) => v,
            Err(e) => return Err(e),
        };
        let summary = match json::read_text_or(j, "summary", "") {
            Ok(v) => v,
            Err(e) => return Err(e),
        };
        let keywords = match json::read_texts_or_none(j, "keywords") {
            Ok(v) => v,
            Err(e) => return Err(e),
        };
        let url = match get_member(j, "url") {
            None => Url::default(),
            Some(x) => match Url::decode(x) {
                Ok(v) => v,
                Err(e) => return Err(e),
            },
        };
        Ok(Project { id, visible, name, description, date, summary, keywords, url })
    }

    /// Whether each value of the sequence is admitted.
    pub open spec fn admits_all(a: Seq<Json>) -> bool {
        forall|i: int| 0 <= i < a.len() ==> Self::admits(#[trigger] a[i])
    }

    /// Whether the items are what the values give, one for one and in
    /// order.
    pub open spec fn reads_all(v: Seq<Project>, a: Seq<Json>) -> bool {
        v.len() == a.len() && forall|i: int| 0 <= i < v.len() ==> (#[trigger] v[i]).reads(a[i])
    }

    /// Whether the value is an array of which each element is admitted.
    pub open spec fn admits_list(j: Json) -> bool {
        match j {
            Json::Array(a) => Self::admits_all(a@),
            _ => false,
        }
    }

    /// Whether the items are what the elements of the array give, in order.
    pub open spec fn reads_list(v: Seq<Project>, j: Json) -> bool {
        match j {
            Json::Array(a) => Self::reads_all(v, a@),
            _ => false,
        }
    }

    /// Reads a list of them from a JSON array, item by item. A value that is
    /// not admitted is refused.
    pub fn decode_list(j: &Json) -> (r: Result<Vec<Project>, ParseError>)
        ensures
            r is Ok <==> Self::admits_list(*j),
            r matches Ok(v) ==> Self::reads_list(v@, *j),
            r matches Err(e) ==> e is ValidationError,
    {
        match j {
            Json::Array(a) => {
                let mut out: Vec<Project> = Vec::new();
                let mut i: usize = 0;
                while i < a.len()
                    invariant
                        i <= a@.len(),
                        out@.len() == i,
                        *j == Json::Array(*a),
                        forall|k: int| 0 <= k < i ==> Self::admits(#[trigger] a@[k]),
                        forall|k: int| 0 <= k < i ==> (#[trigger] out@[k]).reads(a@[k]),
                    decreases a@.len() - i,
                {
                    match Self::decode(&a[i]) {
                        Ok(t) => {
                            out.push(t);
                        },
                        Err(e) => {
                            assert(!Self::admits(a@[i as int]));
                            return Err(e);
                        },
                    }
                    i += 1;
                }
                Ok(out)
            },
            _ => Err(json::wrong_kind("a project", "a list")),
        }
    }


    /// Whether the value is a section of such items.
    pub open spec fn admits_section(j: Json) -> bool {
        &&& j is Object
        &&& strict_text_ok(j, "id"@)
        &&& text_or_ok(j, "name"@)
        &&& count_or_ok(j, "columns"@, 255)
        &&& bool_or_ok(j, "separateLinks"@)
        &&& bool_or_ok(j, "visible"@)
        &&& (match member(j, "items"@) {
            None => true,
            Some(x) => Self::admits_list(x),
        })
    }

    /// Whether the section is what the value gives: one column, links
    /// apart and shown, where the value does not say.
    pub open spec fn reads_section(s: Section<Project>, j: Json) -> bool {
        &&& s.id@ == strict_text_at(j, "id"@)
        &&& s.name@ == text_or_at(j, "name"@, ""@)
        &&& s.columns as nat == count_or_at(j, "columns"@, 1)
        &&& s.separate_links == bool_or_at(j, "separateLinks"@, true)
        &&& s.visible == bool_or_at(j, "visible"@, true)
        &&& (match member(j, "items"@) {
            None => s.items@.len() == 0,
            Some(x) => Self::reads_list(s.items@, x),
        })
    }

    /// Reads a section of them from JSON. A value that is not admitted is
    /// refused.
    pub fn decode_section(j: &Json) -> (r: Result<Section<Project>, ParseError>)
        ensures
            r is Ok <==> Self::admits_section(*j),
            r matches Ok(s) ==> Self::reads_section(s, *j),
            r matches Err(e) ==> e is ValidationError,
    {
        if !json::is_object(j) {
            return Err(json::wrong_kind("a section", "an object"));
        }
        let id = match json::read_required_text(j, "id") {
            Ok(v) => v,
            Err(e) => return Err(e),
        };
        let name = match json::read_text_or(j, "name", "") {
            Ok(v) => v,
            Err(e) => return Err(e),
        };
        let columns = match json::read_small_or(j, "columns", 1) {
            Ok(v) => v,
            Err(e) => return Err(e),
        };
        let separate_links = match json::read_bool_or(j, "separateLinks", true) {
            Ok(v) => v,
            Err(e) => return Err(e),
        };
        let visible = match json::read_bool_or(j, "visible", true) {
            Ok(v) => v,
            Err(e) => return Err(e),
        };
        let items = match get_member(j, "items") {
            None => Vec::new(),
            Some(x) => match Self::decode_list(x) {
                Ok(v) => v,
                Err(e) => return Err(e),
            },
        };
        Ok(Section { id, name, columns, separate_links, visible, items })
    }
}

impl Profile {
    /// Whether the value is an object that can be read as a profile.
    pub open spec fn admits(j: Json) -> bool {
        &&& j is Object
        &&& strict_text_ok(j, "id"@)
        &&& bool_or_ok(j, "visible"@)
        &&& strict_text_ok(j, "network"@)
        &&& strict_text_ok(j, "username"@)
        &&& text_or_ok(j, "icon"@)
        &&& (match member(j, "url"@) {
            None => true,
            Some(x) => Url::admits(x),
        })
    }

    /// Whether each field is what the value gives under its key, or its
    /// default where the value has no such member.
    pub open spec fn reads(self, j: Json) -> bool {
        &&& self.id@ == strict_text_at(j, "id"@)
        &&& self.visible == bool_or_at(j, "visible"@, true)
        &&& self.network@ == strict_text_at(j, "network"@)
        &&& self.username@ == strict_text_at(j, "username"@)
        &&& self.icon@ == text_or_at(j, "icon"@, ""@)
        &&& (match member(j, "url"@) {
            None => self.url.label@.len() == 0 && self.url.href@.len() == 0,
            Some(x) => self.url.reads(x),
        })
    }

    /// Reads the value from JSON. A value that is not admitted is refused.
    pub fn decode(j: &Json) -> (r: Result<Profile, ParseError>)
        ensures
            r is Ok <==> Self::admits(*j),
            r matches Ok(t) ==> t.reads(*j),
            r matches Err(e) ==> e is ValidationError,
    {
        if !json::is_object(j) {
            return Err(json::wrong_kind("a profile", "an object"));
        }
        let id = match json::read_required_text(j, "id") {
            Ok(v) => v,
            Err(e) => return Err(e),
        };
        let visible = match json::read_bool_or(j, "visible", true) {
            Ok(v) => v,
            Err(e) => return Err(e),
        };
        let network = match json::read_required_text(j, "network") {
            Ok(v) => v,
            Err(e) => return Err(e),
        };
        let username = match json::read_required_text(j, "username") {
            Ok(v) => v,
            Err(e) => return Err(e),
        };
        let icon = match json::read_text_or(j, "icon", "") {
            Ok(v) => v,
            Err(e) => return Err(e),
        };
        let url = match get_member(j, "url") {
            None => Url::default(),
            Some(x) => match Url::decode(x) {
                Ok(v) => v,
                Err(e) => return Err(e),
            },
        };
        Ok(Profile { id, visible, network, username, icon, url })
    }

    /// Whether each value of the sequence is admitted.
    pub open spec fn admits_all(a: Seq<Json>) -> bool {
        forall|i: int| 0 <= i < a.len() ==> Self::admits(#[trigger] a[i])
    }

    /// Whether the items are what the values give, one for one and in
    /// order.
    pub open spec fn reads_all(v: Seq<Profile>, a: Seq<Json>) -> bool {
        v.len() == a.len() && forall|i: int| 0 <= i < v.len() ==> (#[trigger] v[i]).reads(a[i])
    }

    /// Whether the value is an array of which each element is admitted.
    pub open spec fn admits_list(j: Json) -> bool {
        match j {
            Json::Array(a) => Self::admits_all(a@),
            _ => false,
        }
    }

    /// Whether the items are what the elements of the array give, in order.
    pub open spec fn reads_list(v: Seq<Profile>, j: Json) -> bool {
        match j {
            Json::Array(a) => Self::reads_all(v, a@),
            _ => false,
        }
    }

    /// Reads a list of them from a JSON array, item by item. A value that is
    /// not admitted is refused.
    pub fn decode_list(j: &Json) -> (r: Result<Vec<Profile>, ParseError>)
        ensures
            r is Ok <==> Self::admits_list(*j),
            r matches Ok(v) ==> Self::reads_list(v@, *j),
            r matches Err(e) ==> e is ValidationError,
    {
        match j {
            Json::Array(a) => {
                let mut out: Vec<Profile> = Vec::new();
                let mut i: usize = 0;
                while i < a.len()
                    invariant
                        i <= a@.len(),
                        out@.len() == i,
                        *j == Json::Array(*a),
                        forall|k: int| 0 <= k < i ==> Self::admits(#[trigger] a@[k]),
                        forall|k: int| 0 <= k < i ==> (#[trigger] out@[k]).reads(a@[k]),
                    decreases a@.len() - i,
                {
                    match Self::decode(&a[i]) {
                        Ok(t) => {
                            out.push(t);
                        },
                        Err(e) => {
                            assert(!Self::admits(a@[i as int]));
                            return Err(e);
                        },
                    }
                    i += 1;
                }
                Ok(out)
            },
            _ => Err(json::wrong_kind("a profile", "a list")),
        }
    }


    /// Whether the value is a section of such items.
    pub open spec fn admits_section(j: Json) -> bool {
        &&& j is Object
        &&& strict_text_ok(j, "id"@)
        &&& text_or_ok(j, "name"@)
        &&& count_or_ok(j, "columns"@, 255)
        &&& bool_or_ok(j, "separateLinks"@)
        &&& bool_or_ok(j, "visible"@)
        &&& (match member(j, "items"@) {
            None => true,
            Some(x) => Self::admits_list(x),
        })
    }

    /// Whether the section is what the value gives: one column, links
    /// apart and shown, where the value does not say.
    pub open spec fn reads_section(s: Section<Profile>, j: Json) -> bool {
        &&& s.id@ == strict_text_at(j, "id"@)
        &&& s.name@ == text_or_at(j, "name"@, ""@)
        &&& s.columns as nat == count_or_at(j, "columns"@, 1)
        &&& s.separate_links == bool_or_at(j, "separateLinks"@, true)
        &&& s.visible == bool_or_at(j, "visible"@, true)
        &&& (match member(j, "items"@) {
            None => s.items@.len() == 0,
            Some(x) => Self::reads_list(s.items@, x),
        })
    }

    /// Reads a section of them from JSON. A value that is not admitted is
    /// refused.
    pub fn decode_section(j: &Json) -> (r: Result<Section<Profile>, ParseError>)
        ensures
            r is Ok <==> Self::admits_section(*j),
            r matches Ok(s) ==> Self::reads_section(s, *j),
            r matches Err(e) ==> e is ValidationError,
    {
        if !json::is_object(j) {
            return Err(json::wrong_kind("a section", "an object"));
        }
        let id = match json::read_required_text(j, "id") {
            Ok(v) => v,
            Err(e) => return Err(e),
        };
        let name = match json::read_text_or(j, "name", "") {
            Ok(v) => v,
            Err(e) => return Err(e),
        };
        let columns = match json::read_small_or(j, "columns", 1) {
            Ok(v) => v,
            Err(e) => return Err(e),
        };
        let separate_links = match json::read_bool_or(j, "separateLinks", true) {
            Ok(v) => v,
            Err(e) => return Err(e),
        };
        let visible = match json::read_bool_or(j, "visible", true) {
            Ok(v) => v,
            Err(e) => return Err(e),
        };
        let items = match get_member(j, "items") {
            None => Vec::new(),
            Some(x) => match Self::decode_list(x) {
                Ok(v) => v,
                Err(e) => return Err(e),
            },
        };
        Ok(Section { id, name, columns, separate_links, visible, items })
    }
}

impl Award {
    /// Whether the value is an object that can be read as an award.
    pub open spec fn admits(j: Json) -> bool {
        &&& j is Object
        &&& strict_text_ok(j, "id"@)
        &&& bool_or_ok(j, "visible"@)
        &&& strict_text_ok(j, "title"@)
        &&& text_or_ok(j, "awarder"@)
        &&& text_or_ok(j, "date"@)
        &&& text_or_ok(j, "summary"@)
        &&& (match member(j, "url"@) {
            None => true,
            Some(x) => Url::admits(x),
        })
    }

    /// Whether each field is what the value gives under its key, or its
    /// default where the value has no such member.
    pub open spec fn reads(self, j: Json) -> bool {
        &&& self.id@ == strict_text_at(j, "id"@)
        &&& self.visible == bool_or_at(j, "visible"@, true)
        &&& self.title@ == strict_text_at(j, "title"@)
        &&& self.awarder@ == text_or_at(j, "awarder"@, ""@)
        &&& self.date@ == text_or_at(j, "date"@, ""@)
        &&& self.summary@ == text_or_at(j, "summary"@, ""@)
        &&& (match member(j, "url"@) {
            None => self.url.label@.len() == 0 && self.url.href@.len() == 0,
            Some(x) => self.url.reads(x),
        })
    }

    /// Reads the value from JSON. A value that is not admitted is refused.
    pub fn decode(j: &Json) -> (r: Result<Award, ParseError>)
        ensures
            r is Ok <==> Self::admits(*j),
            r matches Ok(t) ==> t.reads(*j),
            r matches Err(e) ==> e is ValidationError,
    {
        if !json::is_object(j) {
            return Err(json::wrong_kind("an award", "an object"));
        }
        let id = match json::read_required_text(j, "id") {
            Ok(v) => v,
            Err(e) => return Err(e),
        };
        let visible = match json::read_bool_or(j, "visible", true) {
            Ok(v) => v,
            Err(e) => return Err(e),
        };
        let title = match json::read_required_text(j, "title") {
            Ok(v) => v,
            Err(e) => return Err(e),
        };
        let awarder = match json::read_text_or(j, "awarder", "") {
            Ok(v) => v,
            Err(e) => return Err(e),
        };
        let date = match json::read_text_or(j, "date", "") {
            Ok(v) => v,
            Err(e) => return Err(e),
        };
        let summary = match json::read_text_or(j, "summary", "") {
            Ok(v) => v,
            Err(e) => return Err(e),
        };
        let url = match get_member(j, "url") {
            None => Url::default(),
            Some(x) => match Url::decode(x) {
                Ok(v) => v,
                Err(e) => return Err(e),
            },
        };
        Ok(Award { id, visible, title, awarder, date, summary, url })
    }

    /// Whether each value of the sequence is admitted.
    pub open spec fn admits_all(a: Seq<Json>) -> bool {
        forall|i: int| 0 <= i < a.len() ==> Self::admits(#[trigger] a[i])
    }

    /// Whether the items are what the values give, one for one and in
    /// order.
    pub open spec fn reads_all(v: Seq<Award>, a: Seq<Json>) -> bool {
        v.len() == a.len() && forall|i: int| 0 <= i < v.len() ==> (#[trigger] v[i]).reads(a[i])
    }

    /// Whether the value is an array of which each element is admitted.
    pub open spec fn admits_list(j: Json) -> bool {
        match j {
            Json::Array(a) => Self::admits_all(a@),
            _ => false,
        }
    }

    /// Whether the items are what the elements of the array give, in order.
    pub open spec fn reads_list(v: Seq<Award>, j: Json) -> bool {
        match j {
            Json::Array(a) => Self::reads_all(v, a@),
            _ => false,
        }
    }

    /// Reads a list of them from a JSON array, item by item. A value that is
    /// not admitted is refused.
    pub fn decode_list(j: &Json) -> (r: Result<Vec<Award>, ParseError>)
        ensures
            r is Ok <==> Self::admits_list(*j),
            r matches Ok(v) ==> Self::reads_list(v@, *j),
            r matches Err(e) ==> e is ValidationError,
    {
        match j {
            Json::Array(a) => {
                let mut out: Vec<Award> = Vec::new();
                let mut i: usize = 0;
                while i < a.len()
                    invariant
                        i <= a@.len(),
                        out@.len() == i,
                        *j == Json::Array(*a),
                        forall|k: int| 0 <= k < i ==> Self::admits(#[trigger] a@[k]),
                        forall|k: int| 0 <= k < i ==> (#[trigger] out@[k]).reads(a@[k]),
                    decreases a@.len() - i,
                {
                    match Self::decode(&a[i]) {
                        Ok(t) => {
                            out.push(t);
                        },
                        Err(e) => {
                            assert(!Self::admits(a@[i as int]));
                            return Err(e);
                        },
                    }
                    i += 1;
                }
                Ok(out)
            },
            _ => Err(json::wrong_kind("an award", "a list")),
        }
    }


    /// Whether the value is a section of such items.
    pub open spec fn admits_section(j: Json) -> bool {
        &&& j is Object
        &&& strict_text_ok(j, "id"@)
        &&& text_or_ok(j, "name"@)
        &&& count_or_ok(j, "columns"@, 255)
        &&& bool_or_ok(j, "separateLinks"@)
        &&& bool_or_ok(j, "visible"@)
        &&& (match member(j, "items"@) {
            None => true,
            Some(x) => Self::admits_list(x),
        })
    }

    /// Whether the section is what the value gives: one column, links
    /// apart and shown, where the value does not say.
    pub open spec fn reads_section(s: Section<Award>, j: Json) -> bool {
        &&& s.id@ == strict_text_at(j, "id"@)
        &&& s.name@ == text_or_at(j, "name"@, ""@)
        &&& s.columns as nat == count_or_at(j, "columns"@, 1)
        &&& s.separate_links == bool_or_at(j, "separateLinks"@, true)
        &&& s.visible == bool_or_at(j, "visible"@, true)
        &&& (match member(j, "items"@) {
            None => s.items@.len() == 0,
            Some(x) => Self::reads_list(s.items@, x),
        })
    }

    /// Reads a section of them from JSON. A value that is not admitted is
    /// refused.
    pub fn decode_section(j: &Json) -> (r: Result<Section<Award>, ParseError>)
        ensures
            r is Ok <==> Self::admits_section(*j),
            r matches Ok(s) ==> Self::reads_section(s, *j),
            r matches Err(e) ==> e is ValidationError,
    {
        if !json::is_object(j) {
            return Err(json::wrong_kind("a section", "an object"));
        }
        let id = match json::read_required_text(j, "id") {
            Ok(v) => v,
            Err(e) => return Err(e),
        };
        let name = match json::read_text_or(j, "name", "") {
            Ok(v) => v,
            Err(e) => return Err(e),
        };
        let columns = match json::read_small_or(j, "columns", 1) {
            Ok(v) => v,
            Err(e) => return Err(e),
        };
        let separate_links = match json::read_bool_or(j, "separateLinks", true) {
            Ok(v) => v,
            Err(e) => return Err(e),
        };
        let visible = match json::read_bool_or(j, "visible", true) {
            Ok(v) => v,
            Err(e) => return Err(e),
        };
        let items = match get_member(j, "items") {
            None => Vec::new(),
            Some(x) => match Self::decode_list(x) {
                Ok(v) => v,
                Err(e) => return Err(e),
            },
        };
        Ok(Section { id, name, columns, separate_links, visible, items })
    }
}

impl Certification {
    /// Whether the value is an object that can be read as a certificate.
    pub open spec fn admits(j: Json) -> bool {
        &&& j is Object
        &&& strict_text_ok(j, "id"@)
        &&& bool_or_ok(j, "visible"@)
        &&& strict_text_ok(j, "name"@)
        &&& text_or_ok(j, "issuer"@)
        &&& text_or_ok(j, "date"@)
        &&& text_or_ok(j, "summary"@)
        &&& (match member(j, "url"@) {
            None => true,
            Some(x) => Url::admits(x),
        })
    }

    /// Whether each field is what the value gives under its key, or its
    /// default where the value has no such member.
    pub open spec fn reads(self, j: Json) -> bool {
        &&& self.id@ == strict_text_at(j, "id"@)
        &&& self.visible == bool_or_at(j, "visible"@, true)
        &&& self.name@ == strict_text_at(j, "name"@)
        &&& self.issuer@ == text_or_at(j, "issuer"@, ""@)
        &&& self.date@ == text_or_at(j, "date"@, ""@)
        &&& self.summary@ == text_or_at(j, "summary"@, ""@)
        &&& (match member(j, "url"@) {
            None => self.url.label@.len() == 0 && self.url.href@.len() == 0,
            Some(x) => self.url.reads(x),
        })
    }

    /// Reads the value from JSON. A value that is not admitted is refused.
    pub fn decode(j: &Json) -> (r: Result<Certification, ParseError>)
        ensures
            r is Ok <==> Self::admits(*j),
            r matches Ok(t) ==> t.reads(*j),
            r matches Err(e) ==> e is ValidationError,
    {
        if !json::is_object(j) {
            return Err(json::wrong_kind("a certificate", "an object"));
        }
        let id = match json::read_required_text(j, "id") {
            Ok(v) => v,
            Err(e) => return Err(e),
        };
        let visible = match json::read_bool_or(j, "visible", true) {
            Ok(v) => v,
            Err(e) => return Err(e),
        };
        let name = match json::read_required_text(j, "name") {
            Ok(v) => v,
            Err(e) => return Err(e),
        };
        let issuer = match json::read_text_or(j, "issuer", "") {
            Ok(v) => v,
            Err(e) => return Err(e),
        };
        let date = match json::read_text_or(j, "date", "") {
            Ok(v) => v,
            Err(e) => return Err(e),
        };
        let summary = match json::read_text_or(j, "summary", "") {
            Ok(v) => v,
            Err(e) => return Err(e),
        };
        let url = match get_member(j, "url") {
            None => Url::default(),
            Some(x) => match Url::decode(x) {
                Ok(v) => v,
                Err(e) => return Err(e),
            },
        };
        Ok(Certification { id, visible, name, issuer, date, summary, url })
    }

    /// Whether each value of the sequence is admitted.
    pub open spec fn admits_all(a: Seq<Json>) -> bool {
        forall|i: int| 0 <= i < a.len() ==> Self::admits(#[trigger] a[i])
    }

    /// Whether the items are what the values give, one for one and in
    /// order.
    pub open spec fn reads_all(v: Seq<Certification>, a: Seq<Json>) -> bool {
        v.len() == a.len() && forall|i: int| 0 <= i < v.len() ==> (#[trigger] v[i]).reads(a[i])
    }

    /// Whether the value is an array of which each element is admitted.
    pub open spec fn admits_list(j: Json) -> bool {
        match j {
            Json::Array(a) => Self::admits_all(a@),
            _ => false,
        }
    }

    /// Whether the items are what the elements of the array give, in order.
    pub open spec fn reads_list(v: Seq<Certification>, j: Json) -> bool {
        match j {
            Json::Array(a) => Self::reads_all(v, a@),
            _ => false,
        }
    }

    /// Reads a list of them from a JSON array, item by item. A value that is
    /// not admitted is refused.
    pub fn decode_list(j: &Json) -> (r: Result<Vec<Certification>, ParseError>)
        ensures
            r is Ok <==> Self::admits_list(*j),
            r matches Ok(v) ==> Self::reads_list(v@, *j),
            r matches Err(e) ==> e is ValidationError,
    {
        match j {
            Json::Array(a) => {
                let mut out: Vec<Certification> = Vec::new();
                let mut i: usize = 0;
                while i < a.len()
                    invariant
                        i <= a@.len(),
                        out@.len() == i,
                        *j == Json::Array(*a),
                        forall|k: int| 0 <= k < i ==> Self::admits(#[trigger] a@[k]),
                        forall|k: int| 0 <= k < i ==> (#[trigger] out@[k]).reads(a@[k]),
                    decreases a@.len() - i,
                {
                    match Self::decode(&a[i]) {
                        Ok(t) => {
                            out.push(t);
                        },
                        Err(e) => {
                            assert(!Self::admits(a@[i as int]));
                            return Err(e);
                        },
                    }
                    i += 1;
                }
                Ok(out)
            },
            _ => Err(json::wrong_kind("a certificate", "a list")),
        }
    }


    /// Whether the value is a section of such items.
    pub open spec fn admits_section(j: Json) -> bool {
        &&& j is Object
        &&& strict_text_ok(j, "id"@)
        &&& text_or_ok(j, "name"@)
        &&& count_or_ok(j, "columns"@, 255)
        &&& bool_or_ok(j, "separateLinks"@)
        &&& bool_or_ok(j, "visible"@)
        &&& (match member(j, "items"@) {
            None => true,
            Some(x) => Self::admits_list(x),
        })
    }

    /// Whether the section is what the value gives: one column, links
    /// apart and shown, where the value does not say.
    pub open spec fn reads_section(s: Section<Certification>, j: Json) -> bool {
        &&& s.id@ == strict_text_at(j, "id"@)
        &&& s.name@ == text_or_at(j, "name"@, ""@)
        &&& s.columns as nat == count_or_at(j, "columns"@, 1)
        &&& s.separate_links == bool_or_at(j, "separateLinks"@, true)
        &&& s.visible == bool_or_at(j, "visible"@, true)
        &&& (match member(j, "items"@) {
            None => s.items@.len() == 0,
            Some(x) => Self::reads_list(s.items@, x),
        })
    }

    /// Reads a section of them from JSON. A value that is not admitted is
    /// refused.
    pub fn decode_section(j: &Json) -> (r: Result<Section<Certification>, ParseError>)
        ensures
            r is Ok <==> Self::admits_section(*j),
            r matches Ok(s) ==> Self::reads_section(s, *j),
            r matches Err(e) ==> e is ValidationError,
    {
        if !json::is_object(j) {
            return Err(json::wrong_kind("a section", "an object"));
        }
        let id = match json::read_required_text(j, "id") {
            Ok(v) => v,
            Err(e) => return Err(e),
        };
        let name = match json::read_text_or(j, "name", "") {
            Ok(v) => v,
            Err(e) => return Err(e),
        };
        let columns = match json::read_small_or(j, "columns", 1) {
            Ok(v) => v,
            Err(e) => return Err(e),
        };
        let separate_links = match json::read_bool_or(j, "separateLinks", true) {
            Ok(v) => v,
            Err(e) => return Err(e),
        };
        let visible = match json::read_bool_or(j, "visible", true) {
            Ok(v) => v,
            Err(e) => return Err(e),
        };
        let items = match get_member(j, "items") {
            None => Vec::new(),
            Some(x) => match Self::decode_list(x) {
                Ok(v) => v,
                Err(e) => return Err(e),
            },
        };
        Ok(Section { id, name, columns, separate_links, visible, items })
    }
}

impl Publication {
    /// Whether the value is an object that can be read as a publication.
    pub open spec fn admits(j: Json) -> bool {
        &&& j is Object
        &&& strict_text_ok(j, "id"@)
        &&& bool_or_ok(j, "visible"@)
        &&& strict_text_ok(j, "name"@)
        &&& text_or_ok(j, "publisher"@)
        &&& text_or_ok(j, "date"@)
        &&& text_or_ok(j, "summary"@)
        &&& (match member(j, "url"@) {
            None => true,
            Some(x) => Url::admits(x),
        })
    }

    /// Whether each field is what the value gives under its key, or its
    /// default where the value has no such member.
    pub open spec fn reads(self, j: Json) -> bool {
        &&& self.id@ == strict_text_at(j, "id"@)
        &&& self.visible == bool_or_at(j, "visible"@, true)
        &&& self.name@ == strict_text_at(j, "name"@)
        &&& self.publisher@ == text_or_at(j, "publisher"@, ""@)
        &&& self.date@ == text_or_at(j, "date"@, ""@)
        &&& self.summary@ == text_or_at(j, "summary"@, ""@)
        &&& (match member(j, "url"@) {
            None => self.url.label@.len() == 0 && self.url.href@.len() == 0,
            Some(x) => self.url.reads(x),
        })
    }

    /// Reads the value from JSON. A value that is not admitted is refused.
    pub fn decode(j: &Json) -> (r: Result<Publication, ParseError>)
        ensures
            r is Ok <==> Self::admits(*j),
            r matches Ok(t) ==> t.reads(*j),
            r matches Err(e) ==> e is ValidationError,
    {
        if !json::is_object(j) {
            return Err(json::wrong_kind("a publication", "an object"));
        }
        let id = match json::read_required_text(j, "id") {
            Ok(v) => v,
            Err(e) => return Err(e),
        };
        let visible = match json::read_bool_or(j, "visible", true) {
            Ok(v) => v,
            Err(e) => return Err(e),
        };
        let name = match json::read_required_text(j, "name") {
            Ok(v) => v,
            Err(e) => return Err(e),
        };
        let publisher = match json::read_text_or(j, "publisher", "") {
            Ok(v) => v,
            Err(e) => return Err(e),
        };
        let date = match json::read_text_or(j, "date", "") {
            Ok(v) => v,
            Err(e) => return Err(e),
        };
        let summary = match json::read_text_or(j, "summary", "") {
            Ok(v) => v,
            Err(e) => return Err(e),
        };
        let url = match get_member(j, "url") {
            None => Url::default(),
            Some(x) => match Url::decode(x) {
                Ok(v) => v,
                Err(e) => return Err(e),
            },
        };
        Ok(Publication { id, visible, name, publisher, date, summary, url })
    }

    /// Whether each value of the sequence is admitted.
    pub open spec fn admits_all(a: Seq<Json>) -> bool {
        forall|i: int| 0 <= i < a.len() ==> Self::admits(#[trigger] a[i])
    }

    /// Whether the items are what the values give, one for one and in
    /// order.
    pub open spec fn reads_all(v: Seq<Publication>, a: Seq<Json>) -> bool {
        v.len() == a.len() && forall|i: int| 0 <= i < v.len() ==> (#[trigger] v[i]).reads(a[i])
    }

    /// Whether the value is an array of which each element is admitted.
    pub open spec fn admits_list(j: Json) -> bool {
        match j {
            Json::Array(a) => Self::admits_all(a@),
            _ => false,
        }
    }

    /// Whether the items are what the elements of the array give, in order.
    pub open spec fn reads_list(v: Seq<Publication>, j: Json) -> bool {
        match j {
            Json::Array(a) => Self::reads_all(v, a@),
            _ => false,
        }
    }

    /// Reads a list of them from a JSON array, item by item. A value that is
    /// not admitted is refused.
    pub fn decode_list(j: &Json) -> (r: Result<Vec<Publication>, ParseError>)
        ensures
            r is Ok <==> Self::admits_list(*j),
            r matches Ok(v) ==> Self::reads_list(v@, *j),
            r matches Err(e) ==> e is ValidationError,
    {
        match j {
            Json::Array(a) => {
                let mut out: Vec<Publication> = Vec::new();
                let mut i: usize = 0;
                while i < a.len()
                    invariant
                        i <= a@.len(),
                        out@.len() == i,
                        *j == Json::Array(*a),
                        forall|k: int| 0 <= k < i ==> Self::admits(#[trigger] a@[k]),
                        forall|k: int| 0 <= k < i ==> (#[trigger] out@[k]).reads(a@[k]),
                    decreases a@.len() - i,
                {
                    match Self::decode(&a[i]) {
                        Ok(t) => {
                            out.push(t);
                        },
                        Err(e) => {
                            assert(!Self::admits(a@[i as int]));
                            return Err(e);
                        },
                    }
                    i += 1;
                }
                Ok(out)
            },
            _ => Err(json::wrong_kind("a publication", "a list")),
        }
    }


    /// Whether the value is a section of such items.
    pub open spec fn admits_section(j: Json) -> bool {
        &&& j is Object
        &&& strict_text_ok(j, "id"@)
        &&& text_or_ok(j, "name"@)
        &&& count_or_ok(j, "columns"@, 255)
        &&& bool_or_ok(j, "separateLinks"@)
        &&& bool_or_ok(j, "visible"@)
        &&& (match member(j, "items"@) {
            None => true,
            Some(x) => Self::admits_list(x),
        })
    }

    /// Whether the section is what the value gives: one column, links
    /// apart and shown, where the value does not say.
    pub open spec fn reads_section(s: Section<Publication>, j: Json) -> bool {
        &&& s.id@ == strict_text_at(j, "id"@)
        &&& s.name@ == text_or_at(j, "name"@, ""@)
        &&& s.columns as nat == count_or_at(j, "columns"@, 1)
        &&& s.separate_links == bool_or_at(j, "separateLinks"@, true)
        &&& s.visible == bool_or_at(j, "visible"@, true)
        &&& (match member(j, "items"@) {
            None => s.items@.len() == 0,
            Some(x) => Self::reads_list(s.items@, x),
        })
    }

    /// Reads a section of them from JSON. A value that is not admitted is
    /// refused.
    pub fn decode_section(j: &Json) -> (r: Result<Section<Publication>, ParseError>)
        ensures
            r is Ok <==> Self::admits_section(*j),
            r matches Ok(s) ==> Self::reads_section(s, *j),
            r matches Err(e) ==> e is ValidationError,
    {
        if !json::is_object(j) {
            return Err(json::wrong_kind("a section", "an object"));
        }
        let id = match json::read_required_text(j, "id") {
            Ok(v) => v,
            Err(e) => return Err(e),
        };
        let name = match json::read_text_or(j, "name", "") {
            Ok(v) => v,
            Err(e) => return Err(e),
        };
        let columns = match json::read_small_or(j, "columns", 1) {
            Ok(v) => v,
            Err(e) => return Err(e),
        };
        let separate_links = match json::read_bool_or(j, "separateLinks", true) {
            Ok(v) => v,
            Err(e) => return Err(e),
        };
        let visible = match json::read_bool_or(j, "visible", true) {
            Ok(v) => v,
            Err(e) => return Err(e),
        };
        let items = match get_member(j, "items") {
            None => Vec::new(),
            Some(x) => match Self::decode_list(x) {
                Ok(v) => v,
                Err(e) => return Err(e),
            },
        };
        Ok(Section { id, name, columns, separate_links, visible, items })
    }
}

impl Language {
    /// Whether the value is an object that can be read as a language.
    pub open spec fn admits(j: Json) -> bool {
        &&& j is Object
        &&& strict_text_ok(j, "id"@)
        &&& bool_or_ok(j, "visible"@)
        &&& strict_text_ok(j, "name"@)
        &&& text_or_ok(j, "description"@)
        &&& count_or_ok(j, "level"@, 255)
    }

    /// Whether each field is what the value gives under its key, or its
    /// default where the value has no such member.
    pub open spec fn reads(self, j: Json) -> bool {
        &&& self.id@ == strict_text_at(j, "id"@)
        &&& self.visible == bool_or_at(j, "visible"@, true)
        &&& self.name@ == strict_text_at(j, "name"@)
        &&& self.description@ == text_or_at(j, "description"@, ""@)
        &&& self.level as nat == count_or_at(j, "level"@, 1)
    }

    /// Reads the value from JSON. A value that is not admitted is refused.
    pub fn decode(j: &Json) -> (r: Result<Language, ParseError>)
        ensures
            r is Ok <==> Self::admits(*j),
            r matches Ok(t) ==> t.reads(*j),
            r matches Err(e) ==> e is ValidationError,
    {
        if !json::is_object(j) {
            return Err(json::wrong_kind("a language", "an object"));
        }
        let id = match json::read_required_text(j, "id") {
            Ok(v) => v,
            Err(e) => return Err(e),
        };
        let visible = match json::read_bool_or(j, "visible", true) {
            Ok(v) => v,
            Err(e) => return Err(e),
        };
        let name = match json::read_required_text(j, "name") {
            Ok(v) => v,
            Err(e) => return Err(e),
        };
        let description = match json::read_text_or(j, "description", "") {
            Ok(v) => v,
            Err(e) => return Err(e),
        };
        let level = match json::read_small_or(j, "level", 1) {
            Ok(v) => v,
            Err(e) => return Err(e),
        };
        Ok(Language { id, visible, name, description, level })
    }

    /// Whether each value of the sequence is admitted.
    pub open spec fn admits_all(a: Seq<Json>) -> bool {
        forall|i: int| 0 <= i < a.len() ==> Self::admits(#[trigger] a[i])
    }

    /// Whether the items are what the values give, one for one and in
    /// order.
    pub open spec fn reads_all(v: Seq<Language>, a: Seq<Json>) -> bool {
        v.len() == a.len() && forall|i: int| 0 <= i < v.len() ==> (#[trigger] v[i]).reads(a[i])
    }

    /// Whether the value is an array of which each element is admitted.
    pub open spec fn admits_list(j: Json) -> bool {
        match j {
            Json::Array(a) => Self::admits_all(a@),
            _ => false,
        }
    }

    /// Whether the items are what the elements of the array give, in order.
    pub open spec fn reads_list(v: Seq<Language>, j: Json) -> bool {
        match j {
            Json::Array(a) => Self::reads_all(v, a@),
            _ => false,
        }
    }

    /// Reads a list of them from a JSON array, item by item. A value that is
    /// not admitted is refused.
    pub fn decode_list(j: &Json) -> (r: Result<Vec<Language>, ParseError>)
        ensures
            r is Ok <==> Self::admits_list(*j),
            r matches Ok(v) ==> Self::reads_list(v@, *j),
            r matches Err(e) ==> e is ValidationError,
    {
        match j {
            Json::Array(a) => {
                let mut out: Vec<Language> = Vec::new();
                let mut i: usize = 0;
                while i < a.len()
                    invariant
                        i <= a@.len(),
                        out@.len() == i,
                        *j == Json::Array(*a),
                        forall|k: int| 0 <= k < i ==> Self::admits(#[trigger] a@[k]),
                        forall|k: int| 0 <= k < i ==> (#[trigger] out@[k]).reads(a@[k]),
                    decreases a@.len() - i,
                {
                    match Self::decode(&a[i]) {
                        Ok(t) => {
                            out.push(t);
                        },
                        Err(e) => {
                            assert(!Self::admits(a@[i as int]));
                            return Err(e);
                        },
                    }
                    i += 1;
                }
                Ok(out)
            },
            _ => Err(json::wrong_kind("a language", "a list")),
        }
    }


    /// Whether the value is a section of such items.
    pub open spec fn admits_section(j: Json) -> bool {
        &&& j is Object
        &&& strict_text_ok(j, "id"@)
        &&& text_or_ok(j, "name"@)
        &&& count_or_ok(j, "columns"@, 255)
        &&& bool_or_ok(j, "separateLinks"@)
        &&& bool_or_ok(j, "visible"@)
        &&& (match member(j, "items"@) {
            None => true,
            Some(x) => Self::admits_list(x),
        })
    }

    /// Whether the section is what the value gives: one column, links
    /// apart and shown, where the value does not say.
    pub open spec fn reads_section(s: Section<Language>, j: Json) -> bool {
        &&& s.id@ == strict_text_at(j, "id"@)
        &&& s.name@ == text_or_at(j, "name"@, ""@)
        &&& s.columns as nat == count_or_at(j, "columns"@, 1)
        &&& s.separate_links == bool_or_at(j, "separateLinks"@, true)
        &&& s.visible == bool_or_at(j, "visible"@, true)
        &&& (match member(j, "items"@) {
            None => s.items@.len() == 0,
            Some(x) => Self::reads_list(s.items@, x),
        })
    }

    /// Reads a section of them from JSON. A value that is not admitted is
    /// refused.
    pub fn decode_section(j: &Json) -> (r: Result<Section<Language>, ParseError>)
        ensures
            r is Ok <==> Self::admits_section(*j),
            r matches Ok(s) ==> Self::reads_section(s, *j),
            r matches Err(e) ==> e is ValidationError,
    {
        if !json::is_object(j) {
            return Err(json::wrong_kind("a section", "an object"));
        }
        let id = match json::read_required_text(j, "id") {
            Ok(v) => v,
            Err(e) => return Err(e),
        };
        let name = match json::read_text_or(j, "name", "") {
            Ok(v) => v,
            Err(e) => return Err(e),
        };
        let columns = match json::read_small_or(j, "columns", 1) {
            Ok(v) => v,
            Err(e) => return Err(e),
        };
        let separate_links = match json::read_bool_or(j, "separateLinks", true) {
            Ok(v) => v,
            Err(e) => return Err(e),
        };
        let visible = match json::read_bool_or(j, "visible", true) {
            Ok(v) => v,
            Err(e) => return Err(e),
        };
        let items = match get_member(j, "items") {
            None => Vec::new(),
            Some(x) => match Self::decode_list(x) {
                Ok(v) => v,
                Err(e) => return Err(e),
            },
        };
        Ok(Section { id, name, columns, separate_links, visible, items })
    }
}

impl Interest {
    /// Whether the value is an object that can be read as an interest.
    pub open spec fn admits(j: Json) -> bool {
        &&& j is Object
        &&& strict_text_ok(j, "id"@)
        &&& bool_or_ok(j, "visible"@)
        &&& strict_text_ok(j, "name"@)
        &&& texts_or_none_ok(j, "keywords"@)
    }

    /// Whether each field is what the value gives under its key, or its
    /// default where the value has no such member.
    pub open spec fn reads(self, j: Json) -> bool {
        &&& self.id@ == strict_text_at(j, "id"@)
        &&& self.visible == bool_or_at(j, "visible"@, true)
        &&& self.name@ == strict_text_at(j, "name"@)
        &&& texts(self.keywords@) == texts_or_none_at(j, "keywords"@)
    }

    /// Reads the value from JSON. A value that is not admitted is refused.
    pub fn decode(j: &Json) -> (r: Result<Interest, ParseError>)
        ensures
            r is Ok <==> Self::admits(*j),
            r matches Ok(t) ==> t.reads(*j),
            r matches Err(e) ==> e is ValidationError,
    {
        if !json::is_object(j) {
            return Err(json::wrong_kind("an interest", "an object"));
        }
        let id = match json::read_required_text(j, "id") {
            Ok(v) => v,
            Err(e) => return Err(e),
        };
        let visible = match json::read_bool_or(j, "visible", true) {
            Ok(v) => v,
            Err(e) => return Err(e),
        };
        let name = match json::read_required_text(j, "name") {
            Ok(v) => v,
            Err(e) => return Err(e),
        };
        let keywords = match json::read_texts_or_none(j, "keywords") {
            Ok(v) => v,
            Err(e) => return Err(e),
        };
        Ok(Interest { id, visible, name, keywords })
    }

    /// Whether each value of the sequence is admitted.
    pub open spec fn admits_all(a: Seq<Json>) -> bool {
        forall|i: int| 0 <= i < a.len() ==> Self::admits(#[trigger] a[i])
    }

    /// Whether the items are what the values give, one for one and in
    /// order.
    pub open spec fn reads_all(v: Seq<Interest>, a: Seq<Json>) -> bool {
        v.len() == a.len() && forall|i: int| 0 <= i < v.len() ==> (#[trigger] v[i]).reads(a[i])
    }

    /// Whether the value is an array of which each element is admitted.
    pub open spec fn admits_list(j: Json) -> bool {
        match j {
            Json::Array(a) => Self::admits_all(a@),
            _ => false,
        }
    }

    /// Whether the items are what the elements of the array give, in order.
    pub open spec fn reads_list(v: Seq<Interest>, j: Json) -> bool {
        match j {
            Json::Array(a) => Self::reads_all(v, a@),
            _ => false,
        }
    }

    /// Reads a list of them from a JSON array, item by item. A value that is
    /// not admitted is refused.
    pub fn decode_list(j: &Json) -> (r: Result<Vec<Interest>, ParseError>)
        ensures
            r is Ok <==> Self::admits_list(*j),
            r matches Ok(v) ==> Self::reads_list(v@, *j),
            r matches Err(e) ==> e is ValidationError,
    {
        match j {
            Json::Array(a) => {
                let mut out: Vec<Interest> = Vec::new();
                let mut i: usize = 0;
                while i < a.len()
                    invariant
                        i <= a@.len(),
                        out@.len() == i,
                        *j == Json::Array(*a),
                        forall|k: int| 0 <= k < i ==> Self::admits(#[trigger] a@[k]),
                        forall|k: int| 0 <= k < i ==> (#[trigger] out@[k]).reads(a@[k]),
                    decreases a@.len() - i,
                {
                    match Self::decode(&a[i]) {
                        Ok(t) => {
                            out.push(t);
                        },
                        Err(e) => {
                            assert(!Self::admits(a@[i as int]));
                            return Err(e);
                        },
                    }
                    i += 1;
                }
                Ok(out)
            },
            _ => Err(json::wrong_kind("an interest", "a list")),
        }
    }


    /// Whether the value is a section of such items.
    pub open spec fn admits_section(j: Json) -> bool {
        &&& j is Object
        &&& strict_text_ok(j, "id"@)
        &&& text_or_ok(j, "name"@)
        &&& count_or_ok(j, "columns"@, 255)
        &&& bool_or_ok(j, "separateLinks"@)
        &&& bool_or_ok(j, "visible"@)
        &&& (match member(j, "items"@) {
            None => true,
            Some(x) => Self::admits_list(x),
        })
    }

    /// Whether the section is what the value gives: one column, links
    /// apart and shown, where the value does not say.
    pub open spec fn reads_section(s: Section<Interest>, j: Json) -> bool {
        &&& s.id@ == strict_text_at(j, "id"@)
        &&& s.name@ == text_or_at(j, "name"@, ""@)
        &&& s.columns as nat == count_or_at(j, "columns"@, 1)
        &&& s.separate_links == bool_or_at(j, "separateLinks"@, true)
        &&& s.visible == bool_or_at(j, "visible"@, true)
        &&& (match member(j, "items"@) {
            None => s.items@.len() == 0,
            Some(x) => Self::reads_list(s.items@, x),
        })
    }

    /// Reads a section of them from JSON. A value that is not admitted is
    /// refused.
    pub fn decode_section(j: &Json) -> (r: Result<Section<Interest>, ParseError>)
        ensures
            r is Ok <==> Self::admits_section(*j),
            r matches Ok(s) ==> Self::reads_section(s, *j),
            r matches Err(e) ==> e is ValidationError,
    {
        if !json::is_object(j) {
            return Err(json::wrong_kind("a section", "an object"));
        }
        let id = match json::read_required_text(j, "id") {
            Ok(v) => v,
            Err(e) => return Err(e),
        };
        let name = match json::read_text_or(j, "name", "") {
            Ok(v) => v,
            Err(e) => return Err(e),
        };
        let columns = match json::read_small_or(j, "columns", 1) {
            Ok(v) => v,
            Err(e) => return Err(e),
        };
        let separate_links = match json::read_bool_or(j, "separateLinks", true) {
            Ok(v) => v,
            Err(e) => return Err(e),
        };
        let visible = match json::read_bool_or(j, "visible", true) {
            Ok(v) => v,
            Err(e) => return Err(e),
        };
        let items = match get_member(j, "items") {
            None => Vec::new(),
            Some(x) => match Self::decode_list(x) {
                Ok(v) => v,
                Err(e) => return Err(e),
            },
        };
        Ok(Section { id, name, columns, separate_links, visible, items })
    }
}

impl Volunteer {
    /// Whether the value is an object that can be read as voluntary work.
    pub open spec fn admits(j: Json) -> bool {
        &&& j is Object
        &&& strict_text_ok(j, "id"@)
        &&& bool_or_ok(j, "visible"@)
        &&& strict_text_ok(j, "organization"@)
        &&& text_or_ok(j, "position"@)
        &&& text_or_ok(j, "location"@)
        &&& text_or_ok(j, "date"@)
        &&& text_or_ok(j, "summary"@)
        &&& (match member(j, "url"@) {
            None => true,
            Some(x) => Url::admits(x),
        })
    }

    /// Whether each field is what the value gives under its key, or its
    /// default where the value has no such member.
    pub open spec fn reads(self, j: Json) -> bool {
        &&& self.id@ == strict_text_at(j, "id"@)
        &&& self.visible == bool_or_at(j, "visible"@, true)
        &&& self.organization@ == strict_text_at(j, "organization"@)
        &&& self.position@ == text_or_at(j, "position"@, ""@)
        &&& self.location@ == text_or_at(j, "location"@, ""@)
        &&& self.date@ == text_or_at(j, "date"@, ""@)
        &&& self.summary@ == text_or_at(j, "summary"@, ""@)
        &&& (match member(j, "url"@) {
            None => self.url.label@.len() == 0 && self.url.href@.len() == 0,
            Some(x) => self.url.reads(x),
        })
    }

    /// Reads the value from JSON. A value that is not admitted is refused.
    pub fn decode(j: &Json) -> (r: Result<Volunteer, ParseError>)
        ensures
            r is Ok <==> Self::admits(*j),
            r matches Ok(t) ==> t.reads(*j),
            r matches Err(e) ==> e is ValidationError,
    {
        if !json::is_object(j) {
            return Err(json::wrong_kind("voluntary work", "an object"));
        }
        let id = match json::read_required_text(j, "id") {
            Ok(v) => v,
            Err(e) => return Err(e),
        };
        let visible = match json::read_bool_or(j, "visible", true) {
            Ok(v) => v,
            Err(e) => return Err(e),
        };
        let organization = match json::read_required_text(j, "organization") {
            Ok(v) => v,
            Err(e) => return Err(e),
        };
        let position = match json::read_text_or(j, "position", "") {
            Ok(v) => v,
            Err(e) => return Err(e),
        };
        let location = match json::read_text_or(j, "location", "") {
            Ok(v) => v,
            Err(e) => return Err(e),
        };
        let date = match json::read_text_or(j, "date", "") {
            Ok(v) => v,
            Err(e) => return Err(e),
        };
        let summary = match json::read_text_or(j, "summary", "") {
            Ok(v) => v,
            Err(e) => return Err(e),
        };
        let url = match get_member(j, "url") {
            None => Url::default(),
            Some(x) => match Url::decode(x) {
                Ok(v) => v,
                Err(e) => return Err(e),
            },
        };
        Ok(Volunteer { id, visible, organization, position, location, date, summary, url })
    }

    /// Whether each value of the sequence is admitted.
    pub open spec fn admits_all(a: Seq<Json>) -> bool {
        forall|i: int| 0 <= i < a.len() ==> Self::admits(#[trigger] a[i])
    }

    /// Whether the items are what the values give, one for one and in
    /// order.
    pub open spec fn reads_all(v: Seq<Volunteer>, a: Seq<Json>) -> bool {
        v.len() == a.len() && forall|i: int| 0 <= i < v.len() ==> (#[trigger] v[i]).reads(a[i])
    }

    /// Whether the value is an array of which each element is admitted.
    pub open spec fn admits_list(j: Json) -> bool {
        match j {
            Json::Array(a) => Self::admits_all(a@),
            _ => false,
        }
    }

    /// Whether the items are what the elements of the array give, in order.
    pub open spec fn reads_list(v: Seq<Volunteer>, j: Json) -> bool {
        match j {
            Json::Array(a) => Self::reads_all(v, a@),
            _ => false,
        }
    }

    /// Reads a list of them from a JSON array, item by item. A value that is
    /// not admitted is refused.
    pub fn decode_list(j: &Json) -> (r: Result<Vec<Volunteer>, ParseError>)
        ensures
            r is Ok <==> Self::admits_list(*j),
            r matches Ok(v) ==> Self::reads_list(v@, *j),
            r matches Err(e) ==> e is ValidationError,
    {
        match j {
            Json::Array(a) => {
                let mut out: Vec<Volunteer> = Vec::new();
                let mut i: usize = 0;
                while i < a.len()
                    invariant
                        i <= a@.len(),
                        out@.len() == i,
                        *j == Json::Array(*a),
                        forall|k: int| 0 <= k < i ==> Self::admits(#[trigger] a@[k]),
                        forall|k: int| 0 <= k < i ==> (#[trigger] out@[k]).reads(a@[k]),
                    decreases a@.len() - i,
                {
                    match Self::decode(&a[i]) {
                        Ok(t) => {
                            out.push(t);
                        },
                        Err(e) => {
                            assert(!Self::admits(a@[i as int]));
                            return Err(e);
                        },
                    }
                    i += 1;
                }
                Ok(out)
            },
            _ => Err(json::wrong_kind("voluntary work", "a list")),
        }
    }


    /// Whether the value is a section of such items.
    pub open spec fn admits_section(j: Json) -> bool {
        &&& j is Object
        &&& strict_text_ok(j, "id"@)
        &&& text_or_ok(j, "name"@)
        &&& count_or_ok(j, "columns"@, 255)
        &&& bool_or_ok(j, "separateLinks"@)
        &&& bool_or_ok(j, "visible"@)
        &&& (match member(j, "items"@) {
            None => true,
            Some(x) => Self::admits_list(x),
        })
    }

    /// Whether the section is what the value gives: one column, links
    /// apart and shown, where the value does not say.
    pub open spec fn reads_section(s: Section<Volunteer>, j: Json) -> bool {
        &&& s.id@ == strict_text_at(j, "id"@)
        &&& s.name@ == text_or_at(j, "name"@, ""@)
        &&& s.columns as nat == count_or_at(j, "columns"@, 1)
        &&& s.separate_links == bool_or_at(j, "separateLinks"@, true)
        &&& s.visible == bool_or_at(j, "visible"@, true)
        &&& (match member(j, "items"@) {
            None => s.items@.len() == 0,
            Some(x) => Self::reads_list(s.items@, x),
        })
    }

    /// Reads a section of them from JSON. A value that is not admitted is
    /// refused.
    pub fn decode_section(j: &Json) -> (r: Result<Section<Volunteer>, ParseError>)
        ensures
            r is Ok <==> Self::admits_section(*j),
            r matches Ok(s) ==> Self::reads_section(s, *j),
            r matches Err(e) ==> e is ValidationError,
    {
        if !json::is_object(j) {
            return Err(json::wrong_kind("a section", "an object"));
        }
        let id = match json::read_required_text(j, "id") {
            Ok(v) => v,
            Err(e) => return Err(e),
        };
        let name = match json::read_text_or(j, "name", "") {
            Ok(v) => v,
            Err(e) => return Err(e),
        };
        let columns = match json::read_small_or(j, "columns", 1) {
            Ok(v) => v,
            Err(e) => return Err(e),
        };
        let separate_links = match json::read_bool_or(j, "separateLinks", true) {
            Ok(v) => v,
            Err(e) => return Err(e),
        };
        let visible = match json::read_bool_or(j, "visible", true) {
            Ok(v) => v,
            Err(e) => return Err(e),
        };
        let items = match get_member(j, "items") {
            None => Vec::new(),
            Some(x) => match Self::decode_list(x) {
                Ok(v) => v,
                Err(e) => return Err(e),
            },
        };
        Ok(Section { id, name, columns, separate_links, visible, items })
    }
}

impl Reference {
    /// Whether the value is an object that can be read as a reference.
    pub open spec fn admits(j: Json) -> bool {
        &&& j is Object
        &&& strict_text_ok(j, "id"@)
        &&& bool_or_ok(j, "visible"@)
        &&& strict_text_ok(j, "name"@)
        &&& text_or_ok(j, "description"@)
        &&& text_or_ok(j, "summary"@)
        &&& (match member(j, "url"@) {
            None => true,
            Some(x) => Url::admits(x),
        })
    }

    /// Whether each field is what the value gives under its key, or its
    /// default where the value has no such member.
    pub open spec fn reads(self, j: Json) -> bool {
        &&& self.id@ == strict_text_at(j, "id"@)
        &&& self.visible == bool_or_at(j, "visible"@, true)
        &&& self.name@ == strict_text_at(j, "name"@)
        &&& self.description@ == text_or_at(j, "description"@, ""@)
        &&& self.summary@ == text_or_at(j, "summary"@, ""@)
        &&& (match member(j, "url"@) {
            None => self.url.label@.len() == 0 && self.url.href@.len() == 0,
            Some(x) => self.url.reads(x),
        })
    }

    /// Reads the value from JSON. A value that is not admitted is refused.
    pub fn decode(j: &Json) -> (r: Result<Reference, ParseError>)
        ensures
            r is Ok <==> Self::admits(*j),
            r matches Ok(t) ==> t.reads(*j),
            r matches Err(e) ==> e is ValidationError,
    {
        if !json::is_object(j) {
            return Err(json::wrong_kind("a reference", "an object"));
        }
        let id = match json::read_required_text(j, "id") {
            Ok(v) => v,
            Err(e) => return Err(e),
        };
        let visible = match json::read_bool_or(j, "visible", true) {
            Ok(v) => v,
            Err(e) => return Err(e),
        };
        let name = match json::read_required_text(j, "name") {
            Ok(v) => v,
            Err(e) => return Err(e),
        };
        let description = match json::read_text_or(j, "description", "") {
            Ok(v) => v,
            Err(e) => return Err(e),
        };
        let summary = match json::read_text_or(j, "summary", "") {
            Ok(v) => v,
            Err(e) => return Err(e),
        };
        let url = match get_member(j, "url") {
            None => Url::default(),
            Some(x) => match Url::decode(x) {
                Ok(v) => v,
                Err(e) => return Err(e),
            },
        };
        Ok(Reference { id, visible, name, description, summary, url })
    }

    /// Whether each value of the sequence is admitted.
    pub open spec fn admits_all(a: Seq<Json>) -> bool {
        forall|i: int| 0 <= i < a.len() ==> Self::admits(#[trigger] a[i])
    }

    /// Whether the items are what the values give, one for one and in
    /// order.
    pub open spec fn reads_all(v: Seq<Reference>, a: Seq<Json>) -> bool {
        v.len() == a.len() && forall|i: int| 0 <= i < v.len() ==> (#[trigger] v[i]).reads(a[i])
    }

    /// Whether the value is an array of which each element is admitted.
    pub open spec fn admits_list(j: Json) -> bool {
        match j {
            Json::Array(a) => Self::admits_all(a@),
            _ => false,
        }
    }

    /// Whether the items are what the elements of the array give, in order.
    pub open spec fn reads_list(v: Seq<Reference>, j: Json) -> bool {
        match j {
            Json::Array(a) => Self::reads_all(v, a@),
            _ => false,
        }
    }

    /// Reads a list of them from a JSON array, item by item. A value that is
    /// not admitted is refused.
    pub fn decode_list(j: &Json) -> (r: Result<Vec<Reference>, ParseError>)
        ensures
            r is Ok <==> Self::admits_list(*j),
            r matches Ok(v) ==> Self::reads_list(v@, *j),
            r matches Err(e) ==> e is ValidationError,
    {
        match j {
            Json::Array(a) => {
                let mut out: Vec<Reference> = Vec::new();
                let mut i: usize = 0;
                while i < a.len()
                    invariant
                        i <= a@.len(),
                        out@.len() == i,
                        *j == Json::Array(*a),
                        forall|k: int| 0 <= k < i ==> Self::admits(#[trigger] a@[k]),
                        forall|k: int| 0 <= k < i ==> (#[trigger] out@[k]).reads(a@[k]),
                    decreases a@.len() - i,
                {
                    match Self::decode(&a[i]) {
                        Ok(t) => {
                            out.push(t);
                        },
                        Err(e) => {
                            assert(!Self::admits(a@[i as int]));
                            return Err(e);
                        },
                    }
                    i += 1;
                }
                Ok(out)
            },
            _ => Err(json::wrong_kind("a reference", "a list")),
        }
    }


    /// Whether the value is a section of such items.
    pub open spec fn admits_section(j: Json) -> bool {
        &&& j is Object
        &&& strict_text_ok(j, "id"@)
        &&& text_or_ok(j, "name"@)
        &&& count_or_ok(j, "columns"@, 255)
        &&& bool_or_ok(j, "separateLinks"@)
        &&& bool_or_ok(j, "visible"@)
        &&& (match member(j, "items"@) {
            None => true,
            Some(x) => Self::admits_list(x),
        })
    }

    /// Whether the section is what the value gives: one column, links
    /// apart and shown, where the value does not say.
    pub open spec fn reads_section(s: Section<Reference>, j: Json) -> bool {
        &&& s.id@ == strict_text_at(j, "id"@)
        &&& s.name@ == text_or_at(j, "name"@, ""@)
        &&& s.columns as nat == count_or_at(j, "columns"@, 1)
        &&& s.separate_links == bool_or_at(j, "separateLinks"@, true)
        &&& s.visible == bool_or_at(j, "visible"@, true)
        &&& (match member(j, "items"@) {
            None => s.items@.len() == 0,
            Some(x) => Self::reads_list(s.items@, x),
        })
    }

    /// Reads a section of them from JSON. A value that is not admitted is
    /// refused.
    pub fn decode_section(j: &Json) -> (r: Result<Section<Reference>, ParseError>)
        ensures
            r is Ok <==> Self::admits_section(*j),
            r matches Ok(s) ==> Self::reads_section(s, *j),
            r matches Err(e) ==> e is ValidationError,
    {
        if !json::is_object(j) {
            return Err(json::wrong_kind("a section", "an object"));
        }
        let id = match json::read_required_text(j, "id") {
            Ok(v) => v,
            Err(e) => return Err(e),
        };
        let name = match json::read_text_or(j, "name", "") {
            Ok(v) => v,
            Err(e) => return Err(e),
        };
        let columns = match json::read_small_or(j, "columns", 1) {
            Ok(v) => v,
            Err(e) => return Err(e),
        };
        let separate_links = match json::read_bool_or(j, "separateLinks", true) {
            Ok(v) => v,
            Err(e) => return Err(e),
        };
        let visible = match json::read_bool_or(j, "visible", true) {
            Ok(v) => v,
            Err(e) => return Err(e),
        };
        let items = match get_member(j, "items") {
            None => Vec::new(),
            Some(x) => match Self::decode_list(x) {
                Ok(v) => v,
                Err(e) => return Err(e),
            },
        };
        Ok(Section { id, name, columns, separate_links, visible, items })
    }
}

impl CustomItem {
    /// Whether the value is an object that can be read as a custom item.
    pub open spec fn admits(j: Json) -> bool {
        &&& j is Object
        &&& strict_text_ok(j, "id"@)
        &&& bool_or_ok(j, "visible"@)
        &&& text_or_ok(j, "name"@)
        &&& text_or_ok(j, "description"@)
        &&& text_or_ok(j, "date"@)
        &&& text_or_ok(j, "location"@)
        &&& text_or_ok(j, "summary"@)
        &&& texts_or_none_ok(j, "keywords"@)
        &&& (match member(j, "url"@) {
            None => true,
            Some(x) => Url::admits(x),
        })
    }

    /// Whether each field is what the value gives under its key, or its
    /// default where the value has no such member.
    pub open spec fn reads(self, j: Json) -> bool {
        &&& self.id@ == strict_text_at(j, "id"@)
        &&& self.visible == bool_or_at(j, "visible"@, true)
        &&& self.name@ == text_or_at(j, "name"@, ""@)
        &&& self.description@ == text_or_at(j, "description"@, ""@)
        &&& self.date@ == text_or_at(j, "date"@, ""@)
        &&& self.location@ == text_or_at(j, "location"@, ""@)
        &&& self.summary@ == text_or_at(j, "summary"@, ""@)
        &&& texts(self.keywords@) == texts_or_none_at(j, "keywords"@)
        &&& (match member(j, "url"@) {
            None => self.url.label@.len() == 0 && self.url.href@.len() == 0,
            Some(x) => self.url.reads(x),
        })
    }

    /// Reads the value from JSON. A value that is not admitted is refused.
    pub fn decode(j: &Json) -> (r: Result<CustomItem, ParseError>)
        ensures
            r is Ok <==> Self::admits(*j),
            r matches Ok(t) ==> t.reads(*j),
            r matches Err(e) ==> e is ValidationError,
    {
        if !json::is_object(j) {
            return Err(json::wrong_kind("a custom item", "an object"));
        }
        let id = match json::read_required_text(j, "id") {
            Ok(v) => v,
            Err(e) => return Err(e),
        };
        let visible = match json::read_bool_or(j, "visible", true) {
            Ok(v) => v,
            Err(e) => return Err(e),
        };
        let name = match json::read_text_or(j, "name", "") {
            Ok(v) => v,
            Err(e) => return Err(e),
        };
        let description = match json::read_text_or(j, "description", "") {
            Ok(v) => v,
            Err(e) => return Err(e),
        };
        let date = match json::read_text_or(j, "date", "") {
            Ok(v) => v,
            Err(e) => return Err(e),
        };
        let location = match json::read_text_or(j, "location", "") {
            Ok(v) => v,
            Err(e) => return Err(e),
        };
        let summary = match json::read_text_or(j, "summary", "") {
            Ok(v) => v,
            Err(e) => return Err(e),
        };
        let keywords = match json::read_texts_or_none(j, "keywords") {
            Ok(v) => v,
            Err(e) => return Err(e),
        };
        let url = match get_member(j, "url") {
            None => Url::default(),
            Some(x) => match Url::decode(x) {
                Ok(v) => v,
                Err(e) => return Err(e),
            },
        };
        Ok(CustomItem { id, visible, name, description, date, location, summary, keywords, url })
    }

    /// Whether each value of the sequence is admitted.
    pub open spec fn admits_all(a: Seq<Json>) -> bool {
        forall|i: int| 0 <= i < a.len() ==> Self::admits(#[trigger] a[i])
    }

    /// Whether the items are what the values give, one for one and in
    /// order.
    pub open spec fn reads_all(v: Seq<CustomItem>, a: Seq<Json>) -> bool {
        v.len() == a.len() && forall|i: int| 0 <= i < v.len() ==> (#[trigger] v[i]).reads(a[i])
    }

    /// Whether the value is an array of which each element is admitted.
    pub open spec fn admits_list(j: Json) -> bool {
        match j {
            Json::Array(a) => Self::admits_all(a@),
            _ => false,
        }
    }

    /// Whether the items are what the elements of the array give, in order.
    pub open spec fn reads_list(v: Seq<CustomItem>, j: Json) -> bool {
        match j {
            Json::Array(a) => Self::reads_all(v, a@),
            _ => false,
        }
    }

    /// Reads a list of them from a JSON array, item by item. A value that is
    /// not admitted is refused.
    pub fn decode_list(j: &Json) -> (r: Result<Vec<CustomItem>, ParseError>)
        ensures
            r is Ok <==> Self::admits_list(*j),
            r matches Ok(v) ==> Self::reads_list(v@, *j),
            r matches Err(e) ==> e is ValidationError,
    {
        match j {
            Json::Array(a) => {
                let mut out: Vec<CustomItem> = Vec::new();
                let mut i: usize = 0;
                while i < a.len()
                    invariant
                        i <= a@.len(),
                        out@.len() == i,
                        *j == Json::Array(*a),
                        forall|k: int| 0 <= k < i ==> Self::admits(#[trigger] a@[k]),
                        forall|k: int| 0 <= k < i ==> (#[trigger] out@[k]).reads(a@[k]),
                    decreases a@.len() - i,
                {
                    match Self::decode(&a[i]) {
                        Ok(t) => {
                            out.push(t);
                        },
                        Err(e) => {
                            assert(!Self::admits(a@[i as int]));
                            return Err(e);
                        },
                    }
                    i += 1;
                }
                Ok(out)
            },
            _ => Err(json::wrong_kind("a custom item", "a list")),
        }
    }


    /// Whether the value is a section of such items.
    pub open spec fn admits_section(j: Json) -> bool {
        &&& j is Object
        &&& strict_text_ok(j, "id"@)
        &&& text_or_ok(j, "name"@)
        &&& count_or_ok(j, "columns"@, 255)
        &&& bool_or_ok(j, "separateLinks"@)
        &&& bool_or_ok(j, "visible"@)
        &&& (match member(j, "items"@) {
            None => true,
            Some(x) => Self::admits_list(x),
        })
    }

    /// Whether the section is what the value gives: one column, links
    /// apart and shown, where the value does not say.
    pub open spec fn reads_section(s: Section<CustomItem>, j: Json) -> bool {
        &&& s.id@ == strict_text_at(j, "id"@)
        &&& s.name@ == text_or_at(j, "name"@, ""@)
        &&& s.columns as nat == count_or_at(j, "columns"@, 1)
        &&& s.separate_links == bool_or_at(j, "separateLinks"@, true)
        &&& s.visible == bool_or_at(j, "visible"@, true)
        &&& (match member(j, "items"@) {
            None => s.items@.len() == 0,
            Some(x) => Self::reads_list(s.items@, x),
        })
    }

    /// Reads a section of them from JSON. A value that is not admitted is
    /// refused.
    pub fn decode_section(j: &Json) -> (r: Result<Section<CustomItem>, ParseError>)
        ensures
            r is Ok <==> Self::admits_section(*j),
            r matches Ok(s) ==> Self::reads_section(s, *j),
            r matches Err(e) ==> e is ValidationError,
    {
        if !json::is_object(j) {
            return Err(json::wrong_kind("a section", "an object"));
        }
        let id = match json::read_required_text(j, "id") {
            Ok(v) => v,
            Err(e) => return Err(e),
        };
        let name = match json::read_text_or(j, "name", "") {
            Ok(v) => v,
            Err(e) => return Err(e),
        };
        let columns = match json::read_small_or(j, "columns", 1) {
            Ok(v) => v,
            Err(e) => return Err(e),
        };
        let separate_links = match json::read_bool_or(j, "separateLinks", true) {
            Ok(v) => v,
            Err(e) => return Err(e),
        };
        let visible = match json::read_bool_or(j, "visible", true) {
            Ok(v) => v,
            Err(e) => return Err(e),
        };
        let items = match get_member(j, "items") {
            None => Vec::new(),
            Some(x) => match Self::decode_list(x) {
                Ok(v) => v,
                Err(e) => return Err(e),
            },
        };
        Ok(Section { id, name, columns, separate_links, visible, items })
    }


    /// Whether each member's value is a section.
    pub open spec fn admits_members(m: Seq<(String, Json)>) -> bool {
        forall|i: int| 0 <= i < m.len() ==> Self::admits_section((#[trigger] m[i]).1)
    }

    /// Whether the sections are what the members give, key for key and in
    /// order.
    pub open spec fn reads_members(v: Seq<CustomSection>, m: Seq<(String, Json)>) -> bool {
        v.len() == m.len() && forall|i: int|
            0 <= i < v.len() ==> (#[trigger] v[i]).key@ == m[i].0@ && Self::reads_section(
                v[i].section,
                m[i].1,
            )
    }

    /// Whether the value is an object of which each member is a section.
    pub open spec fn admits_sections(j: Json) -> bool {
        match j {
            Json::Object(m) => Self::admits_members(m@),
            _ => false,
        }
    }

    /// Whether the sections are what the members of the object give.
    pub open spec fn reads_sections(v: Seq<CustomSection>, j: Json) -> bool {
        match j {
            Json::Object(m) => Self::reads_members(v, m@),
            _ => false,
        }
    }

    /// Reads the subject's own sections from a JSON object, member by member,
    /// in the order of the members.
    pub fn decode_sections(j: &Json) -> (r: Result<Vec<CustomSection>, ParseError>)
        ensures
            r is Ok <==> Self::admits_sections(*j),
            r matches Ok(v) ==> Self::reads_sections(v@, *j),
            r matches Err(e) ==> e is ValidationError,
    {
        match j {
            Json::Object(m) => {
                let mut out: Vec<CustomSection> = Vec::new();
                let mut i: usize = 0;
                while i < m.len()
                    invariant
                        i <= m@.len(),
                        out@.len() == i,
                        *j == Json::Object(*m),
                        forall|k: int| 0 <= k < i ==> Self::admits_section((#[trigger] m@[k]).1),
                        forall|k: int|
                            0 <= k < i ==> (#[trigger] out@[k]).key@ == m@[k].0@
                                && Self::reads_section(out@[k].section, m@[k].1),
                    decreases m@.len() - i,
                {
                    match Self::decode_section(&m[i].1) {
                        Ok(s) => {
                            out.push(CustomSection { key: m[i].0.clone(), section: s });
                        },
                        Err(e) => {
                            assert(!Self::admits_section(m@[i as int].1));
                            return Err(e);
                        },
                    }
                    i += 1;
                }
                Ok(out)
            },
            _ => Err(json::wrong_kind("custom sections", "an object")),
        }
    }
}

impl SummarySection {
    /// Whether the value is an object that can be read as the summary.
    pub open spec fn admits(j: Json) -> bool {
        &&& j is Object
        &&& strict_text_ok(j, "id"@)
        &&& text_or_ok(j, "name"@)
        &&& count_or_ok(j, "columns"@, 255)
        &&& bool_or_ok(j, "separateLinks"@)
        &&& bool_or_ok(j, "visible"@)
        &&& text_or_ok(j, "content"@)
    }

    /// Whether each field is what the value gives under its key, or its
    /// default where the value has no such member.
    pub open spec fn reads(self, j: Json) -> bool {
        &&& self.id@ == strict_text_at(j, "id"@)
        &&& self.name@ == text_or_at(j, "name"@, ""@)
        &&& self.columns as nat == count_or_at(j, "columns"@, 1)
        &&& self.separate_links == bool_or_at(j, "separateLinks"@, true)
        &&& self.visible == bool_or_at(j, "visible"@, true)
        &&& self.content@ == text_or_at(j, "content"@, ""@)
    }

    /// Reads the value from JSON. A value that is not admitted is refused.
    pub fn decode(j: &Json) -> (r: Result<SummarySection, ParseError>)
        ensures
            r is Ok <==> Self::admits(*j),
            r matches Ok(t) ==> t.reads(*j),
            r matches Err(e) ==> e is ValidationError,
    {
        if !json::is_object(j) {
            return Err(json::wrong_kind("the summary", "an object"));
        }
        let id = match json::read_required_text(j, "id") {
            Ok(v) => v,
            Err(e) => return Err(e),
        };
        let name = match json::read_text_or(j, "name", "") {
            Ok(v) => v,
            Err(e) => return Err(e),
        };
        let columns = match json::read_small_or(j, "columns", 1) {
            Ok(v) => v,
            Err(e) => return Err(e),
        };
        let separate_links = match json::read_bool_or(j, "separateLinks", true) {
            Ok(v) => v,
            Err(e) => return Err(e),
        };
        let visible = match json::read_bool_or(j, "visible", true) {
            Ok(v) => v,
            Err(e) => return Err(e),
        };
        let content = match json::read_text_or(j, "content", "") {
            Ok(v) => v,
            Err(e) => return Err(e),
        };
        Ok(SummarySection { id, name, columns, separate_links, visible, content })
    }
}

impl Sections {
    /// Whether the value is an object that can be read as the sections.
    pub open spec fn admits(j: Json) -> bool {
        &&& j is Object
        &&& (match member(j, "summary"@) {
            None => true,
            Some(x) => SummarySection::admits(x),
        })
        &&& (match member(j, "experience"@) {
            None => true,
            Some(x) => Experience::admits_section(x),
        })
        &&& (match member(j, "education"@) {
            None => true,
            Some(x) => Education::admits_section(x),
        })
        &&& (match member(j, "skills"@) {
            None => true,
            Some(x) => Skill::admits_section(x),
        })
        &&& (match member(j, "projects"@) {
            None => true,
            Some(x) => Project::admits_section(x),
        })
        &&& (match member(j, "profiles"@) {
            None => true,
            Some(x) => Profile::admits_section(x),
        })
        &&& (match member(j, "awards"@) {
            None => true,
            Some(x) => Award::admits_section(x),
        })
        &&& (match member(j, "certifications"@) {
            None => true,
            Some(x) => Certification::admits_section(x),
        })
        &&& (match member(j, "publications"@) {
            None => true,
            Some(x) => Publication::admits_section(x),
        })
        &&& (match member(j, "languages"@) {
            None => true,
            Some(x) => Language::admits_section(x),
        })
        &&& (match member(j, "interests"@) {
            None => true,
            Some(x) => Interest::admits_section(x),
        })
        &&& (match member(j, "volunteer"@) {
            None => true,
            Some(x) => Volunteer::admits_section(x),
        })
        &&& (match member(j, "references"@) {
            None => true,
            Some(x) => Reference::admits_section(x),
        })
        &&& (match member(j, "custom"@) {
            None => true,
            Some(x) => CustomItem::admits_sections(x),
        })
    }

    /// Whether each field is what the value gives under its key, or its
    /// default where the value has no such member.
    pub open spec fn reads(self, j: Json) -> bool {
        &&& (match member(j, "summary"@) {
            None => self.summary.plain() && self.summary.content@.len() == 0,
            Some(x) => self.summary.reads(x),
        })
        &&& (match member(j, "experience"@) {
            None => self.experience.id@.len() == 0 && self.experience.name@.len() == 0 && self.experience.plain() && self.experience.items@.len() == 0,
            Some(x) => Experience::reads_section(self.experience, x),
        })
        &&& (match member(j, "education"@) {
            None => self.education.id@.len() == 0 && self.education.name@.len() == 0 && self.education.plain() && self.education.items@.len() == 0,
            Some(x) => Education::reads_section(self.education, x),
        })
        &&& (match member(j, "skills"@) {
            None => self.skills.id@.len() == 0 && self.skills.name@.len() == 0 && self.skills.plain() && self.skills.items@.len() == 0,
            Some(x) => Skill::reads_section(self.skills, x),
        })
        &&& (match member(j, "projects"@) {
            None => self.projects.id@.len() == 0 && self.projects.name@.len() == 0 && self.projects.plain() && self.projects.items@.len() == 0,
            Some(x) => Project::reads_section(self.projects, x),
        })
        &&& (match member(j, "profiles"@) {
            None => self.profiles.id@.len() == 0 && self.profiles.name@.len() == 0 && self.profiles.plain() && self.profiles.items@.len() == 0,
            Some(x) => Profile::reads_section(self.profiles, x),
        })
        &&& (match member(j, "awards"@) {
            None => self.awards.id@.len() == 0 && self.awards.name@.len() == 0 && self.awards.plain() && self.awards.items@.len() == 0,
            Some(x) => Award::reads_section(self.awards, x),
        })
        &&& (match member(j, "certifications"@) {
            None => self.certifications.id@.len() == 0 && self.certifications.name@.len() == 0 && self.certifications.plain() && self.certifications.items@.len() == 0,
            Some(x) => Certification::reads_section(self.certifications, x),
        })
        &&& (match member(j, "publications"@) {
            None => self.publications.id@.len() == 0 && self.publications.name@.len() == 0 && self.publications.plain() && self.publications.items@.len() == 0,
            Some(x) => Publication::reads_section(self.publications, x),
        })
        &&& (match member(j, "languages"@) {
            None => self.languages.id@.len() == 0 && self.languages.name@.len() == 0 && self.languages.plain() && self.languages.items@.len() == 0,
            Some(x) => Language::reads_section(self.languages, x),
        })
        &&& (match member(j, "interests"@) {
            None => self.interests.id@.len() == 0 && self.interests.name@.len() == 0 && self.interests.plain() && self.interests.items@.len() == 0,
            Some(x) => Interest::reads_section(self.interests, x),
        })
        &&& (match member(j, "volunteer"@) {
            None => self.volunteer.id@.len() == 0 && self.volunteer.name@.len() == 0 && self.volunteer.plain() && self.volunteer.items@.len() == 0,
            Some(x) => Volunteer::reads_section(self.volunteer, x),
        })
        &&& (match member(j, "references"@) {
            None => self.references.id@.len() == 0 && self.references.name@.len() == 0 && self.references.plain() && self.references.items@.len() == 0,
            Some(x) => Reference::reads_section(self.references, x),
        })
        &&& (match member(j, "custom"@) {
            None => self.custom.entries@.len() == 0,
            Some(x) => CustomItem::reads_sections(self.custom.entries@, x),
        })
    }

    /// Reads the value from JSON. A value that is not admitted is refused.
    #[verifier::rlimit(40)]
    pub fn decode(j: &Json) -> (r: Result<Sections, ParseError>)
        ensures
            r is Ok <==> Self::admits(*j),
            r matches Ok(t) ==> t.reads(*j),
            r matches Err(e) ==> e is ValidationError,
    {
        if !json::is_object(j) {
            return Err(json::wrong_kind("the sections", "an object"));
        }
        let summary = match get_member(j, "summary") {
            None => SummarySection::default(),
            Some(x) => match SummarySection::decode(x) {
                Ok(v) => v,
                Err(e) => return Err(e),
            },
        };
        let experience = match get_member(j, "experience") {
            None => Section::default(),
            Some(x) => match Experience::decode_section(x) {
                Ok(v) => v,
                Err(e) => return Err(e),
            },
        };
        let education = match get_member(j, "education") {
            None => Section::default(),
            Some(x) => match Education::decode_section(x) {
                Ok(v) => v,
                Err(e) => return Err(e),
            },
        };
        let skills = match get_member(j, "skills") {
            None => Section::default(),
            Some(x) => match Skill::decode_section(x) {
                Ok(v) => v,
                Err(e) => return Err(e),
            },
        };
        let projects = match get_member(j, "projects") {
            None => Section::default(),
            Some(x) => match Project::decode_section(x) {
                Ok(v) => v,
                Err(e) => return Err(e),
            },
        };
        let profiles = match get_member(j, "profiles") {
            None => Section::default(),
            Some(x) => match Profile::decode_section(x) {
                Ok(v) => v,
                Err(e) => return Err(e),
            },
        };
        let awards = match get_member(j, "awards") {
            None => Section::default(),
            Some(x) => match Award::decode_section(x) {
                Ok(v) => v,
                Err(e) => return Err(e),
            },
        };
        let certifications = match get_member(j, "certifications") {
            None => Section::default(),
            Some(x) => match Certification::decode_section(x) {
                Ok(v) => v,
                Err(e) => return Err(e),
            },
        };
        let publications = match get_member(j, "publications") {
            None => Section::default(),
            Some(x) => match Publication::decode_section(x) {
                Ok(v) => v,
                Err(e) => return Err(e),
            },
        };
        let languages = match get_member(j, "languages") {
            None => Section::default(),
            Some(x) => match Language::decode_section(x) {
                Ok(v) => v,
                Err(e) => return Err(e),
            },
        };
        let interests = match get_member(j, "interests") {
            None => Section::default(),
            Some(x) => match Interest::decode_section(x) {
                Ok(v) => v,
                Err(e) => return Err(e),
            },
        };
        let volunteer = match get_member(j, "volunteer") {
            None => Section::default(),
            Some(x) => match Volunteer::decode_section(x) {
                Ok(v) => v,
                Err(e) => return Err(e),
            },
        };
        let references = match get_member(j, "references") {
            None => Section::default(),
            Some(x) => match Reference::decode_section(x) {
                Ok(v) => v,
                Err(e) => return Err(e),
            },
        };
        let custom = match get_member(j, "custom") {
            None => CustomSections::new(),
            Some(x) => match CustomItem::decode_sections(x) {
                Ok(v) => CustomSections { entries: v },
                Err(e) => return Err(e),
            },
        };
        Ok(Sections { summary, experience, education, skills, projects, profiles, awards, certifications, publications, languages, interests, volunteer, references, custom })
    }
}

impl CustomCss {
    /// Whether the value is an object that can be read as a style sheet.
    pub open spec fn admits(j: Json) -> bool {
        &&& j is Object
        &&& text_or_ok(j, "value"@)
        &&& bool_or_ok(j, "visible"@)
    }

    /// Whether each field is what the value gives under its key, or its
    /// default where the value has no such member.
    pub open spec fn reads(self, j: Json) -> bool {
        &&& self.value@ == text_or_at(j, "value"@, ""@)
        &&& self.visible == bool_or_at(j, "visible"@, false)
    }

    /// Reads the value from JSON. A value that is not admitted is refused.
    pub fn decode(j: &Json) -> (r: Result<CustomCss, ParseError>)
        ensures
            r is Ok <==> Self::admits(*j),
            r matches Ok(t) ==> t.reads(*j),
            r matches Err(e) ==> e is ValidationError,
    {
        if !json::is_object(j) {
            return Err(json::wrong_kind("a style sheet", "an object"));
        }
        let value = match json::read_text_or(j, "value", "") {
            Ok(v) => v,
            Err(e) => return Err(e),
        };
        let visible = match json::read_bool_or(j, "visible", false) {
            Ok(v) => v,
            Err(e) => return Err(e),
        };
        Ok(CustomCss { value, visible })
    }
}

impl PageOptions {
    /// Whether the value is an object that can be read as page options.
    pub open spec fn admits(j: Json) -> bool {
        &&& j is Object
        &&& bool_or_ok(j, "breakLine"@)
        &&& bool_or_ok(j, "pageNumbers"@)
    }

    /// Whether each field is what the value gives under its key, or its
    /// default where the value has no such member.
    pub open spec fn reads(self, j: Json) -> bool {
        &&& self.break_line == bool_or_at(j, "breakLine"@, true)
        &&& self.page_numbers == bool_or_at(j, "pageNumbers"@, true)
    }

    /// Reads the value from JSON. A value that is not admitted is refused.
    pub fn decode(j: &Json) -> (r: Result<PageOptions, ParseError>)
        ensures
            r is Ok <==> Self::admits(*j),
            r matches Ok(t) ==> t.reads(*j),
            r matches Err(e) ==> e is ValidationError,
    {
        if !json::is_object(j) {
            return Err(json::wrong_kind("page options", "an object"));
        }
        let break_line = match json::read_bool_or(j, "breakLine", true) {
            Ok(v) => v,
            Err(e) => return Err(e),
        };
        let page_numbers = match json::read_bool_or(j, "pageNumbers", true) {
            Ok(v) => v,
            Err(e) => return Err(e),
        };
        Ok(PageOptions { break_line, page_numbers })
    }
}

impl PageConfig {
    /// Whether the value is an object that can be read as a page.
    pub open spec fn admits(j: Json) -> bool {
        &&& j is Object
        &&& count_or_ok(j, "margin"@, 4294967295)
        &&& (match member(j, "format"@) {
            None => true,
            Some(x) => PageFormat::admits(x),
        })
        &&& (match member(j, "options"@) {
            None => true,
            Some(x) => PageOptions::admits(x),
        })
    }

    /// Whether each field is what the value gives under its key, or its
    /// default where the value has no such member.
    pub open spec fn reads(self, j: Json) -> bool {
        &&& self.margin as nat == count_or_at(j, "margin"@, 18)
        &&& (match member(j, "format"@) {
            None => self.format == PageFormat::A4,
            Some(x) => self.format.reads(x),
        })
        &&& (match member(j, "options"@) {
            None => self.options.break_line && self.options.page_numbers,
            Some(x) => self.options.reads(x),
        })
    }

    /// Reads the value from JSON. A value that is not admitted is refused.
    pub fn decode(j: &Json) -> (r: Result<PageConfig, ParseError>)
        ensures
            r is Ok <==> Self::admits(*j),
            r matches Ok(t) ==> t.reads(*j),
            r matches Err(e) ==> e is ValidationError,
    {
        if !json::is_object(j) {
            return Err(json::wrong_kind("a page", "an object"));
        }
        let margin = match json::read_size_or(j, "margin", 18) {
            Ok(v) => v,
            Err(e) => return Err(e),
        };
        let format = match get_member(j, "format") {
            None => PageFormat::default(),
            Some(x) => match PageFormat::decode(x) {
                Ok(v) => v,
                Err(e) => return Err(e),
            },
        };
        let options = match get_member(j, "options") {
            None => PageOptions::default(),
            Some(x) => match PageOptions::decode(x) {
                Ok(v) => v,
                Err(e) => return Err(e),
            },
        };
        Ok(PageConfig { margin, format, options })
    }
}

impl Theme {
    /// Whether the value is an object that can be read as a theme.
    pub open spec fn admits(j: Json) -> bool {
        &&& j is Object
        &&& text_or_ok(j, "background"@)
        &&& text_or_ok(j, "text"@)
        &&& text_or_ok(j, "primary"@)
    }

    /// Whether each field is what the value gives under its key, or its
    /// default where the value has no such member.
    pub open spec fn reads(self, j: Json) -> bool {
        &&& self.background@ == text_or_at(j, "background"@, "#ffffff"@)
        &&& self.text@ == text_or_at(j, "text"@, "#000000"@)
        &&& self.primary@ == text_or_at(j, "primary"@, "#dc2626"@)
    }

    /// Reads the value from JSON. A value that is not admitted is refused.
    pub fn decode(j: &Json) -> (r: Result<Theme, ParseError>)
        ensures
            r is Ok <==> Self::admits(*j),
            r matches Ok(t) ==> t.reads(*j),
            r matches Err(e) ==> e is ValidationError,
    {
        if !json::is_object(j) {
            return Err(json::wrong_kind("a theme", "an object"));
        }
        let background = match json::read_text_or(j, "background", "#ffffff") {
            Ok(v) => v,
            Err(e) => return Err(e),
        };
        let text = match json::read_text_or(j, "text", "#000000") {
            Ok(v) => v,
            Err(e) => return Err(e),
        };
        let primary = match json::read_text_or(j, "primary", "#dc2626") {
            Ok(v) => v,
            Err(e) => return Err(e),
        };
        Ok(Theme { background, text, primary })
    }
}

impl FontConfig {
    /// Whether the value is an object that can be read as a font.
    pub open spec fn admits(j: Json) -> bool {
        &&& j is Object
        &&& text_or_ok(j, "family"@)
        &&& text_or_ok(j, "subset"@)
        &&& texts_or_none_ok(j, "variants"@)
        &&& count_or_ok(j, "size"@, 4294967295)
    }

    /// Whether each field is what the value gives under its key, or its
    /// default where the value has no such member.
    pub open spec fn reads(self, j: Json) -> bool {
        &&& self.family@ == text_or_at(j, "family"@, "IBM Plex Serif"@)
        &&& self.subset@ == text_or_at(j, "subset"@, "latin"@)
        &&& texts(self.variants@) == texts_or_at(j, "variants"@, seq!["regular"@])
        &&& self.size as nat == count_or_at(j, "size"@, 14)
    }

    /// Reads the value from JSON. A value that is not admitted is refused.
    pub fn decode(j: &Json) -> (r: Result<FontConfig, ParseError>)
        ensures
            r is Ok <==> Self::admits(*j),
            r matches Ok(t) ==> t.reads(*j),
            r matches Err(e) ==> e is ValidationError,
    {
        if !json::is_object(j) {
            return Err(json::wrong_kind("a font", "an object"));
        }
        let family = match json::read_text_or(j, "family", "IBM Plex Serif") {
            Ok(v) => v,
            Err(e) => return Err(e),
        };
        let subset = match json::read_text_or(j, "subset", "latin") {
            Ok(v) => v,
            Err(e) => return Err(e),
        };
        let variants = match get_member(j, "variants") {
            None => default_variants(),
            Some(x) => match json::text_list(x, "variants") {
                Ok(v) => v,
                Err(e) => return Err(e),
            },
        };
        let size = match json::read_size_or(j, "size", 14) {
            Ok(v) => v,
            Err(e) => return Err(e),
        };
        Ok(FontConfig { family, subset, variants, size })
    }
}

impl Typography {
    /// Whether the value is an object that can be read as typography.
    pub open spec fn admits(j: Json) -> bool {
        &&& j is Object
        &&& (match member(j, "font"@) {
            None => true,
            Some(x) => FontConfig::admits(x),
        })
        &&& number_or_ok(j, "lineHeight"@)
        &&& bool_or_ok(j, "hideIcons"@)
        &&& bool_or_ok(j, "underlineLinks"@)
    }

    /// Whether each field is what the value gives under its key, or its
    /// default where the value has no such member.
    pub open spec fn reads(self, j: Json) -> bool {
        &&& (match member(j, "font"@) {
            None => self.font.is_default(),
            Some(x) => self.font.reads(x),
        })
        &&& self.line_height.text@ == number_or_at(j, "lineHeight"@, "1.5"@)
        &&& self.hide_icons == bool_or_at(j, "hideIcons"@, false)
        &&& self.underline_links == bool_or_at(j, "underlineLinks"@, true)
    }

    /// Reads the value from JSON. A value that is not admitted is refused.
    pub fn decode(j: &Json) -> (r: Result<Typography, ParseError>)
        ensures
            r is Ok <==> Self::admits(*j),
            r matches Ok(t) ==> t.reads(*j),
            r matches Err(e) ==> e is ValidationError,
    {
        if !json::is_object(j) {
            return Err(json::wrong_kind("typography", "an object"));
        }
        let font = match get_member(j, "font") {
            None => FontConfig::default(),
            Some(x) => match FontConfig::decode(x) {
                Ok(v) => v,
                Err(e) => return Err(e),
            },
        };
        let line_height = match json::read_number_or(j, "lineHeight", "1.5") {
            Ok(v) => v,
            Err(e) => return Err(e),
        };
        let hide_icons = match json::read_bool_or(j, "hideIcons", false) {
            Ok(v) => v,
            Err(e) => return Err(e),
        };
        let underline_links = match json::read_bool_or(j, "underlineLinks", true) {
            Ok(v) => v,
            Err(e) => return Err(e),
        };
        Ok(Typography { font, line_height, hide_icons, underline_links })
    }
}

impl Metadata {
    /// Whether the value is an object that can be read as the metadata.
    pub open spec fn admits(j: Json) -> bool {
        &&& j is Object
        &&& text_or_ok(j, "template"@)
        &&& layout_or_ok(j, "layout"@)
        &&& (match member(j, "css"@) {
            None => true,
            Some(x) => CustomCss::admits(x),
        })
        &&& (match member(j, "page"@) {
            None => true,
            Some(x) => PageConfig::admits(x),
        })
        &&& (match member(j, "theme"@) {
            None => true,
            Some(x) => Theme::admits(x),
        })
        &&& (match member(j, "typography"@) {
            None => true,
            Some(x) => Typography::admits(x),
        })
        &&& text_or_ok(j, "notes"@)
    }

    /// Whether each field is what the value gives under its key, or its
    /// default where the value has no such member.
    pub open spec fn reads(self, j: Json) -> bool {
        &&& self.template@ == text_or_at(j, "template"@, "rhyhorn"@)
        &&& layout_names(self.layout@) == layout_or_at(j, "layout"@, default_layout_names())
        &&& (match member(j, "css"@) {
            None => self.css.value@.len() == 0 && !self.css.visible,
            Some(x) => self.css.reads(x),
        })
        &&& (match member(j, "page"@) {
            None => self.page.margin == 18 && self.page.format == PageFormat::A4 && self.page.options.break_line
                && self.page.options.page_numbers,
            Some(x) => self.page.reads(x),
        })
        &&& (match member(j, "theme"@) {
            None => self.theme.background@ == "#ffffff"@ && self.theme.text@ == "#000000"@ && self.theme.primary@
                == "#dc2626"@,
            Some(x) => self.theme.reads(x),
        })
        &&& (match member(j, "typography"@) {
            None => self.typography.font.is_default() && self.typography.line_height.text@ == "1.5"@ && !self.typography.hide_icons
                && self.typography.underline_links,
            Some(x) => self.typography.reads(x),
        })
        &&& self.notes@ == text_or_at(j, "notes"@, ""@)
    }

    /// Reads the value from JSON. A value that is not admitted is refused.
    pub fn decode(j: &Json) -> (r: Result<Metadata, ParseError>)
        ensures
            r is Ok <==> Self::admits(*j),
            r matches Ok(t) ==> t.reads(*j),
            r matches Err(e) ==> e is ValidationError,
    {
        if !json::is_object(j) {
            return Err(json::wrong_kind("the metadata", "an object"));
        }
        let template = match json::read_text_or(j, "template", "rhyhorn") {
            Ok(v) => v,
            Err(e) => return Err(e),
        };
        let layout = match json::read_layout_or_default(j, "layout") {
            Ok(v) => v,
            Err(e) => return Err(e),
        };
        let css = match get_member(j, "css") {
            None => CustomCss::default(),
            Some(x) => match CustomCss::decode(x) {
                Ok(v) => v,
                Err(e) => return Err(e),
            },
        };
        let page = match get_member(j, "page") {
            None => PageConfig::default(),
            Some(x) => match PageConfig::decode(x) {
                Ok(v) => v,
                Err(e) => return Err(e),
            },
        };
        let theme = match get_member(j, "theme") {
            None => Theme::default(),
            Some(x) => match Theme::decode(x) {
                Ok(v) => v,
                Err(e) => return Err(e),
            },
        };
        let typography = match get_member(j, "typography") {
            None => Typography::default(),
            Some(x) => match Typography::decode(x) {
                Ok(v) => v,
                Err(e) => return Err(e),
            },
        };
        let notes = match json::read_text_or(j, "notes", "") {
            Ok(v) => v,
            Err(e) => return Err(e),
        };
        Ok(Metadata { template, layout, css, page, theme, typography, notes })
    }
}

impl ResumeData {
    /// Whether the value is an object that can be read as a document.
    pub open spec fn admits(j: Json) -> bool {
        &&& j is Object
        &&& (match member(j, "basics"@) {
            None => true,
            Some(x) => Basics::admits(x),
        })
        &&& (match member(j, "sections"@) {
            None => true,
            Some(x) => Sections::admits(x),
        })
        &&& (match member(j, "metadata"@) {
            None => true,
            Some(x) => Metadata::admits(x),
        })
    }

    /// Whether each field is what the value gives under its key, or its
    /// default where the value has no such member.
    pub open spec fn reads(self, j: Json) -> bool {
        &&& (match member(j, "basics"@) {
            None => self.basics.name@.len() == 0 && self.basics.bare(),
            Some(x) => self.basics.reads(x),
        })
        &&& (match member(j, "sections"@) {
            None => self.sections.is_blank() && self.sections.unnamed(),
            Some(x) => self.sections.reads(x),
        })
        &&& (match member(j, "metadata"@) {
            None => self.metadata.is_default(),
            Some(x) => self.metadata.reads(x),
        })
    }

    /// Reads the value from JSON. A value that is not admitted is refused.
    pub fn decode(j: &Json) -> (r: Result<ResumeData, ParseError>)
        ensures
            r is Ok <==> Self::admits(*j),
            r matches Ok(t) ==> t.reads(*j),
            r matches Err(e) ==> e is ValidationError,
    {
        if !json::is_object(j) {
            return Err(json::wrong_kind("a document", "an object"));
        }
        let basics = match get_member(j, "basics") {
            None => Basics::default(),
            Some(x) => match Basics::decode(x) {
                Ok(v) => v,
                Err(e) => return Err(e),
            },
        };
        let sections = match get_member(j, "sections") {
            None => Sections::default(),
            Some(x) => match Sections::decode(x) {
                Ok(v) => v,
                Err(e) => return Err(e),
            },
        };
        let metadata = match get_member(j, "metadata") {
            None => Metadata::default(),
            Some(x) => match Metadata::decode(x) {
                Ok(v) => v,
                Err(e) => return Err(e),
            },
        };
        Ok(ResumeData { basics, sections, metadata })
    }
}

impl ResumeData {
    /// Reads a document from the bytes of its JSON: a read error where the
    /// bytes are not one JSON text, a validation error where the text has
    /// not the structure of a document, else the document.
    pub fn from_json_bytes(bytes: &[u8]) -> (r: Result<ResumeData, ParseError>)
        ensures
            match json_reading(bytes@) {
                None => r matches Err(e) && e is ReadError,
                Some(j) => if ResumeData::admits(j) {
                    r matches Ok(doc) && doc.reads(j)
                } else {
                    r matches Err(e) && e is ValidationError
                },
            },
    {
        match read_json(bytes) {
            Ok(j) => ResumeData::decode(&j),
            Err(e) => Err(e),
        }
    }

    /// Reads a document from its JSON.
    pub fn from_json(text: &str) -> (r: Result<ResumeData, ParseError>)
        ensures
            match json_reading(vstd::string::StringSliceAdditionalSpecFns::spec_bytes(text)) {
                None => r matches Err(e) && e is ReadError,
                Some(j) => if ResumeData::admits(j) {
                    r matches Ok(doc) && doc.reads(j)
                } else {
                    r matches Err(e) && e is ValidationError
                },
            },
    {
        ResumeData::from_json_bytes(text.as_bytes())
    }
}

} // verus!
