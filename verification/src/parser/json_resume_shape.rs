//! The shape of a résumé in the standard JSON format, and how each part
//! is read out of a JSON value. Every member is optional: one that is
//! absent or `null` reads as nothing; one of the wrong kind is refused.

use vstd::prelude::*;
use crate::json;
use crate::json::{get_given, given, opt_texts, text_at, text_ok, texts_at, texts_ok, Json};
use crate::parser::traits::ParseError;
use crate::text::opt_text;

verus! {

/// Where the subject lives.
#[derive(Debug, Clone)]
pub struct JsonResumeLocation {
    pub address: Option<String>,
    pub postal_code: Option<String>,
    pub city: Option<String>,
    pub country_code: Option<String>,
    pub region: Option<String>,
}

impl JsonResumeLocation {
    /// Whether the value is an object whose members are of the kinds that
    /// a location has.
    pub open spec fn admits(j: Json) -> bool {
        &&& j is Object
        &&& text_ok(j, "address"@)
        &&& text_ok(j, "postalCode"@)
        &&& text_ok(j, "city"@)
        &&& text_ok(j, "countryCode"@)
        &&& text_ok(j, "region"@)
    }

    /// Whether each field is what the value gives under its key.
    pub open spec fn reads(self, j: Json) -> bool {
        &&& opt_text(self.address) == text_at(j, "address"@)
        &&& opt_text(self.postal_code) == text_at(j, "postalCode"@)
        &&& opt_text(self.city) == text_at(j, "city"@)
        &&& opt_text(self.country_code) == text_at(j, "countryCode"@)
        &&& opt_text(self.region) == text_at(j, "region"@)
    }

    /// Reads the value from JSON. A value that is not admitted is refused.
    pub fn decode(j: &Json) -> (r: Result<JsonResumeLocation, ParseError>)
        ensures
            r is Ok <==> Self::admits(*j),
            r matches Ok(t) ==> t.reads(*j),
            r matches Err(e) ==> e is ValidationError,
    {
        if !json::is_object(j) {
            return Err(json::wrong_kind("a location", "an object"));
        }
        let address = match json::read_text(j, "address") {
            Ok(v) => v,
            Err(e) => return Err(e),
        };
        let postal_code = match json::read_text(j, "postalCode") {
            Ok(v) => v,
            Err(e) => return Err(e),
        };
        let city = match json::read_text(j, "city") {
            Ok(v) => v,
            Err(e) => return Err(e),
        };
        let country_code = match json::read_text(j, "countryCode") {
            Ok(v) => v,
            Err(e) => return Err(e),
        };
        let region = match json::read_text(j, "region") {
            Ok(v) => v,
            Err(e) => return Err(e),
        };
        Ok(JsonResumeLocation { address, postal_code, city, country_code, region })
    }
}

/// An account on a network.
#[derive(Debug, Clone)]
pub struct JsonResumeProfile {
    pub network: Option<String>,
    pub username: Option<String>,
    pub url: Option<String>,
}

impl JsonResumeProfile {
    /// Whether the value is an object whose members are of the kinds that
    /// a profile has.
    pub open spec fn admits(j: Json) -> bool {
        &&& j is Object
        &&& text_ok(j, "network"@)
        &&& text_ok(j, "username"@)
        &&& text_ok(j, "url"@)
    }

    /// Whether each field is what the value gives under its key.
    pub open spec fn reads(self, j: Json) -> bool {
        &&& opt_text(self.network) == text_at(j, "network"@)
        &&& opt_text(self.username) == text_at(j, "username"@)
        &&& opt_text(self.url) == text_at(j, "url"@)
    }

    /// Reads the value from JSON. A value that is not admitted is refused.
    pub fn decode(j: &Json) -> (r: Result<JsonResumeProfile, ParseError>)
        ensures
            r is Ok <==> Self::admits(*j),
            r matches Ok(t) ==> t.reads(*j),
            r matches Err(e) ==> e is ValidationError,
    {
        if !json::is_object(j) {
            return Err(json::wrong_kind("a profile", "an object"));
        }
        let network = match json::read_text(j, "network") {
            Ok(v) => v,
            Err(e) => return Err(e),
        };
        let username = match json::read_text(j, "username") {
            Ok(v) => v,
            Err(e) => return Err(e),
        };
        let url = match json::read_text(j, "url") {
            Ok(v) => v,
            Err(e) => return Err(e),
        };
        Ok(JsonResumeProfile { network, username, url })
    }

    /// Whether each value of the sequence is admitted.
    pub open spec fn admits_all(a: Seq<Json>) -> bool {
        forall|i: int| 0 <= i < a.len() ==> Self::admits(#[trigger] a[i])
    }

    /// Whether the items are what the values give, one for one and in
    /// order.
    pub open spec fn reads_all(v: Seq<JsonResumeProfile>, a: Seq<Json>) -> bool {
        v.len() == a.len() && forall|i: int| 0 <= i < v.len() ==> (#[trigger] v[i]).reads(a[i])
    }

    /// Whether the value is an array of which each element is admitted.
    pub open spec fn admits_list(j: Json) -> bool {
        match j {
            Json::Array(a) => Self::admits_all(a@),
            _ => false,
        }
    }

    /// Whether the items are what the elements of the array give, in order.
    pub open spec fn reads_list(v: Seq<JsonResumeProfile>, j: Json) -> bool {
        match j {
            Json::Array(a) => Self::reads_all(v, a@),
            _ => false,
        }
    }

    /// Reads a list of them from a JSON array, item by item. A value that is
    /// not admitted is refused.
    pub fn decode_list(j: &Json) -> (r: Result<Vec<JsonResumeProfile>, ParseError>)
        ensures
            r is Ok <==> Self::admits_list(*j),
            r matches Ok(v) ==> Self::reads_list(v@, *j),
            r matches Err(e) ==> e is ValidationError,
    {
        match j {
            Json::Array(a) => {
                let mut out: Vec<JsonResumeProfile> = Vec::new();
                let mut i: usize = 0;
                while i < a.len()
                    invariant
                        i <= a@.len(),
                        out@.len() == i,
                        *j == Json::Array(*a),
                        forall|k: int| 0 <= k < i ==> Self::admits(#[trigger] a@[k]),
                        forall|k: int| 0 <= k < i ==> (#[trigger] out@[k]).reads(a@[k]),
                    decreases a@.len() - i,
                {
                    match Self::decode(&a[i]) {
                        Ok(t) => {
                            out.push(t);
                        },
                        Err(e) => {
                            assert(!Self::admits(a@[i as int]));
                            return Err(e);
                        },
                    }
                    i += 1;
                }
                Ok(out)
            },
            _ => Err(json::wrong_kind("a profile", "a list")),
        }
    }
}

/// The subject.
#[derive(Debug, Clone)]
pub struct JsonResumeBasics {
    pub name: Option<String>,
    pub label: Option<String>,
    pub image: Option<String>,
    pub email: Option<String>,
    pub phone: Option<String>,
    pub url: Option<String>,
    pub summary: Option<String>,
    pub location: Option<JsonResumeLocation>,
    pub profiles: Option<Vec<JsonResumeProfile>>,
}

impl JsonResumeBasics {
    /// Whether the value is an object whose members are of the kinds that
    /// the basics has.
    pub open spec fn admits(j: Json) -> bool {
        &&& j is Object
        &&& text_ok(j, "name"@)
        &&& text_ok(j, "label"@)
        &&& text_ok(j, "image"@)
        &&& text_ok(j, "email"@)
        &&& text_ok(j, "phone"@)
        &&& text_ok(j, "url"@)
        &&& text_ok(j, "summary"@)
        &&& (match given(j, "location"@) {
            None => true,
            Some(x) => JsonResumeLocation::admits(x),
        })
        &&& (match given(j, "profiles"@) {
            None => true,
            Some(x) => JsonResumeProfile::admits_list(x),
        })
    }

    /// Whether each field is what the value gives under its key.
    pub open spec fn reads(self, j: Json) -> bool {
        &&& opt_text(self.name) == text_at(j, "name"@)
        &&& opt_text(self.label) == text_at(j, "label"@)
        &&& opt_text(self.image) == text_at(j, "image"@)
        &&& opt_text(self.email) == text_at(j, "email"@)
        &&& opt_text(self.phone) == text_at(j, "phone"@)
        &&& opt_text(self.url) == text_at(j, "url"@)
        &&& opt_text(self.summary) == text_at(j, "summary"@)
        &&& (match given(j, "location"@) {
            None => self.location is None,
            Some(x) => self.location matches Some(y) && y.reads(x),
        })
        &&& (match given(j, "profiles"@) {
            None => self.profiles is None,
            Some(x) => self.profiles matches Some(y) && JsonResumeProfile::reads_list(y@, x),
        })
    }

    /// Reads the value from JSON. A value that is not admitted is refused.
    pub fn decode(j: &Json) -> (r: Result<JsonResumeBasics, ParseError>)
        ensures
            r is Ok <==> Self::admits(*j),
            r matches Ok(t) ==> t.reads(*j),
            r matches Err(e) ==> e is ValidationError,
    {
        if !json::is_object(j) {
            return Err(json::wrong_kind("the basics", "an object"));
        }
        let name = match json::read_text(j, "name") {
            Ok(v) => v,
            Err(e) => return Err(e),
        };
        let label = match json::read_text(j, "label") {
            Ok(v) => v,
            Err(e) => return Err(e),
        };
        let image = match json::read_text(j, "image") {
            Ok(v) => v,
            Err(e) => return Err(e),
        };
        let email = match json::read_text(j, "email") {
            Ok(v) => v,
            Err(e) => return Err(e),
        };
        let phone = match json::read_text(j, "phone") {
            Ok(v) => v,
            Err(e) => return Err(e),
        };
        let url = match json::read_text(j, "url") {
            Ok(v) => v,
            Err(e) => return Err(e),
        };
        let summary = match json::read_text(j, "summary") {
            Ok(v) => v,
            Err(e) => return Err(e),
        };
        let location = match get_given(j, "location") {
            None => None,
            Some(x) => match JsonResumeLocation::decode(x) {
                Ok(v) => Some(v),
                Err(e) => return Err(e),
            },
        };
        let profiles = match get_given(j, "profiles") {
            None => None,
            Some(x) => match JsonResumeProfile::decode_list(x) {
                Ok(v) => Some(v),
                Err(e) => return Err(e),
            },
        };
        Ok(JsonResumeBasics { name, label, image, email, phone, url, summary, location, profiles })
    }
}

/// A position held.
#[derive(Debug, Clone)]
pub struct JsonResumeWork {
    pub name: Option<String>,
    pub position: Option<String>,
    pub url: Option<String>,
    pub start_date: Option<String>,
    pub end_date: Option<String>,
    pub summary: Option<String>,
    pub highlights: Option<Vec<String>>,
    pub location: Option<String>,
}

impl JsonResumeWork {
    /// Whether the value is an object whose members are of the kinds that
    /// a position has.
    pub open spec fn admits(j: Json) -> bool {
        &&& j is Object
        &&& text_ok(j, "name"@)
        &&& text_ok(j, "position"@)
        &&& text_ok(j, "url"@)
        &&& text_ok(j, "startDate"@)
        &&& text_ok(j, "endDate"@)
        &&& text_ok(j, "summary"@)
        &&& texts_ok(j, "highlights"@)
        &&& text_ok(j, "location"@)
    }

    /// Whether each field is what the value gives under its key.
    pub open spec fn reads(self, j: Json) -> bool {
        &&& opt_text(self.name) == text_at(j, "name"@)
        &&& opt_text(self.position) == text_at(j, "position"@)
        &&& opt_text(self.url) == text_at(j, "url"@)
        &&& opt_text(self.start_date) == text_at(j, "startDate"@)
        &&& opt_text(self.end_date) == text_at(j, "endDate"@)
        &&& opt_text(self.summary) == text_at(j, "summary"@)
        &&& opt_texts(self.highlights) == texts_at(j, "highlights"@)
        &&& opt_text(self.location) == text_at(j, "location"@)
    }

    /// Reads the value from JSON. A value that is not admitted is refused.
    pub fn decode(j: &Json) -> (r: Result<JsonResumeWork, ParseError>)
        ensures
            r is Ok <==> Self::admits(*j),
            r matches Ok(t) ==> t.reads(*j),
            r matches Err(e) ==> e is ValidationError,
    {
        if !json::is_object(j) {
            return Err(json::wrong_kind("a position", "an object"));
        }
        let name = match json::read_text(j, "name") {
            Ok(v) => v,
            Err(e) => return Err(e),
        };
        let position = match json::read_text(j, "position") {
            Ok(v) => v,
            Err(e) => return Err(e),
        };
        let url = match json::read_text(j, "url") {
            Ok(v) => v,
            Err(e) => return Err(e),
        };
        let start_date = match json::read_text(j, "startDate") {
            Ok(v) => v,
            Err(e) => return Err(e),
        };
        let end_date = match json::read_text(j, "endDate") {
            Ok(v) => v,
            Err(e) => return Err(e),
        };
        let summary = match json::read_text(j, "summary") {
            Ok(v) => v,
            Err(e) => return Err(e),
        };
        let highlights = match json::read_texts(j, "highlights") {
            Ok(v) => v,
            Err(e) => return Err(e),
        };
        let location = match json::read_text(j, "location") {
            Ok(v) => v,
            Err(e) => return Err(e),
        };
        Ok(JsonResumeWork { name, position, url, start_date, end_date, summary, highlights, location })
    }

    /// Whether each value of the sequence is admitted.
    pub open spec fn admits_all(a: Seq<Json>) -> bool {
        forall|i: int| 0 <= i < a.len() ==> Self::admits(#[trigger] a[i])
    }

    /// Whether the items are what the values give, one for one and in
    /// order.
    pub open spec fn reads_all(v: Seq<JsonResumeWork>, a: Seq<Json>) -> bool {
        v.len() == a.len() && forall|i: int| 0 <= i < v.len() ==> (#[trigger] v[i]).reads(a[i])
    }

    /// Whether the value is an array of which each element is admitted.
    pub open spec fn admits_list(j: Json) -> bool {
        match j {
            Json::Array(a) => Self::admits_all(a@),
            _ => false,
        }
    }

    /// Whether the items are what the elements of the array give, in order.
    pub open spec fn reads_list(v: Seq<JsonResumeWork>, j: Json) -> bool {
        match j {
            Json::Array(a) => Self::reads_all(v, a@),
            _ => false,
        }
    }

    /// Reads a list of them from a JSON array, item by item. A value that is
    /// not admitted is refused.
    pub fn decode_list(j: &Json) -> (r: Result<Vec<JsonResumeWork>, ParseError>)
        ensures
            r is Ok <==> Self::admits_list(*j),
            r matches Ok(v) ==> Self::reads_list(v@, *j),
            r matches Err(e) ==> e is ValidationError,
    {
        match j {
            Json::Array(a) => {
                let mut out: Vec<JsonResumeWork> = Vec::new();
                let mut i: usize = 0;
                while i < a.len()
                    invariant
                        i <= a@.len(),
                        out@.len() == i,
                        *j == Json::Array(*a),
                        forall|k: int| 0 <= k < i ==> Self::admits(#[trigger] a@[k]),
                        forall|k: int| 0 <= k < i ==> (#[trigger] out@[k]).reads(a@[k]),
                    decreases a@.len() - i,
                {
                    match Self::decode(&a[i]) {
                        Ok(t) => {
                            out.push(t);
                        },
                        Err(e) => {
                            assert(!Self::admits(a@[i as int]));
                            return Err(e);
                        },
                    }
                    i += 1;
                }
                Ok(out)
            },
            _ => Err(json::wrong_kind("a position", "a list")),
        }
    }
}

/// Voluntary work.
#[derive(Debug, Clone)]
pub struct JsonResumeVolunteer {
    pub organization: Option<String>,
    pub position: Option<String>,
    pub url: Option<String>,
    pub start_date: Option<String>,
    pub end_date: Option<String>,
    pub summary: Option<String>,
    pub highlights: Option<Vec<String>>,
}

impl JsonResumeVolunteer {
    /// Whether the value is an object whose members are of the kinds that
    /// voluntary work has.
    pub open spec fn admits(j: Json) -> bool {
        &&& j is Object
        &&& text_ok(j, "organization"@)
        &&& text_ok(j, "position"@)
        &&& text_ok(j, "url"@)
        &&& text_ok(j, "startDate"@)
        &&& text_ok(j, "endDate"@)
        &&& text_ok(j, "summary"@)
        &&& texts_ok(j, "highlights"@)
    }

    /// Whether each field is what the value gives under its key.
    pub open spec fn reads(self, j: Json) -> bool {
        &&& opt_text(self.organization) == text_at(j, "organization"@)
        &&& opt_text(self.position) == text_at(j, "position"@)
        &&& opt_text(self.url) == text_at(j, "url"@)
        &&& opt_text(self.start_date) == text_at(j, "startDate"@)
        &&& opt_text(self.end_date) == text_at(j, "endDate"@)
        &&& opt_text(self.summary) == text_at(j, "summary"@)
        &&& opt_texts(self.highlights) == texts_at(j, "highlights"@)
    }

    /// Reads the value from JSON. A value that is not admitted is refused.
    pub fn decode(j: &Json) -> (r: Result<JsonResumeVolunteer, ParseError>)
        ensures
            r is Ok <==> Self::admits(*j),
            r matches Ok(t) ==> t.reads(*j),
            r matches Err(e) ==> e is ValidationError,
    {
        if !json::is_object(j) {
            return Err(json::wrong_kind("voluntary work", "an object"));
        }
        let organization = match json::read_text(j, "organization") {
            Ok(v) => v,
            Err(e) => return Err(e),
        };
        let position = match json::read_text(j, "position") {
            Ok(v) => v,
            Err(e) => return Err(e),
        };
        let url = match json::read_text(j, "url") {
            Ok(v) => v,
            Err(e) => return Err(e),
        };
        let start_date = match json::read_text(j, "startDate") {
            Ok(v) => v,
            Err(e) => return Err(e),
        };
        let end_date = match json::read_text(j, "endDate") {
            Ok(v) => v,
            Err(e) => return Err(e),
        };
        let summary = match json::read_text(j, "summary") {
            Ok(v) => v,
            Err(e) => return Err(e),
        };
        let highlights = match json::read_texts(j, "highlights") {
            Ok(v) => v,
            Err(e) => return Err(e),
        };
        Ok(JsonResumeVolunteer { organization, position, url, start_date, end_date, summary, highlights })
    }

    /// Whether each value of the sequence is admitted.
    pub open spec fn admits_all(a: Seq<Json>) -> bool {
        forall|i: int| 0 <= i < a.len() ==> Self::admits(#[trigger] a[i])
    }

    /// Whether the items are what the values give, one for one and in
    /// order.
    pub open spec fn reads_all(v: Seq<JsonResumeVolunteer>, a: Seq<Json>) -> bool {
        v.len() == a.len() && forall|i: int| 0 <= i < v.len() ==> (#[trigger] v[i]).reads(a[i])
    }

    /// Whether the value is an array of which each element is admitted.
    pub open spec fn admits_list(j: Json) -> bool {
        match j {
            Json::Array(a) => Self::admits_all(a@),
            _ => false,
        }
    }

    /// Whether the items are what the elements of the array give, in order.
    pub open spec fn reads_list(v: Seq<JsonResumeVolunteer>, j: Json) -> bool {
        match j {
            Json::Array(a) => Self::reads_all(v, a@),
            _ => false,
        }
    }

    /// Reads a list of them from a JSON array, item by item. A value that is
    /// not admitted is refused.
    pub fn decode_list(j: &Json) -> (r: Result<Vec<JsonResumeVolunteer>, ParseError>)
        ensures
            r is Ok <==> Self::admits_list(*j),
            r matches Ok(v) ==> Self::reads_list(v@, *j),
            r matches Err(e) ==> e is ValidationError,
    {
        match j {
            Json::Array(a) => {
                let mut out: Vec<JsonResumeVolunteer> = Vec::new();
                let mut i: usize = 0;
                while i < a.len()
                    invariant
                        i <= a@.len(),
                        out@.len() == i,
                        *j == Json::Array(*a),
                        forall|k: int| 0 <= k < i ==> Self::admits(#[trigger] a@[k]),
                        forall|k: int| 0 <= k < i ==> (#[trigger] out@[k]).reads(a@[k]),
                    decreases a@.len() - i,
                {
                    match Self::decode(&a[i]) {
                        Ok(t) => {
                            out.push(t);
                        },
                        Err(e) => {
                            assert(!Self::admits(a@[i as int]));
                            return Err(e);
                        },
                    }
                    i += 1;
                }
                Ok(out)
            },
            _ => Err(json::wrong_kind("voluntary work", "a list")),
        }
    }
}

/// A course of study.
#[derive(Debug, Clone)]
pub struct JsonResumeEducation {
    pub institution: Option<String>,
    pub url: Option<String>,
    pub area: Option<String>,
    pub study_type: Option<String>,
    pub start_date: Option<String>,
    pub end_date: Option<String>,
    pub score: Option<String>,
    pub courses: Option<Vec<String>>,
}

impl JsonResumeEducation {
    /// Whether the value is an object whose members are of the kinds that
    /// a course of study has.
    pub open spec fn admits(j: Json) -> bool {
        &&& j is Object
        &&& text_ok(j, "institution"@)
        &&& text_ok(j, "url"@)
        &&& text_ok(j, "area"@)
        &&& text_ok(j, "studyType"@)
        &&& text_ok(j, "startDate"@)
        &&& text_ok(j, "endDate"@)
        &&& text_ok(j, "score"@)
        &&& texts_ok(j, "courses"@)
    }

    /// Whether each field is what the value gives under its key.
    pub open spec fn reads(self, j: Json) -> bool {
        &&& opt_text(self.institution) == text_at(j, "institution"@)
        &&& opt_text(self.url) == text_at(j, "url"@)
        &&& opt_text(self.area) == text_at(j, "area"@)
        &&& opt_text(self.study_type) == text_at(j, "studyType"@)
        &&& opt_text(self.start_date) == text_at(j, "startDate"@)
        &&& opt_text(self.end_date) == text_at(j, "endDate"@)
        &&& opt_text(self.score) == text_at(j, "score"@)
        &&& opt_texts(self.courses) == texts_at(j, "courses"@)
    }

    /// Reads the value from JSON. A value that is not admitted is refused.
    pub fn decode(j: &Json) -> (r: Result<JsonResumeEducation, ParseError>)
        ensures
            r is Ok <==> Self::admits(*j),
            r matches Ok(t) ==> t.reads(*j),
            r matches Err(e) ==> e is ValidationError,
    {
        if !json::is_object(j) {
            return Err(json::wrong_kind("a course of study", "an object"));
        }
        let institution = match json::read_text(j, "institution") {
            Ok(v) => v,
            Err(e) => return Err(e),
        };
        let url = match json::read_text(j, "url") {
            Ok(v) => v,
            Err(e) => return Err(e),
        };
        let area = match json::read_text(j, "area") {
            Ok(v) => v,
            Err(e) => return Err(e),
        };
        let study_type = match json::read_text(j, "studyType") {
            Ok(v) => v,
            Err(e) => return Err(e),
        };
        let start_date = match json::read_text(j, "startDate") {
            Ok(v) => v,
            Err(e) => return Err(e),
        };
        let end_date = match json::read_text(j, "endDate") {
            Ok(v) => v,
            Err(e) => return Err(e),
        };
        let score = match json::read_text(j, "score") {
            Ok(v) => v,
            Err(e) => return Err(e),
        };
        let courses = match json::read_texts(j, "courses") {
            Ok(v) => v,
            Err(e) => return Err(e),
        };
        Ok(JsonResumeEducation { institution, url, area, study_type, start_date, end_date, score, courses })
    }

    /// Whether each value of the sequence is admitted.
    pub open spec fn admits_all(a: Seq<Json>) -> bool {
        forall|i: int| 0 <= i < a.len() ==> Self::admits(#[trigger] a[i])
    }

    /// Whether the items are what the values give, one for one and in
    /// order.
    pub open spec fn reads_all(v: Seq<JsonResumeEducation>, a: Seq<Json>) -> bool {
        v.len() == a.len() && forall|i: int| 0 <= i < v.len() ==> (#[trigger] v[i]).reads(a[i])
    }

    /// Whether the value is an array of which each element is admitted.
    pub open spec fn admits_list(j: Json) -> bool {
        match j {
            Json::Array(a) => Self::admits_all(a@),
            _ => false,
        }
    }

    /// Whether the items are what the elements of the array give, in order.
    pub open spec fn reads_list(v: Seq<JsonResumeEducation>, j: Json) -> bool {
        match j {
            Json::Array(a) => Self::reads_all(v, a@),
            _ => false,
        }
    }

    /// Reads a list of them from a JSON array, item by item. A value that is
    /// not admitted is refused.
    pub fn decode_list(j: &Json) -> (r: Result<Vec<JsonResumeEducation>, ParseError>)
        ensures
            r is Ok <==> Self::admits_list(*j),
            r matches Ok(v) ==> Self::reads_list(v@, *j),
            r matches Err(e) ==> e is ValidationError,
    {
        match j {
            Json::Array(a) => {
                let mut out: Vec<JsonResumeEducation> = Vec::new();
                let mut i: usize = 0;
                while i < a.len()
                    invariant
                        i <= a@.len(),
                        out@.len() == i,
                        *j == Json::Array(*a),
                        forall|k: int| 0 <= k < i ==> Self::admits(#[trigger] a@[k]),
                        forall|k: int| 0 <= k < i ==> (#[trigger] out@[k]).reads(a@[k]),
                    decreases a@.len() - i,
                {
                    match Self::decode(&a[i]) {
                        Ok(t) => {
                            out.push(t);
                        },
                        Err(e) => {
                            assert(!Self::admits(a@[i as int]));
                            return Err(e);
                        },
                    }
                    i += 1;
                }
                Ok(out)
            },
            _ => Err(json::wrong_kind("a course of study", "a list")),
        }
    }
}

/// An award.
#[derive(Debug, Clone)]
pub struct JsonResumeAward {
    pub title: Option<String>,
    pub date: Option<String>,
    pub awarder: Option<String>,
    pub summary: Option<String>,
}

impl JsonResumeAward {
    /// Whether the value is an object whose members are of the kinds that
    /// an award has.
    pub open spec fn admits(j: Json) -> bool {
        &&& j is Object
        &&& text_ok(j, "title"@)
        &&& text_ok(j, "date"@)
        &&& text_ok(j, "awarder"@)
        &&& text_ok(j, "summary"@)
    }

    /// Whether each field is what the value gives under its key.
    pub open spec fn reads(self, j: Json) -> bool {
        &&& opt_text(self.title) == text_at(j, "title"@)
        &&& opt_text(self.date) == text_at(j, "date"@)
        &&& opt_text(self.awarder) == text_at(j, "awarder"@)
        &&& opt_text(self.summary) == text_at(j, "summary"@)
    }

    /// Reads the value from JSON. A value that is not admitted is refused.
    pub fn decode(j: &Json) -> (r: Result<JsonResumeAward, ParseError>)
        ensures
            r is Ok <==> Self::admits(*j),
            r matches Ok(t) ==> t.reads(*j),
            r matches Err(e) ==> e is ValidationError,
    {
        if !json::is_object(j) {
            return Err(json::wrong_kind("an award", "an object"));
        }
        let title = match json::read_text(j, "title") {
            Ok(v) => v,
            Err(e) => return Err(e),
        };
        let date = match json::read_text(j, "date") {
            Ok(v) => v,
            Err(e) => return Err(e),
        };
        let awarder = match json::read_text(j, "awarder") {
            Ok(v) => v,
            Err(e) => return Err(e),
        };
        let summary = match json::read_text(j, "summary") {
            Ok(v) => v,
            Err(e) => return Err(e),
        };
        Ok(JsonResumeAward { title, date, awarder, summary })
    }

    /// Whether each value of the sequence is admitted.
    pub open spec fn admits_all(a: Seq<Json>) -> bool {
        forall|i: int| 0 <= i < a.len() ==> Self::admits(#[trigger] a[i])
    }

    /// Whether the items are what the values give, one for one and in
    /// order.
    pub open spec fn reads_all(v: Seq<JsonResumeAward>, a: Seq<Json>) -> bool {
        v.len() == a.len() && forall|i: int| 0 <= i < v.len() ==> (#[trigger] v[i]).reads(a[i])
    }

    /// Whether the value is an array of which each element is admitted.
    pub open spec fn admits_list(j: Json) -> bool {
        match j {
            Json::Array(a) => Self::admits_all(a@),
            _ => false,
        }
    }

    /// Whether the items are what the elements of the array give, in order.
    pub open spec fn reads_list(v: Seq<JsonResumeAward>, j: Json) -> bool {
        match j {
            Json::Array(a) => Self::reads_all(v, a@),
            _ => false,
        }
    }

    /// Reads a list of them from a JSON array, item by item. A value that is
    /// not admitted is refused.
    pub fn decode_list(j: &Json) -> (r: Result<Vec<JsonResumeAward>, ParseError>)
        ensures
            r is Ok <==> Self::admits_list(*j),
            r matches Ok(v) ==> Self::reads_list(v@, *j),
            r matches Err(e) ==> e is ValidationError,
    {
        match j {
            Json::Array(a) => {
                let mut out: Vec<JsonResumeAward> = Vec::new();
                let mut i: usize = 0;
                while i < a.len()
                    invariant
                        i <= a@.len(),
                        out@.len() == i,
                        *j == Json::Array(*a),
                        forall|k: int| 0 <= k < i ==> Self::admits(#[trigger] a@[k]),
                        forall|k: int| 0 <= k < i ==> (#[trigger] out@[k]).reads(a@[k]),
                    decreases a@.len() - i,
                {
                    match Self::decode(&a[i]) {
                        Ok(t) => {
                            out.push(t);
                        },
                        Err(e) => {
                            assert(!Self::admits(a@[i as int]));
                            return Err(e);
                        },
                    }
                    i += 1;
                }
                Ok(out)
            },
            _ => Err(json::wrong_kind("an award", "a list")),
        }
    }
}

/// A certificate.
#[derive(Debug, Clone)]
pub struct JsonResumeCertificate {
    pub name: Option<String>,
    pub date: Option<String>,
    pub issuer: Option<String>,
    pub url: Option<String>,
}

impl JsonResumeCertificate {
    /// Whether the value is an object whose members are of the kinds that
    /// a certificate has.
    pub open spec fn admits(j: Json) -> bool {
        &&& j is Object
        &&& text_ok(j, "name"@)
        &&& text_ok(j, "date"@)
        &&& text_ok(j, "issuer"@)
        &&& text_ok(j, "url"@)
    }

    /// Whether each field is what the value gives under its key.
    pub open spec fn reads(self, j: Json) -> bool {
        &&& opt_text(self.name) == text_at(j, "name"@)
        &&& opt_text(self.date) == text_at(j, "date"@)
        &&& opt_text(self.issuer) == text_at(j, "issuer"@)
        &&& opt_text(self.url) == text_at(j, "url"@)
    }

    /// Reads the value from JSON. A value that is not admitted is refused.
    pub fn decode(j: &Json) -> (r: Result<JsonResumeCertificate, ParseError>)
        ensures
            r is Ok <==> Self::admits(*j),
            r matches Ok(t) ==> t.reads(*j),
            r matches Err(e) ==> e is ValidationError,
    {
        if !json::is_object(j) {
            return Err(json::wrong_kind("a certificate", "an object"));
        }
        let name = match json::read_text(j, "name") {
            Ok(v) => v,
            Err(e) => return Err(e),
        };
        let date = match json::read_text(j, "date") {
            Ok(v) => v,
            Err(e) => return Err(e),
        };
        let issuer = match json::read_text(j, "issuer") {
            Ok(v) => v,
            Err(e) => return Err(e),
        };
        let url = match json::read_text(j, "url") {
            Ok(v) => v,
            Err(e) => return Err(e),
        };
        Ok(JsonResumeCertificate { name, date, issuer, url })
    }

    /// Whether each value of the sequence is admitted.
    pub open spec fn admits_all(a: Seq<Json>) -> bool {
        forall|i: int| 0 <= i < a.len() ==> Self::admits(#[trigger] a[i])
    }

    /// Whether the items are what the values give, one for one and in
    /// order.
    pub open spec fn reads_all(v: Seq<JsonResumeCertificate>, a: Seq<Json>) -> bool {
        v.len() == a.len() && forall|i: int| 0 <= i < v.len() ==> (#[trigger] v[i]).reads(a[i])
    }

    /// Whether the value is an array of which each element is admitted.
    pub open spec fn admits_list(j: Json) -> bool {
        match j {
            Json::Array(a) => Self::admits_all(a@),
            _ => false,
        }
    }

    /// Whether the items are what the elements of the array give, in order.
    pub open spec fn reads_list(v: Seq<JsonResumeCertificate>, j: Json) -> bool {
        match j {
            Json::Array(a) => Self::reads_all(v, a@),
            _ => false,
        }
    }

    /// Reads a list of them from a JSON array, item by item. A value that is
    /// not admitted is refused.
    pub fn decode_list(j: &Json) -> (r: Result<Vec<JsonResumeCertificate>, ParseError>)
        ensures
            r is Ok <==> Self::admits_list(*j),
            r matches Ok(v) ==> Self::reads_list(v@, *j),
            r matches Err(e) ==> e is ValidationError,
    {
        match j {
            Json::Array(a) => {
                let mut out: Vec<JsonResumeCertificate> = Vec::new();
                let mut i: usize = 0;
                while i < a.len()
                    invariant
                        i <= a@.len(),
                        out@.len() == i,
                        *j == Json::Array(*a),
                        forall|k: int| 0 <= k < i ==> Self::admits(#[trigger] a@[k]),
                        forall|k: int| 0 <= k < i ==> (#[trigger] out@[k]).reads(a@[k]),
                    decreases a@.len() - i,
                {
                    match Self::decode(&a[i]) {
                        Ok(t) => {
                            out.push(t);
                        },
                        Err(e) => {
                            assert(!Self::admits(a@[i as int]));
                            return Err(e);
                        },
                    }
                    i += 1;
                }
                Ok(out)
            },
            _ => Err(json::wrong_kind("a certificate", "a list")),
        }
    }
}

/// A publication.
#[derive(Debug, Clone)]
pub struct JsonResumePublication {
    pub name: Option<String>,
    pub publisher: Option<String>,
    pub release_date: Option<String>,
    pub url: Option<String>,
    pub summary: Option<String>,
}

impl JsonResumePublication {
    /// Whether the value is an object whose members are of the kinds that
    /// a publication has.
    pub open spec fn admits(j: Json) -> bool {
        &&& j is Object
        &&& text_ok(j, "name"@)
        &&& text_ok(j, "publisher"@)
        &&& text_ok(j, "releaseDate"@)
        &&& text_ok(j, "url"@)
        &&& text_ok(j, "summary"@)
    }

    /// Whether each field is what the value gives under its key.
    pub open spec fn reads(self, j: Json) -> bool {
        &&& opt_text(self.name) == text_at(j, "name"@)
        &&& opt_text(self.publisher) == text_at(j, "publisher"@)
        &&& opt_text(self.release_date) == text_at(j, "releaseDate"@)
        &&& opt_text(self.url) == text_at(j, "url"@)
        &&& opt_text(self.summary) == text_at(j, "summary"@)
    }

    /// Reads the value from JSON. A value that is not admitted is refused.
    pub fn decode(j: &Json) -> (r: Result<JsonResumePublication, ParseError>)
        ensures
            r is Ok <==> Self::admits(*j),
            r matches Ok(t) ==> t.reads(*j),
            r matches Err(e) ==> e is ValidationError,
    {
        if !json::is_object(j) {
            return Err(json::wrong_kind("a publication", "an object"));
        }
        let name = match json::read_text(j, "name") {
            Ok(v) => v,
            Err(e) => return Err(e),
        };
        let publisher = match json::read_text(j, "publisher") {
            Ok(v) => v,
            Err(e) => return Err(e),
        };
        let release_date = match json::read_text(j, "releaseDate") {
            Ok(v) => v,
            Err(e) => return Err(e),
        };
        let url = match json::read_text(j, "url") {
            Ok(v) => v,
            Err(e) => return Err(e),
        };
        let summary = match json::read_text(j, "summary") {
            Ok(v) => v,
            Err(e) => return Err(e),
        };
        Ok(JsonResumePublication { name, publisher, release_date, url, summary })
    }

    /// Whether each value of the sequence is admitted.
    pub open spec fn admits_all(a: Seq<Json>) -> bool {
        forall|i: int| 0 <= i < a.len() ==> Self::admits(#[trigger] a[i])
    }

    /// Whether the items are what the values give, one for one and in
    /// order.
    pub open spec fn reads_all(v: Seq<JsonResumePublication>, a: Seq<Json>) -> bool {
        v.len() == a.len() && forall|i: int| 0 <= i < v.len() ==> (#[trigger] v[i]).reads(a[i])
    }

    /// Whether the value is an array of which each element is admitted.
    pub open spec fn admits_list(j: Json) -> bool {
        match j {
            Json::Array(a) => Self::admits_all(a@),
            _ => false,
        }
    }

    /// Whether the items are what the elements of the array give, in order.
    pub open spec fn reads_list(v: Seq<JsonResumePublication>, j: Json) -> bool {
        match j {
            Json::Array(a) => Self::reads_all(v, a@),
            _ => false,
        }
    }

    /// Reads a list of them from a JSON array, item by item. A value that is
    /// not admitted is refused.
    pub fn decode_list(j: &Json) -> (r: Result<Vec<JsonResumePublication>, ParseError>)
        ensures
            r is Ok <==> Self::admits_list(*j),
            r matches Ok(v) ==> Self::reads_list(v@, *j),
            r matches Err(e) ==> e is ValidationError,
    {
        match j {
            Json::Array(a) => {
                let mut out: Vec<JsonResumePublication> = Vec::new();
                let mut i: usize = 0;
                while i < a.len()
                    invariant
                        i <= a@.len(),
                        out@.len() == i,
                        *j == Json::Array(*a),
                        forall|k: int| 0 <= k < i ==> Self::admits(#[trigger] a@[k]),
                        forall|k: int| 0 <= k < i ==> (#[trigger] out@[k]).reads(a@[k]),
                    decreases a@.len() - i,
                {
                    match Self::decode(&a[i]) {
                        Ok(t) => {
                            out.push(t);
                        },
                        Err(e) => {
                            assert(!Self::admits(a@[i as int]));
                            return Err(e);
                        },
                    }
                    i += 1;
                }
                Ok(out)
            },
            _ => Err(json::wrong_kind("a publication", "a list")),
        }
    }
}

/// A skill.
#[derive(Debug, Clone)]
pub struct JsonResumeSkill {
    pub name: Option<String>,
    pub level: Option<String>,
    pub keywords: Option<Vec<String>>,
}

impl JsonResumeSkill {
    /// Whether the value is an object whose members are of the kinds that
    /// a skill has.
    pub open spec fn admits(j: Json) -> bool {
        &&& j is Object
        &&& text_ok(j, "name"@)
        &&& text_ok(j, "level"@)
        &&& texts_ok(j, "keywords"@)
    }

    /// Whether each field is what the value gives under its key.
    pub open spec fn reads(self, j: Json) -> bool {
        &&& opt_text(self.name) == text_at(j, "name"@)
        &&& opt_text(self.level) == text_at(j, "level"@)
        &&& opt_texts(self.keywords) == texts_at(j, "keywords"@)
    }

    /// Reads the value from JSON. A value that is not admitted is refused.
    pub fn decode(j: &Json) -> (r: Result<JsonResumeSkill, ParseError>)
        ensures
            r is Ok <==> Self::admits(*j),
            r matches Ok(t) ==> t.reads(*j),
            r matches Err(e) ==> e is ValidationError,
    {
        if !json::is_object(j) {
            return Err(json::wrong_kind("a skill", "an object"));
        }
        let name = match json::read_text(j, "name") {
            Ok(v) => v,
            Err(e) => return Err(e),
        };
        let level = match json::read_text(j, "level") {
            Ok(v) => v,
            Err(e) => return Err(e),
        };
        let keywords = match json::read_texts(j, "keywords") {
            Ok(v) => v,
            Err(e) => return Err(e),
        };
        Ok(JsonResumeSkill { name, level, keywords })
    }

    /// Whether each value of the sequence is admitted.
    pub open spec fn admits_all(a: Seq<Json>) -> bool {
        forall|i: int| 0 <= i < a.len() ==> Self::admits(#[trigger] a[i])
    }

    /// Whether the items are what the values give, one for one and in
    /// order.
    pub open spec fn reads_all(v: Seq<JsonResumeSkill>, a: Seq<Json>) -> bool {
        v.len() == a.len() && forall|i: int| 0 <= i < v.len() ==> (#[trigger] v[i]).reads(a[i])
    }

    /// Whether the value is an array of which each element is admitted.
    pub open spec fn admits_list(j: Json) -> bool {
        match j {
            Json::Array(a) => Self::admits_all(a@),
            _ => false,
        }
    }

    /// Whether the items are what the elements of the array give, in order.
    pub open spec fn reads_list(v: Seq<JsonResumeSkill>, j: Json) -> bool {
        match j {
            Json::Array(a) => Self::reads_all(v, a@),
            _ => false,
        }
    }

    /// Reads a list of them from a JSON array, item by item. A value that is
    /// not admitted is refused.
    pub fn decode_list(j: &Json) -> (r: Result<Vec<JsonResumeSkill>, ParseError>)
        ensures
            r is Ok <==> Self::admits_list(*j),
            r matches Ok(v) ==> Self::reads_list(v@, *j),
            r matches Err(e) ==> e is ValidationError,
    {
        match j {
            Json::Array(a) => {
                let mut out: Vec<JsonResumeSkill> = Vec::new();
                let mut i: usize = 0;
                while i < a.len()
                    invariant
                        i <= a@.len(),
                        out@.len() == i,
                        *j == Json::Array(*a),
                        forall|k: int| 0 <= k < i ==> Self::admits(#[trigger] a@[k]),
                        forall|k: int| 0 <= k < i ==> (#[trigger] out@[k]).reads(a@[k]),
                    decreases a@.len() - i,
                {
                    match Self::decode(&a[i]) {
                        Ok(t) => {
                            out.push(t);
                        },
                        Err(e) => {
                            assert(!Self::admits(a@[i as int]));
                            return Err(e);
                        },
                    }
                    i += 1;
                }
                Ok(out)
            },
            _ => Err(json::wrong_kind("a skill", "a list")),
        }
    }
}

/// A language.
#[derive(Debug, Clone)]
pub struct JsonResumeLanguage {
    pub language: Option<String>,
    pub fluency: Option<String>,
}

impl JsonResumeLanguage {
    /// Whether the value is an object whose members are of the kinds that
    /// a language has.
    pub open spec fn admits(j: Json) -> bool {
        &&& j is Object
        &&& text_ok(j, "language"@)
        &&& text_ok(j, "fluency"@)
    }

    /// Whether each field is what the value gives under its key.
    pub open spec fn reads(self, j: Json) -> bool {
        &&& opt_text(self.language) == text_at(j, "language"@)
        &&& opt_text(self.fluency) == text_at(j, "fluency"@)
    }

    /// Reads the value from JSON. A value that is not admitted is refused.
    pub fn decode(j: &Json) -> (r: Result<JsonResumeLanguage, ParseError>)
        ensures
            r is Ok <==> Self::admits(*j),
            r matches Ok(t) ==> t.reads(*j),
            r matches Err(e) ==> e is ValidationError,
    {
        if !json::is_object(j) {
            return Err(json::wrong_kind("a language", "an object"));
        }
        let language = match json::read_text(j, "language") {
            Ok(v) => v,
            Err(e) => return Err(e),
        };
        let fluency = match json::read_text(j, "fluency") {
            Ok(v) => v,
            Err(e) => return Err(e),
        };
        Ok(JsonResumeLanguage { language, fluency })
    }

    /// Whether each value of the sequence is admitted.
    pub open spec fn admits_all(a: Seq<Json>) -> bool {
        forall|i: int| 0 <= i < a.len() ==> Self::admits(#[trigger] a[i])
    }

    /// Whether the items are what the values give, one for one and in
    /// order.
    pub open spec fn reads_all(v: Seq<JsonResumeLanguage>, a: Seq<Json>) -> bool {
        v.len() == a.len() && forall|i: int| 0 <= i < v.len() ==> (#[trigger] v[i]).reads(a[i])
    }

    /// Whether the value is an array of which each element is admitted.
    pub open spec fn admits_list(j: Json) -> bool {
        match j {
            Json::Array(a) => Self::admits_all(a@),
            _ => false,
        }
    }

    /// Whether the items are what the elements of the array give, in order.
    pub open spec fn reads_list(v: Seq<JsonResumeLanguage>, j: Json) -> bool {
        match j {
            Json::Array(a) => Self::reads_all(v, a@),
            _ => false,
        }
    }

    /// Reads a list of them from a JSON array, item by item. A value that is
    /// not admitted is refused.
    pub fn decode_list(j: &Json) -> (r: Result<Vec<JsonResumeLanguage>, ParseError>)
        ensures
            r is Ok <==> Self::admits_list(*j),
            r matches Ok(v) ==> Self::reads_list(v@, *j),
            r matches Err(e) ==> e is ValidationError,
    {
        match j {
            Json::Array(a) => {
                let mut out: Vec<JsonResumeLanguage> = Vec::new();
                let mut i: usize = 0;
                while i < a.len()
                    invariant
                        i <= a@.len(),
                        out@.len() == i,
                        *j == Json::Array(*a),
                        forall|k: int| 0 <= k < i ==> Self::admits(#[trigger] a@[k]),
                        forall|k: int| 0 <= k < i ==> (#[trigger] out@[k]).reads(a@[k]),
                    decreases a@.len() - i,
                {
                    match Self::decode(&a[i]) {
                        Ok(t) => {
                            out.push(t);
                        },
                        Err(e) => {
                            assert(!Self::admits(a@[i as int]));
                            return Err(e);
                        },
                    }
                    i += 1;
                }
                Ok(out)
            },
            _ => Err(json::wrong_kind("a language", "a list")),
        }
    }
}

/// An interest.
#[derive(Debug, Clone)]
pub struct JsonResumeInterest {
    pub name: Option<String>,
    pub keywords: Option<Vec<String>>,
}

impl JsonResumeInterest {
    /// Whether the value is an object whose members are of the kinds that
    /// an interest has.
    pub open spec fn admits(j: Json) -> bool {
        &&& j is Object
        &&& text_ok(j, "name"@)
        &&& texts_ok(j, "keywords"@)
    }

    /// Whether each field is what the value gives under its key.
    pub open spec fn reads(self, j: Json) -> bool {
        &&& opt_text(self.name) == text_at(j, "name"@)
        &&& opt_texts(self.keywords) == texts_at(j, "keywords"@)
    }

    /// Reads the value from JSON. A value that is not admitted is refused.
    pub fn decode(j: &Json) -> (r: Result<JsonResumeInterest, ParseError>)
        ensures
            r is Ok <==> Self::admits(*j),
            r matches Ok(t) ==> t.reads(*j),
            r matches Err(e) ==> e is ValidationError,
    {
        if !json::is_object(j) {
            return Err(json::wrong_kind("an interest", "an object"));
        }
        let name = match json::read_text(j, "name") {
            Ok(v) => v,
            Err(e) => return Err(e),
        };
        let keywords = match json::read_texts(j, "keywords") {
            Ok(v) => v,
            Err(e) => return Err(e),
        };
        Ok(JsonResumeInterest { name, keywords })
    }

    /// Whether each value of the sequence is admitted.
    pub open spec fn admits_all(a: Seq<Json>) -> bool {
        forall|i: int| 0 <= i < a.len() ==> Self::admits(#[trigger] a[i])
    }

    /// Whether the items are what the values give, one for one and in
    /// order.
    pub open spec fn reads_all(v: Seq<JsonResumeInterest>, a: Seq<Json>) -> bool {
        v.len() == a.len() && forall|i: int| 0 <= i < v.len() ==> (#[trigger] v[i]).reads(a[i])
    }

    /// Whether the value is an array of which each element is admitted.
    pub open spec fn admits_list(j: Json) -> bool {
        match j {
            Json::Array(a) => Self::admits_all(a@),
            _ => false,
        }
    }

    /// Whether the items are what the elements of the array give, in order.
    pub open spec fn reads_list(v: Seq<JsonResumeInterest>, j: Json) -> bool {
        match j {
            Json::Array(a) => Self::reads_all(v, a@),
            _ => false,
        }
    }

    /// Reads a list of them from a JSON array, item by item. A value that is
    /// not admitted is refused.
    pub fn decode_list(j: &Json) -> (r: Result<Vec<JsonResumeInterest>, ParseError>)
        ensures
            r is Ok <==> Self::admits_list(*j),
            r matches Ok(v) ==> Self::reads_list(v@, *j),
            r matches Err(e) ==> e is ValidationError,
    {
        match j {
            Json::Array(a) => {
                let mut out: Vec<JsonResumeInterest> = Vec::new();
                let mut i: usize = 0;
                while i < a.len()
                    invariant
                        i <= a@.len(),
                        out@.len() == i,
                        *j == Json::Array(*a),
                        forall|k: int| 0 <= k < i ==> Self::admits(#[trigger] a@[k]),
                        forall|k: int| 0 <= k < i ==> (#[trigger] out@[k]).reads(a@[k]),
                    decreases a@.len() - i,
                {
                    match Self::decode(&a[i]) {
                        Ok(t) => {
                            out.push(t);
                        },
                        Err(e) => {
                            assert(!Self::admits(a@[i as int]));
                            return Err(e);
                        },
                    }
                    i += 1;
                }
                Ok(out)
            },
            _ => Err(json::wrong_kind("an interest", "a list")),
        }
    }
}

/// A reference.
#[derive(Debug, Clone)]
pub struct JsonResumeReference {
    pub name: Option<String>,
    pub reference: Option<String>,
}

impl JsonResumeReference {
    /// Whether the value is an object whose members are of the kinds that
    /// a reference has.
    pub open spec fn admits(j: Json) -> bool {
        &&& j is Object
        &&& text_ok(j, "name"@)
        &&& text_ok(j, "reference"@)
    }

    /// Whether each field is what the value gives under its key.
    pub open spec fn reads(self, j: Json) -> bool {
        &&& opt_text(self.name) == text_at(j, "name"@)
        &&& opt_text(self.reference) == text_at(j, "reference"@)
    }

    /// Reads the value from JSON. A value that is not admitted is refused.
    pub fn decode(j: &Json) -> (r: Result<JsonResumeReference, ParseError>)
        ensures
            r is Ok <==> Self::admits(*j),
            r matches Ok(t) ==> t.reads(*j),
            r matches Err(e) ==> e is ValidationError,
    {
        if !json::is_object(j) {
            return Err(json::wrong_kind("a reference", "an object"));
        }
        let name = match json::read_text(j, "name") {
            Ok(v) => v,
            Err(e) => return Err(e),
        };
        let reference = match json::read_text(j, "reference") {
            Ok(v) => v,
            Err(e) => return Err(e),
        };
        Ok(JsonResumeReference { name, reference })
    }

    /// Whether each value of the sequence is admitted.
    pub open spec fn admits_all(a: Seq<Json>) -> bool {
        forall|i: int| 0 <= i < a.len() ==> Self::admits(#[trigger] a[i])
    }

    /// Whether the items are what the values give, one for one and in
    /// order.
    pub open spec fn reads_all(v: Seq<JsonResumeReference>, a: Seq<Json>) -> bool {
        v.len() == a.len() && forall|i: int| 0 <= i < v.len() ==> (#[trigger] v[i]).reads(a[i])
    }

    /// Whether the value is an array of which each element is admitted.
    pub open spec fn admits_list(j: Json) -> bool {
        match j {
            Json::Array(a) => Self::admits_all(a@),
            _ => false,
        }
    }

    /// Whether the items are what the elements of the array give, in order.
    pub open spec fn reads_list(v: Seq<JsonResumeReference>, j: Json) -> bool {
        match j {
            Json::Array(a) => Self::reads_all(v, a@),
            _ => false,
        }
    }

    /// Reads a list of them from a JSON array, item by item. A value that is
    /// not admitted is refused.
    pub fn decode_list(j: &Json) -> (r: Result<Vec<JsonResumeReference>, ParseError>)
        ensures
            r is Ok <==> Self::admits_list(*j),
            r matches Ok(v) ==> Self::reads_list(v@, *j),
            r matches Err(e) ==> e is ValidationError,
    {
        match j {
            Json::Array(a) => {
                let mut out: Vec<JsonResumeReference> = Vec::new();
                let mut i: usize = 0;
                while i < a.len()
                    invariant
                        i <= a@.len(),
                        out@.len() == i,
                        *j == Json::Array(*a),
                        forall|k: int| 0 <= k < i ==> Self::admits(#[trigger] a@[k]),
                        forall|k: int| 0 <= k < i ==> (#[trigger] out@[k]).reads(a@[k]),
                    decreases a@.len() - i,
                {
                    match Self::decode(&a[i]) {
                        Ok(t) => {
                            out.push(t);
                        },
                        Err(e) => {
                            assert(!Self::admits(a@[i as int]));
                            return Err(e);
                        },
                    }
                    i += 1;
                }
                Ok(out)
            },
            _ => Err(json::wrong_kind("a reference", "a list")),
        }
    }
}

/// A project.
#[derive(Debug, Clone)]
pub struct JsonResumeProject {
    pub name: Option<String>,
    pub description: Option<String>,
    pub highlights: Option<Vec<String>>,
    pub keywords: Option<Vec<String>>,
    pub start_date: Option<String>,
    pub end_date: Option<String>,
    pub url: Option<String>,
    pub roles: Option<Vec<String>>,
    pub entity: Option<String>,
    pub project_type: Option<String>,
}

impl JsonResumeProject {
    /// Whether the value is an object whose members are of the kinds that
    /// a project has.
    pub open spec fn admits(j: Json) -> bool {
        &&& j is Object
        &&& text_ok(j, "name"@)
        &&& text_ok(j, "description"@)
        &&& texts_ok(j, "highlights"@)
        &&& texts_ok(j, "keywords"@)
        &&& text_ok(j, "startDate"@)
        &&& text_ok(j, "endDate"@)
        &&& text_ok(j, "url"@)
        &&& texts_ok(j, "roles"@)
        &&& text_ok(j, "entity"@)
        &&& text_ok(j, "type"@)
    }

    /// Whether each field is what the value gives under its key.
    pub open spec fn reads(self, j: Json) -> bool {
        &&& opt_text(self.name) == text_at(j, "name"@)
        &&& opt_text(self.description) == text_at(j, "description"@)
        &&& opt_texts(self.highlights) == texts_at(j, "highlights"@)
        &&& opt_texts(self.keywords) == texts_at(j, "keywords"@)
        &&& opt_text(self.start_date) == text_at(j, "startDate"@)
        &&& opt_text(self.end_date) == text_at(j, "endDate"@)
        &&& opt_text(self.url) == text_at(j, "url"@)
        &&& opt_texts(self.roles) == texts_at(j, "roles"@)
        &&& opt_text(self.entity) == text_at(j, "entity"@)
        &&& opt_text(self.project_type) == text_at(j, "type"@)
    }

    /// Reads the value from JSON. A value that is not admitted is refused.
    pub fn decode(j: &Json) -> (r: Result<JsonResumeProject, ParseError>)
        ensures
            r is Ok <==> Self::admits(*j),
            r matches Ok(t) ==> t.reads(*j),
            r matches Err(e) ==> e is ValidationError,
    {
        if !json::is_object(j) {
            return Err(json::wrong_kind("a project", "an object"));
        }
        let name = match json::read_text(j, "name") {
            Ok(v) => v,
            Err(e) => return Err(e),
        };
        let description = match json::read_text(j, "description") {
            Ok(v) => v,
            Err(e) => return Err(e),
        };
        let highlights = match json::read_texts(j, "highlights") {
            Ok(v) => v,
            Err(e) => return Err(e),
        };
        let keywords = match json::read_texts(j, "keywords") {
            Ok(v) => v,
            Err(e) => return Err(e),
        };
        let start_date = match json::read_text(j, "startDate") {
            Ok(v) => v,
            Err(e) => return Err(e),
        };
        let end_date = match json::read_text(j, "endDate") {
            Ok(v) => v,
            Err(e) => return Err(e),
        };
        let url = match json::read_text(j, "url") {
            Ok(v) => v,
            Err(e) => return Err(e),
        };
        let roles = match json::read_texts(j, "roles") {
            Ok(v) => v,
            Err(e) => return Err(e),
        };
        let entity = match json::read_text(j, "entity") {
            Ok(v) => v,
            Err(e) => return Err(e),
        };
        let project_type = match json::read_text(j, "type") {
            Ok(v) => v,
            Err(e) => return Err(e),
        };
        Ok(JsonResumeProject { name, description, highlights, keywords, start_date, end_date, url, roles, entity, project_type })
    }

    /// Whether each value of the sequence is admitted.
    pub open spec fn admits_all(a: Seq<Json>) -> bool {
        forall|i: int| 0 <= i < a.len() ==> Self::admits(#[trigger] a[i])
    }

    /// Whether the items are what the values give, one for one and in
    /// order.
    pub open spec fn reads_all(v: Seq<JsonResumeProject>, a: Seq<Json>) -> bool {
        v.len() == a.len() && forall|i: int| 0 <= i < v.len() ==> (#[trigger] v[i]).reads(a[i])
    }

    /// Whether the value is an array of which each element is admitted.
    pub open spec fn admits_list(j: Json) -> bool {
        match j {
            Json::Array(a) => Self::admits_all(a@),
            _ => false,
        }
    }

    /// Whether the items are what the elements of the array give, in order.
    pub open spec fn reads_list(v: Seq<JsonResumeProject>, j: Json) -> bool {
        match j {
            Json::Array(a) => Self::reads_all(v, a@),
            _ => false,
        }
    }

    /// Reads a list of them from a JSON array, item by item. A value that is
    /// not admitted is refused.
    pub fn decode_list(j: &Json) -> (r: Result<Vec<JsonResumeProject>, ParseError>)
        ensures
            r is Ok <==> Self::admits_list(*j),
            r matches Ok(v) ==> Self::reads_list(v@, *j),
            r matches Err(e) ==> e is ValidationError,
    {
        match j {
            Json::Array(a) => {
                let mut out: Vec<JsonResumeProject> = Vec::new();
                let mut i: usize = 0;
                while i < a.len()
                    invariant
                        i <= a@.len(),
                        out@.len() == i,
                        *j == Json::Array(*a),
                        forall|k: int| 0 <= k < i ==> Self::admits(#[trigger] a@[k]),
                        forall|k: int| 0 <= k < i ==> (#[trigger] out@[k]).reads(a@[k]),
                    decreases a@.len() - i,
                {
                    match Self::decode(&a[i]) {
                        Ok(t) => {
                            out.push(t);
                        },
                        Err(e) => {
                            assert(!Self::admits(a@[i as int]));
                            return Err(e);
                        },
                    }
                    i += 1;
                }
                Ok(out)
            },
            _ => Err(json::wrong_kind("a project", "a list")),
        }
    }
}

/// A résumé in the standard JSON format. Every member may be absent.
#[derive(Debug, Clone)]
pub struct JsonResume {
    pub basics: Option<JsonResumeBasics>,
    pub work: Option<Vec<JsonResumeWork>>,
    pub volunteer: Option<Vec<JsonResumeVolunteer>>,
    pub education: Option<Vec<JsonResumeEducation>>,
    pub awards: Option<Vec<JsonResumeAward>>,
    pub certificates: Option<Vec<JsonResumeCertificate>>,
    pub publications: Option<Vec<JsonResumePublication>>,
    pub skills: Option<Vec<JsonResumeSkill>>,
    pub languages: Option<Vec<JsonResumeLanguage>>,
    pub interests: Option<Vec<JsonResumeInterest>>,
    pub references: Option<Vec<JsonResumeReference>>,
    pub projects: Option<Vec<JsonResumeProject>>,
}

impl JsonResume {
    /// Whether the value is an object whose members are of the kinds that
    /// a résumé has.
    pub open spec fn admits(j: Json) -> bool {
        &&& j is Object
        &&& (match given(j, "basics"@) {
            None => true,
            Some(x) => JsonResumeBasics::admits(x),
        })
        &&& (match given(j, "work"@) {
            None => true,
            Some(x) => JsonResumeWork::admits_list(x),
        })
        &&& (match given(j, "volunteer"@) {
            None => true,
            Some(x) => JsonResumeVolunteer::admits_list(x),
        })
        &&& (match given(j, "education"@) {
            None => true,
            Some(x) => JsonResumeEducation::admits_list(x),
        })
        &&& (match given(j, "awards"@) {
            None => true,
            Some(x) => JsonResumeAward::admits_list(x),
        })
        &&& (match given(j, "certificates"@) {
            None => true,
            Some(x) => JsonResumeCertificate::admits_list(x),
        })
        &&& (match given(j, "publications"@) {
            None => true,
            Some(x) => JsonResumePublication::admits_list(x),
        })
        &&& (match given(j, "skills"@) {
            None => true,
            Some(x) => JsonResumeSkill::admits_list(x),
        })
        &&& (match given(j, "languages"@) {
            None => true,
            Some(x) => JsonResumeLanguage::admits_list(x),
        })
        &&& (match given(j, "interests"@) {
            None => true,
            Some(x) => JsonResumeInterest::admits_list(x),
        })
        &&& (match given(j, "references"@) {
            None => true,
            Some(x) => JsonResumeReference::admits_list(x),
        })
        &&& (match given(j, "projects"@) {
            None => true,
            Some(x) => JsonResumeProject::admits_list(x),
        })
    }

    /// Whether each field is what the value gives under its key.
    pub open spec fn reads(self, j: Json) -> bool {
        &&& (match given(j, "basics"@) {
            None => self.basics is None,
            Some(x) => self.basics matches Some(y) && y.reads(x),
        })
        &&& (match given(j, "work"@) {
            None => self.work is None,
            Some(x) => self.work matches Some(y) && JsonResumeWork::reads_list(y@, x),
        })
        &&& (match given(j, "volunteer"@) {
            None => self.volunteer is None,
            Some(x) => self.volunteer matches Some(y) && JsonResumeVolunteer::reads_list(y@, x),
        })
        &&& (match given(j, "education"@) {
            None => self.education is None,
            Some(x) => self.education matches Some(y) && JsonResumeEducation::reads_list(y@, x),
        })
        &&& (match given(j, "awards"@) {
            None => self.awards is None,
            Some(x) => self.awards matches Some(y) && JsonResumeAward::reads_list(y@, x),
        })
        &&& (match given(j, "certificates"@) {
            None => self.certificates is None,
            Some(x) => self.certificates matches Some(y) && JsonResumeCertificate::reads_list(y@, x),
        })
        &&& (match given(j, "publications"@) {
            None => self.publications is None,
            Some(x) => self.publications matches Some(y) && JsonResumePublication::reads_list(y@, x),
        })
        &&& (match given(j, "skills"@) {
            None => self.skills is None,
            Some(x) => self.skills matches Some(y) && JsonResumeSkill::reads_list(y@, x),
        })
        &&& (match given(j, "languages"@) {
            None => self.languages is None,
            Some(x) => self.languages matches Some(y) && JsonResumeLanguage::reads_list(y@, x),
        })
        &&& (match given(j, "interests"@) {
            None => self.interests is None,
            Some(x) => self.interests matches Some(y) && JsonResumeInterest::reads_list(y@, x),
        })
        &&& (match given(j, "references"@) {
            None => self.references is None,
            Some(x) => self.references matches Some(y) && JsonResumeReference::reads_list(y@, x),
        })
        &&& (match given(j, "projects"@) {
            None => self.projects is None,
            Some(x) => self.projects matches Some(y) && JsonResumeProject::reads_list(y@, x),
        })
    }

    /// Reads the value from JSON. A value that is not admitted is refused.
    pub fn decode(j: &Json) -> (r: Result<JsonResume, ParseError>)
        ensures
            r is Ok <==> Self::admits(*j),
            r matches Ok(t) ==> t.reads(*j),
            r matches Err(e) ==> e is ValidationError,
    {
        if !json::is_object(j) {
            return Err(json::wrong_kind("a résumé", "an object"));
        }
        let basics = match get_given(j, "basics") {
            None => None,
            Some(x) => match JsonResumeBasics::decode(x) {
                Ok(v) => Some(v),
                Err(e) => return Err(e),
            },
        };
        let work = match get_given(j, "work") {
            None => None,
            Some(x) => match JsonResumeWork::decode_list(x) {
                Ok(v) => Some(v),
                Err(e) => return Err(e),
            },
        };
        let volunteer = match get_given(j, "volunteer") {
            None => None,
            Some(x) => match JsonResumeVolunteer::decode_list(x) {
                Ok(v) => Some(v),
                Err(e) => return Err(e),
            },
        };
        let education = match get_given(j, "education") {
            None => None,
            Some(x) => match JsonResumeEducation::decode_list(x) {
                Ok(v) => Some(v),
                Err(e) => return Err(e),
            },
        };
        let awards = match get_given(j, "awards") {
            None => None,
            Some(x) => match JsonResumeAward::decode_list(x) {
                Ok(v) => Some(v),
                Err(e) => return Err(e),
            },
        };
        let certificates = match get_given(j, "certificates") {
            None => None,
            Some(x) => match JsonResumeCertificate::decode_list(x) {
                Ok(v) => Some(v),
                Err(e) => return Err(e),
            },
        };
        let publications = match get_given(j, "publications") {
            None => None,
            Some(x) => match JsonResumePublication::decode_list(x) {
                Ok(v) => Some(v),
                Err(e) => return Err(e),
            },
        };
        let skills = match get_given(j, "skills") {
            None => None,
            Some(x) => match JsonResumeSkill::decode_list(x) {
                Ok(v) => Some(v),
                Err(e) => return Err(e),
            },
        };
        let languages = match get_given(j, "languages") {
            None => None,
            Some(x) => match JsonResumeLanguage::decode_list(x) {
                Ok(v) => Some(v),
                Err(e) => return Err(e),
            },
        };
        let interests = match get_given(j, "interests") {
            None => None,
            Some(x) => match JsonResumeInterest::decode_list(x) {
                Ok(v) => Some(v),
                Err(e) => return Err(e),
            },
        };
        let references = match get_given(j, "references") {
            None => None,
            Some(x) => match JsonResumeReference::decode_list(x) {
                Ok(v) => Some(v),
                Err(e) => return Err(e),
            },
        };
        let projects = match get_given(j, "projects") {
            None => None,
            Some(x) => match JsonResumeProject::decode_list(x) {
                Ok(v) => Some(v),
                Err(e) => return Err(e),
            },
        };
        Ok(JsonResume { basics, work, volunteer, education, awards, certificates, publications, skills, languages, interests, references, projects })
    }
}

} // verus!
