//! The document: basics, sections and metadata.

use vstd::prelude::*;
use crate::json_text::{json_pretty, ToJson};
use crate::schema::basics::Basics;
use crate::schema::metadata::Metadata;
use crate::schema::sections::Sections;
use crate::text::owned;

verus! {

/// A résumé in its canonical form.
#[derive(Debug, Clone)]
pub struct ResumeData {
    pub basics: Basics,
    pub sections: Sections,
    pub metadata: Metadata,
}

impl ResumeData {
    /// Whether the document is as it is made: nobody named, nothing in any
    /// section, the presentation that stands where none is set.
    pub open spec fn is_blank(self) -> bool {
        &&& self.basics.name@.len() == 0
        &&& self.basics.bare()
        &&& self.sections.is_blank()
        &&& self.sections.unnamed()
        &&& self.sections.custom.wf()
        &&& self.metadata.is_default()
    }

    /// An empty document.
    pub fn new() -> (r: ResumeData)
        ensures
            r.is_blank(),
    {
        ResumeData {
            basics: Basics::default(),
            sections: Sections::default(),
            metadata: Metadata::default(),
        }
    }

    /// An empty document for the subject of that name and e-mail address.
    pub fn with_basics(name: &str, email: &str) -> (r: ResumeData)
        ensures
            r.basics.name@ == name@,
            r.basics.email@ == email@,
            r == (ResumeData {
                basics: Basics { name: r.basics.name, email: r.basics.email, ..r.basics },
                ..r
            }),
            r.basics.headline@.len() == 0,
            r.basics.phone@.len() == 0,
            r.basics.location@.len() == 0,
            r.basics.url.href@.len() == 0,
            r.basics.custom_fields@.len() == 0,
            r.basics.picture.url@.len() == 0,
            r.sections.is_blank(),
            r.sections.unnamed(),
            r.metadata.is_default(),
    {
        let mut r = ResumeData::new();
        r.basics.name = owned(name);
        r.basics.email = owned(email);
        r
    }
}

impl Default for ResumeData {
    fn default() -> (r: ResumeData)
        ensures
            r.is_blank(),
    {
        ResumeData::new()
    }
}

impl ResumeData {
    /// The JSON of the document, laid out for reading. It is written
    /// exactly where each string of the document can be quoted and the
    /// JSON can be laid out.
    pub fn to_json(&self) -> (r: Result<String, String>)
        ensures
            match r {
                Ok(text) => self.writable() && json_pretty(self.json()) == Some(text@),
                Err(_) => !self.writable() || json_pretty(self.json()) is None,
            },
    {
        match crate::json_text::compact(self) {
            Ok(json) => crate::json_text::pretty(json.as_str()),
            Err(e) => Err(e),
        }
    }

    /// The JSON of the document, without any white space. It is written
    /// exactly where each string of the document can be quoted.
    pub fn to_json_compact(&self) -> (r: Result<String, String>)
        ensures
            match r {
                Ok(json) => self.writable() && json@ == self.json(),
                Err(_) => !self.writable(),
            },
    {
        crate::json_text::compact(self)
    }

    /// The bytes of the JSON of the document, laid out for reading: the
    /// text of `to_json` in UTF-8, where there is one.
    pub fn to_json_bytes(&self) -> (r: Result<Vec<u8>, String>)
        ensures
            match r {
                Ok(bytes) => self.writable() && exists|text: Seq<char>|
                    json_pretty(self.json()) == Some(text) && bytes@ == vstd::utf8::encode_utf8(
                        text,
                    ),
                Err(_) => !self.writable() || json_pretty(self.json()) is None,
            },
    {
        match self.to_json() {
            Ok(json) => {
                let bytes = vstd::slice::slice_to_vec(json.as_str().as_bytes());
                Ok(bytes)
            },
            Err(e) => Err(e),
        }
    }
}

} // verus!
