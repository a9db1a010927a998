//! What the surfaces share: how an error is answered, which formats are
//! taken, and what is told of the templates.

use vstd::prelude::*;
use crate::json::{json_reading, member, read_json, get_member, Json};
use crate::render::engine::{get_template_theme, template_names, templates, theme_of, TemplateTheme};
use crate::parser::json_resume;
use crate::parser::json_resume_shape::JsonResume;
use crate::parser::linkedin;
use crate::parser::linkedin_shape::LinkedInData;
use crate::parser::reactive_resume_v3;
use crate::parser::reactive_resume_v3_shape::V3Resume;
use crate::parser::traits::{ParseError, Parser};
use crate::parser::archive::zip_count;
use crate::schema::items::{Education, Experience, Skill};
use crate::schema::resume::ResumeData;
use crate::schema::sections::Section;
use crate::schema::shared::Url;
use crate::schema::validation::{FieldError, ValidationErrors};
use crate::utils::id::id_shaped;
use crate::search::{ends_with, ends_with_text};
use crate::text::{chars_of, owned, push_all, push_str, same_text, string_of, texts};
use crate::numeral::parse_decimal_text;
use crate::utils::string::{to_uppercase, uppercase_of};

verus! {

/// The largest body of a request, in bytes: 10 MiB.
pub const MAX_BODY_SIZE: usize = 10485760;

/// The port that the service listens on unless another is set.
pub const DEFAULT_PORT: u16 = 3000;

/// How an error is answered.
#[derive(Debug, Clone, Copy, PartialEq, Eq, Structural)]
pub enum ApiErrorKind {
    /// The input is malformed.
    BadRequest,
    /// The document does not meet the rules.
    UnprocessableEntity,
    /// Rendering failed.
    InternalError,
}

impl ApiErrorKind {
    /// The status of the answer: 400, 422 or 500.
    pub fn status_code(self) -> (r: u16)
        ensures
            r == match self {
                ApiErrorKind::BadRequest => 400u16,
                ApiErrorKind::UnprocessableEntity => 422u16,
                ApiErrorKind::InternalError => 500u16,
            },
    {
        match self {
            ApiErrorKind::BadRequest => 400,
            ApiErrorKind::UnprocessableEntity => 422,
            ApiErrorKind::InternalError => 500,
        }
    }
}

/// An error as it is answered: what went wrong, the details where there
/// are any, and how it is answered.
#[derive(Debug, Clone)]
pub struct ApiError {
    pub error: String,
    pub details: Option<Vec<String>>,
    pub kind: ApiErrorKind,
}

impl ApiError {
    /// An error of malformed input.
    pub fn new(error: &str) -> (r: ApiError)
        ensures
            r.error@ == error@,
            r.details is None,
            r.kind == ApiErrorKind::BadRequest,
    {
        ApiError { error: owned(error), details: None, kind: ApiErrorKind::BadRequest }
    }

    /// An error of a document that does not meet the rules, with one
    /// detail for each rule.
    pub fn with_details(error: &str, details: Vec<String>) -> (r: ApiError)
        ensures
            r.error@ == error@,
            r.details == Some(details),
            r.kind == ApiErrorKind::UnprocessableEntity,
    {
        ApiError {
            error: owned(error),
            details: Some(details),
            kind: ApiErrorKind::UnprocessableEntity,
        }
    }

    /// An error of rendering.
    pub fn internal(error: &str) -> (r: ApiError)
        ensures
            r.error@ == error@,
            r.details is None,
            r.kind == ApiErrorKind::InternalError,
    {
        ApiError { error: owned(error), details: None, kind: ApiErrorKind::InternalError }
    }
}

/// A field error on one line: the path, a colon and a space, then the
/// rule's message, or its code where it has no message.
pub open spec fn error_line(e: FieldError) -> Seq<char> {
    e.path@ + ": "@ + match e.message {
        Some(m) => m@,
        None => e.code@,
    }
}

/// The lines of a list of field errors, in order.
pub open spec fn error_lines(errors: Seq<FieldError>) -> Seq<Seq<char>> {
    Seq::new(errors.len(), |i: int| error_line(errors[i]))
}

/// The rules that a document does not meet, one to a line.
pub fn validation_errors(errors: &ValidationErrors) -> (r: Vec<String>)
    ensures
        texts(r@) == error_lines(errors.errors@),
{
    let mut lines: Vec<String> = Vec::new();
    let mut i: usize = 0;
    while i < errors.errors.len()
        invariant
            i <= errors.errors@.len(),
            lines@.len() == i,
            forall|k: int| 0 <= k < i ==> lines@[k]@ == error_line(errors.errors@[k]),
        decreases errors.errors@.len() - i,
    {
        let e = &errors.errors[i];
        let mut out: Vec<char> = Vec::new();
        push_str(&mut out, e.path.as_str());
        push_str(&mut out, ": ");
        match &e.message {
            Some(m) => push_str(&mut out, m.as_str()),
            None => push_str(&mut out, e.code.as_str()),
        }
        assert(out@ =~= error_line(*e));
        lines.push(string_of(&out));
        i += 1;
    }
    assert(texts(lines@) =~= error_lines(errors.errors@));
    lines
}

/// A format that is taken.
#[derive(Debug, Clone, Copy, PartialEq, Eq, Structural)]
pub enum ParseFormat {
    /// The standard JSON résumé format.
    JsonResume,
    /// The social-network export.
    LinkedIn,
    /// The predecessor format.
    Rrv3,
    /// The canonical form.
    Rustume,
}

/// The format that a name stands for: `json-resume`, `linkedin`, `rrv3` or
/// `rustume`.
pub open spec fn format_of(name: Seq<char>) -> Option<ParseFormat> {
    if name == "json-resume"@ {
        Some(ParseFormat::JsonResume)
    } else if name == "linkedin"@ {
        Some(ParseFormat::LinkedIn)
    } else if name == "rrv3"@ {
        Some(ParseFormat::Rrv3)
    } else if name == "rustume"@ {
        Some(ParseFormat::Rustume)
    } else {
        None
    }
}

/// The format that a name stands for, if it is the name of one.
pub fn format_named(name: &str) -> (r: Option<ParseFormat>)
    ensures
        r == format_of(name@),
{
    if same_text(name, "json-resume") {
        Some(ParseFormat::JsonResume)
    } else if same_text(name, "linkedin") {
        Some(ParseFormat::LinkedIn)
    } else if same_text(name, "rrv3") {
        Some(ParseFormat::Rrv3)
    } else if same_text(name, "rustume") {
        Some(ParseFormat::Rustume)
    } else {
        None
    }
}

/// Whether an object has a member under the key, whatever its value.
pub open spec fn has_member(j: Json, key: Seq<char>) -> bool {
    member(j, key) is Some
}

/// The format that a JSON value is taken for: the predecessor format where
/// it has sections and metadata; else the standard format where its basics
/// have a label, the canonical form where they have a headline and no
/// label; and the standard format for every other value.
pub open spec fn format_of_json(j: Json) -> ParseFormat {
    if has_member(j, "sections"@) && has_member(j, "metadata"@) {
        ParseFormat::Rrv3
    } else {
        match member(j, "basics"@) {
            Some(b) => if has_member(b, "label"@) {
                ParseFormat::JsonResume
            } else if has_member(b, "headline"@) {
                ParseFormat::Rustume
            } else {
                ParseFormat::JsonResume
            },
            None => ParseFormat::JsonResume,
        }
    }
}

/// The format that a JSON value is taken for.
pub fn detect_json_format(j: &Json) -> (r: ParseFormat)
    ensures
        r == format_of_json(*j),
{
    if get_member(j, "sections").is_some() && get_member(j, "metadata").is_some() {
        return ParseFormat::Rrv3;
    }
    match get_member(j, "basics") {
        Some(b) => {
            if get_member(b, "label").is_some() {
                ParseFormat::JsonResume
            } else if get_member(b, "headline").is_some() {
                ParseFormat::Rustume
            } else {
                ParseFormat::JsonResume
            }
        },
        None => ParseFormat::JsonResume,
    }
}

/// The format that a file is taken for where none is named: an export
/// where its path ends in `.zip`; else what its JSON is taken for; nothing
/// where it is not JSON.
pub open spec fn detected_format(path: Seq<char>, data: Seq<u8>) -> Option<ParseFormat> {
    if ends_with(path, ".zip"@) {
        Some(ParseFormat::LinkedIn)
    } else {
        match json_reading(data) {
            Some(j) => Some(format_of_json(j)),
            None => None,
        }
    }
}

/// The format that a file is taken for where none is named.
pub fn detect_format(path: &str, data: &[u8]) -> (r: Option<ParseFormat>)
    ensures
        r == detected_format(path@, data@),
{
    if ends_with_text(path, ".zip") {
        return Some(ParseFormat::LinkedIn);
    }
    match read_json(data) {
        Ok(j) => Some(detect_json_format(&j)),
        Err(_) => None,
    }
}

/// The port that is set by a text, or the default where no text is given
/// or the text is no port.
pub open spec fn port_of(text: Option<Seq<char>>) -> u16 {
    match text {
        Some(t) => if crate::json::is_count(t, 65535) {
            crate::numeral::numeral_value(t) as u16
        } else {
            3000
        },
        None => 3000,
    }
}

/// The port to listen on. Only digits are taken for a port.
pub fn port_from(text: Option<&str>) -> (r: u16)
    ensures
        r == port_of(crate::utils::date::opt_str(text)),
{
    match text {
        Some(t) => match parse_decimal_text(t, 65535) {
            Some(n) => n as u16,
            None => 3000,
        },
        None => 3000,
    }
}

/// A template's name as it is shown: its first character in upper case.
pub open spec fn shown_name(slug: Seq<char>) -> Seq<char> {
    if slug.len() == 0 {
        Seq::empty()
    } else {
        uppercase_of(slug[0]) + slug.skip(1)
    }
}

/// A template's name as it is shown.
pub fn display_name(slug: &str) -> (r: String)
    ensures
        r@ == shown_name(slug@),
{
    let v = chars_of(slug);
    let mut out: Vec<char> = Vec::new();
    if v.len() > 0 {
        push_all(&mut out, &to_uppercase(v[0]));
        let mut i: usize = 1;
        let ghost head = out@;
        while i < v.len()
            invariant
                1 <= i <= v@.len(),
                out@ == head + v@.subrange(1, i as int),
            decreases v@.len() - i,
        {
            out.push(v[i]);
            i += 1;
        }
        assert(v@.subrange(1, v@.len() as int) =~= v@.skip(1));
    }
    string_of(&out)
}

/// What is told of a template: its name, the name as it is shown, and its
/// colours.
#[derive(Debug, Clone)]
pub struct TemplateInfo {
    pub id: String,
    pub name: String,
    pub theme: TemplateTheme,
}

/// What is told of each template, in the order of the catalogue.
pub fn list_templates() -> (r: Vec<TemplateInfo>)
    ensures
        r@.len() == template_names().len(),
        forall|i: int|
            0 <= i < r@.len() ==> {
                let info = #[trigger] r@[i];
                &&& info.id@ == template_names()[i]
                &&& info.name@ == shown_name(template_names()[i])
                &&& (info.theme.background@, info.theme.text@, info.theme.primary@) == theme_of(
                    template_names()[i],
                )
            },
{
    let all = templates();
    let mut out: Vec<TemplateInfo> = Vec::new();
    let mut i: usize = 0;
    while i < all.len()
        invariant
            i <= all@.len(),
            crate::utils::sanitize::strs(all@) == template_names(),
            out@.len() == i,
            forall|k: int|
                0 <= k < i ==> {
                    let info = #[trigger] out@[k];
                    &&& info.id@ == template_names()[k]
                    &&& info.name@ == shown_name(template_names()[k])
                    &&& (info.theme.background@, info.theme.text@, info.theme.primary@)
                        == theme_of(template_names()[k])
                },
        decreases all@.len() - i,
    {
        assert(crate::utils::sanitize::strs(all@)[i as int] == all@[i as int]@);
        out.push(
            TemplateInfo {
                id: owned(all[i]),
                name: display_name(all[i]),
                theme: get_template_theme(all[i]),
            },
        );
        i += 1;
    }
    out
}

/// Whether the item is the skill of the starter of that name and level.
pub open spec fn starter_skill(s: Skill, name: Seq<char>, level: u8) -> bool {
    &&& id_shaped(s.id@)
    &&& s.visible
    &&& s.name@ == name
    &&& s.description@.len() == 0
    &&& s.level == level
    &&& s.keywords@.len() == 0
}

/// Whether the document is the starter that a new file is filled with on
/// request: a software engineer by the name of Jane Doe, with a summary,
/// one position, one course of study and three skills. All of it is fixed
/// but the identifiers of the items.
pub open spec fn is_starter(doc: ResumeData) -> bool {
    let b = doc.basics;
    let s = doc.sections;
    &&& b.name@ == "Jane Doe"@
    &&& b.headline@ == "Software Engineer"@
    &&& b.email@ == "jane@example.com"@
    &&& b.phone@ == "+1-555-123-4567"@
    &&& b.location@ == "San Francisco, CA"@
    &&& b.url.label@.len() == 0
    &&& b.url.href@ == "https://janedoe.dev"@
    &&& b.custom_fields@.len() == 0
    &&& b.picture.url@.len() == 0
    &&& b.picture.plain()
    &&& s.summary.plain()
    &&& s.summary.content@
        == "Passionate software engineer with 5+ years of experience building web applications."@
    &&& s.experience.id@ == "experience"@
    &&& s.experience.name@ == "Experience"@
    &&& s.experience.plain()
    &&& s.experience.items@.len() == 1
    &&& ({
        let e = s.experience.items@[0];
        &&& id_shaped(e.id@)
        &&& e.visible
        &&& e.company@ == "Acme Corp"@
        &&& e.position@ == "Senior Software Engineer"@
        &&& e.location@ == "San Francisco, CA"@
        &&& e.date@ == "2020 - Present"@
        &&& e.summary@ == "Led development of customer-facing features."@
        &&& e.url.label@.len() == 0
        &&& e.url.href@.len() == 0
    })
    &&& s.education.id@ == "education"@
    &&& s.education.name@ == "Education"@
    &&& s.education.plain()
    &&& s.education.items@.len() == 1
    &&& ({
        let e = s.education.items@[0];
        &&& id_shaped(e.id@)
        &&& e.visible
        &&& e.institution@ == "University of Technology"@
        &&& e.area@ == "Computer Science"@
        &&& e.study_type@ == "Bachelor of Science"@
        &&& e.date@ == "2012 - 2016"@
        &&& e.score@.len() == 0
        &&& e.summary@.len() == 0
        &&& e.url.label@.len() == 0
        &&& e.url.href@.len() == 0
    })
    &&& s.skills.id@ == "skills"@
    &&& s.skills.name@ == "Skills"@
    &&& s.skills.plain()
    &&& s.skills.items@.len() == 3
    &&& starter_skill(s.skills.items@[0], "Rust"@, 4)
    &&& starter_skill(s.skills.items@[1], "TypeScript"@, 5)
    &&& starter_skill(s.skills.items@[2], "Python"@, 4)
    &&& s.projects.items@.len() == 0
    &&& s.profiles.items@.len() == 0
    &&& s.awards.items@.len() == 0
    &&& s.certifications.items@.len() == 0
    &&& s.publications.items@.len() == 0
    &&& s.languages.items@.len() == 0
    &&& s.interests.items@.len() == 0
    &&& s.volunteer.items@.len() == 0
    &&& s.references.items@.len() == 0
    &&& s.custom.entries@.len() == 0
    &&& doc.metadata.is_default()
}

fn skill_at(name: &str, level: u8) -> (r: Skill)
    requires
        level <= 5,
    ensures
        starter_skill(r, name@, level),
{
    Skill::new(name).with_level(level)
}

/// The document that a new file holds: the starter where a sample is asked
/// for, else an empty document.
pub fn new_resume(sample: bool) -> (doc: ResumeData)
    ensures
        sample ==> is_starter(doc),
        !sample ==> doc.is_blank(),
{
    let mut doc = ResumeData::new();
    if !sample {
        return doc;
    }
    doc.basics.name = owned("Jane Doe");
    doc.basics.headline = owned("Software Engineer");
    doc.basics.email = owned("jane@example.com");
    doc.basics.phone = owned("+1-555-123-4567");
    doc.basics.location = owned("San Francisco, CA");
    doc.basics.url = Url::new("https://janedoe.dev");
    doc.sections.summary.content = owned(
        "Passionate software engineer with 5+ years of experience building web applications.",
    );
    let mut experience: Section<Experience> = Section::new("experience", "Experience");
    let mut held = Experience::new("Acme Corp", "Senior Software Engineer");
    held.location = owned("San Francisco, CA");
    held.date = owned("2020 - Present");
    held.summary = owned("Led development of customer-facing features.");
    experience.add_item(held);
    doc.sections.experience = experience;
    let mut education: Section<Education> = Section::new("education", "Education");
    let mut study = Education::new("University of Technology", "Computer Science");
    study.study_type = owned("Bachelor of Science");
    study.date = owned("2012 - 2016");
    education.add_item(study);
    doc.sections.education = education;
    let mut skills: Section<Skill> = Section::new("skills", "Skills");
    skills.add_item(skill_at("Rust", 4));
    skills.add_item(skill_at("TypeScript", 5));
    skills.add_item(skill_at("Python", 4));
    doc.sections.skills = skills;
    doc
}

/// Whether `r` is what reading the bytes in a format gives: for each
/// format, what its adapter gives; for the canonical form, the document
/// that the JSON is.
pub open spec fn parsed_as(format: ParseFormat, data: Seq<u8>, r: Result<ResumeData, ParseError>) -> bool {
    match format {
        ParseFormat::JsonResume => match json_reading(data) {
            None => r matches Err(e) && e is ReadError,
            Some(j) => if JsonResume::admits(j) {
                r matches Ok(doc) && exists|t: JsonResume|
                    t.reads(j) && json_resume::document_from(t, doc)
            } else {
                r matches Err(e) && e is ValidationError
            },
        },
        ParseFormat::Rrv3 => match json_reading(data) {
            None => r matches Err(e) && e is ReadError,
            Some(j) => if V3Resume::admits(j) {
                r matches Ok(doc) && exists|t: V3Resume|
                    t.reads(j) && reactive_resume_v3::document_from(t, doc)
            } else {
                r matches Err(e) && e is ValidationError
            },
        },
        ParseFormat::LinkedIn => {
            &&& r is Ok <==> (zip_count(data) matches Some(n) && linkedin::entries_ok(data, n))
            &&& r matches Err(e) ==> e is ReadError
            &&& r matches Ok(doc) ==> exists|t: LinkedInData|
                linkedin::export_read(data, Ok(t)) && linkedin::document_from(t, doc)
        },
        ParseFormat::Rustume => match json_reading(data) {
            None => r matches Err(e) && e is ReadError,
            Some(j) => if ResumeData::admits(j) {
                r matches Ok(doc) && doc.reads(j)
            } else {
                r matches Err(e) && e is ValidationError
            },
        },
    }
}

/// Reads a document from bytes in the given format.
pub fn parse_as(format: ParseFormat, data: &[u8]) -> (r: Result<ResumeData, ParseError>)
    ensures
        parsed_as(format, data@, r),
{
    match format {
        ParseFormat::JsonResume => json_resume::JsonResumeParser.parse(data),
        ParseFormat::Rrv3 => reactive_resume_v3::ReactiveResumeV3Parser.parse(data),
        ParseFormat::LinkedIn => linkedin::LinkedInParser.parse(data),
        ParseFormat::Rustume => ResumeData::from_json_bytes(data),
    }
}

} // verus!
