//! What the service answers to each request: the document, or the error
//! with the status that it is answered by.

use vstd::prelude::*;
use vstd::string::StringSliceAdditionalSpecFns;
use crate::json::Json;
use crate::parser::traits::ParseError;
use crate::render::traits::RenderError;
use crate::schema::metadata::Metadata;
use crate::schema::resume::ResumeData;
use crate::schema::validation::{all_said, FieldError, Validate, Violation};
use crate::search::starts_with;
use crate::service::{
    error_lines, parse_as, parsed_as, validation_errors, ApiError, ApiErrorKind, ParseFormat,
};
use crate::text::{owned, push_str, string_of, texts};
use crate::utils::date::opt_str;

verus! {

#[verifier::external_type_specification]
#[verifier::external_body]
pub struct ExDecodeError(base64::DecodeError);

/// The bytes that a text stands for in base64, with the standard alphabet
/// and padding; nothing where the text is not base64.
pub uninterp spec fn base64_decoded(text: Seq<char>) -> Option<Seq<u8>>;

/// Calls `base64::Engine::decode` on the engine
/// `base64::engine::general_purpose::STANDARD`. What it gives depends on
/// the text alone.
#[verifier::external_body]
fn decode_base64(text: &str) -> (r: Result<Vec<u8>, base64::DecodeError>)
    ensures
        match r {
            Ok(bytes) => base64_decoded(text@) == Some(bytes@),
            Err(_) => base64_decoded(text@) is None,
        },
{
    base64::Engine::decode(&base64::engine::general_purpose::STANDARD, text)
}

/// Calls `to_string` on a `base64::DecodeError`: the decoder's own words,
/// of which nothing is claimed.
#[verifier::external_body]
fn decode_error_text(e: &base64::DecodeError) -> (r: String) {
    e.to_string()
}

// ---------------------------------------------------------------------------
// Reading
// ---------------------------------------------------------------------------

/// The bytes of a request: what its text stands for in base64 where it
/// says that it is in base64, else the bytes of the text.
pub open spec fn request_bytes(data: &str, base64: bool) -> Option<Seq<u8>> {
    if base64 {
        base64_decoded(data@)
    } else {
        Some(data.spec_bytes())
    }
}

/// What is said before the reader's diagnostic for each format.
pub open spec fn failure_heading(format: ParseFormat) -> Seq<char> {
    match format {
        ParseFormat::JsonResume => "Failed to parse JSON Resume: "@,
        ParseFormat::LinkedIn => "Failed to parse LinkedIn export: "@,
        ParseFormat::Rrv3 => "Failed to parse Reactive Resume v3: "@,
        ParseFormat::Rustume => "Failed to parse Rustume JSON: "@,
    }
}

/// What is said of input that could not be read in a format: the heading
/// of the format, then the error of its adapter as one line. For the
/// canonical form, which has no adapter, the diagnostic alone follows.
pub open spec fn failure_text(format: ParseFormat, e: ParseError) -> Seq<char> {
    if format == ParseFormat::Rustume {
        failure_heading(format) + e.detail()
    } else {
        failure_heading(format) + (e.heading() + e.detail())
    }
}

/// The answer to input that could not be read in a format: it is
/// malformed.
pub fn parse_failure(format: ParseFormat, e: &ParseError) -> (r: ApiError)
    ensures
        r.kind == ApiErrorKind::BadRequest,
        r.details is None,
        r.error@ == failure_text(format, *e),
{
    let mut out: Vec<char> = Vec::new();
    match format {
        ParseFormat::JsonResume => push_str(&mut out, "Failed to parse JSON Resume: "),
        ParseFormat::LinkedIn => push_str(&mut out, "Failed to parse LinkedIn export: "),
        ParseFormat::Rrv3 => push_str(&mut out, "Failed to parse Reactive Resume v3: "),
        ParseFormat::Rustume => push_str(&mut out, "Failed to parse Rustume JSON: "),
    }
    assert(out@ =~= failure_heading(format));
    match format {
        ParseFormat::Rustume => match e {
            ParseError::ReadError(s) => push_str(&mut out, s.as_str()),
            ParseError::ValidationError(s) => push_str(&mut out, s.as_str()),
            ParseError::ConversionError(s) => push_str(&mut out, s.as_str()),
        },
        _ => {
            let line = e.to_string();
            push_str(&mut out, line.as_str());
        },
    }
    assert(out@ =~= failure_text(format, *e));
    let text = string_of(&out);
    ApiError::new(text.as_str())
}

/// Whether `r` answers a request to read `bytes` in a format: the document
/// that reading gives, or the answer to the error that it gives.
pub open spec fn answers_reading(
    format: ParseFormat,
    bytes: Seq<u8>,
    r: Result<ResumeData, ApiError>,
) -> bool {
    match r {
        Ok(doc) => parsed_as(format, bytes, Ok(doc)),
        Err(a) => {
            &&& a.kind == ApiErrorKind::BadRequest
            &&& a.details is None
            &&& exists|e: ParseError|
                parsed_as(format, bytes, Err(e)) && a.error@ == failure_text(format, e)
        },
    }
}

/// Answers a request to read a document: `data` is the input as text, in
/// base64 where `base64` says so, as it must be for an export, which is
/// no text. Text that is said to be in base64 and is not is malformed
/// input, and so is input that cannot be read in the format.
pub fn parse_request(format: ParseFormat, data: &str, base64: bool) -> (r: Result<
    ResumeData,
    ApiError,
>)
    ensures
        match request_bytes(data, base64) {
            None => r matches Err(a) && a.kind == ApiErrorKind::BadRequest && a.details is None
                && starts_with(a.error@, "Invalid base64: "@),
            Some(bytes) => answers_reading(format, bytes, r),
        },
{
    let parsed = if base64 {
        match decode_base64(data) {
            Ok(bytes) => parse_as(format, bytes.as_slice()),
            Err(e) => {
                let mut out: Vec<char> = Vec::new();
                push_str(&mut out, "Invalid base64: ");
                let ghost head = out@;
                let words = decode_error_text(&e);
                push_str(&mut out, words.as_str());
                assert(out@.subrange(0, head.len() as int) =~= head);
                let text = string_of(&out);
                return Err(ApiError::new(text.as_str()));
            },
        }
    } else {
        parse_as(format, data.as_bytes())
    };
    match parsed {
        Ok(doc) => Ok(doc),
        Err(e) => Err(parse_failure(format, &e)),
    }
}

// ---------------------------------------------------------------------------
// Validating
// ---------------------------------------------------------------------------

/// A violation on one line: the path, a colon and a space, then the
/// rule's message, or its code where it has no message.
pub open spec fn violation_line(v: Violation) -> Seq<char> {
    v.0 + ": "@ + match v.2 {
        Some(m) => m,
        None => v.1,
    }
}

/// The lines of some violations, in order.
pub open spec fn violation_lines(vs: Seq<Violation>) -> Seq<Seq<char>> {
    Seq::new(vs.len(), |i: int| violation_line(vs[i]))
}

/// The lines of some field errors are the lines of what they say.
pub proof fn lemma_error_lines(errors: Seq<FieldError>)
    ensures
        error_lines(errors) == violation_lines(all_said(errors)),
{
    assert(error_lines(errors) =~= violation_lines(all_said(errors)));
}

/// The answer to a request to hold a document against the rules.
#[derive(Debug, Clone)]
pub struct ValidationResponse {
    pub valid: bool,
    pub errors: Option<Vec<String>>,
}

/// The lines of an answer, where it has any.
pub open spec fn opt_lines(o: Option<Vec<String>>) -> Option<Seq<Seq<char>>> {
    match o {
        Some(v) => Some(texts(v@)),
        None => None,
    }
}

/// Holds a document against the rules and answers whether it meets them,
/// with one line for each rule that it does not meet.
pub fn validation_response(doc: &ResumeData) -> (r: ValidationResponse)
    ensures
        r.valid == doc.in_order(),
        opt_lines(r.errors) == if doc.in_order() {
            None
        } else {
            Some(violation_lines(doc.violations(Seq::empty())))
        },
{
    match doc.validate() {
        Ok(()) => ValidationResponse { valid: true, errors: None },
        Err(e) => {
            proof {
                lemma_error_lines(e.errors@);
            }
            ValidationResponse { valid: false, errors: Some(validation_errors(&e)) }
        },
    }
}

/// Whether `a` answers a document that does not meet the rules: the
/// document cannot be processed, and each rule that it does not meet is a
/// detail.
pub open spec fn refuses(doc: ResumeData, a: ApiError) -> bool {
    &&& a.kind == ApiErrorKind::UnprocessableEntity
    &&& a.error@ == "Validation failed"@
    &&& opt_lines(a.details) == Some(violation_lines(doc.violations(Seq::empty())))
}

/// Whether `out` is `doc` with the template that a request names, where
/// it names one.
pub open spec fn retemplated(doc: ResumeData, template: Option<Seq<char>>, out: ResumeData) -> bool {
    &&& out.basics == doc.basics
    &&& out.sections == doc.sections
    &&& out.metadata == (Metadata { template: out.metadata.template, ..doc.metadata })
    &&& out.metadata.template@ == match template {
        Some(t) => t,
        None => doc.metadata.template@,
    }
}

/// The document that a request to render asks for: the one it sends, with
/// the template that it names, where it names one. A document that does
/// not meet the rules is not rendered.
pub fn prepare_render(resume: ResumeData, template: Option<&str>) -> (r: Result<
    ResumeData,
    ApiError,
>)
    ensures
        match r {
            Ok(doc) => retemplated(resume, opt_str(template), doc) && doc.in_order(),
            Err(a) => exists|doc: ResumeData|
                retemplated(resume, opt_str(template), doc) && !doc.in_order() && refuses(doc, a),
        },
{
    let mut doc = resume;
    match template {
        Some(t) => {
            doc.metadata.template = owned(t);
        },
        None => {},
    }
    assert(retemplated(resume, opt_str(template), doc));
    match doc.validate() {
        Ok(()) => Ok(doc),
        Err(e) => {
            proof {
                lemma_error_lines(e.errors@);
            }
            let a = ApiError::with_details("Validation failed", validation_errors(&e));
            assert(refuses(doc, a));
            Err(a)
        },
    }
}

/// Whether `r` answers a request to render the document that `resume` is,
/// with the template that the request names: the document as it goes to
/// the renderer, or the answer to one that does not meet the rules.
pub open spec fn answers_render(
    resume: Json,
    template: Option<Seq<char>>,
    r: Result<ResumeData, ApiError>,
) -> bool {
    exists|sent: ResumeData, doc: ResumeData|
        {
            &&& sent.reads(resume)
            &&& retemplated(sent, template, doc)
            &&& match r {
                Ok(out) => out == doc && doc.in_order(),
                Err(a) => !doc.in_order() && refuses(doc, a),
            }
        }
}

/// Answers a request to render: reads the document that the request
/// sends as JSON, gives it the template that the request names, and holds
/// it against the rules. JSON that is no document is malformed input.
pub fn render_request(resume: &Json, template: Option<&str>) -> (r: Result<ResumeData, ApiError>)
    ensures
        !ResumeData::admits(*resume) ==> (r matches Err(a) && a.kind == ApiErrorKind::BadRequest
            && a.details is None && starts_with(a.error@, "Invalid resume data: "@)),
        ResumeData::admits(*resume) ==> answers_render(*resume, opt_str(template), r),
{
    match ResumeData::decode(resume) {
        Ok(sent) => {
            let r = prepare_render(sent, template);
            proof {
                let doc = if r is Ok {
                    r->Ok_0
                } else {
                    choose|doc: ResumeData|
                        retemplated(sent, opt_str(template), doc) && !doc.in_order() && refuses(
                            doc,
                            r->Err_0,
                        )
                };
                assert(sent.reads(*resume) && retemplated(sent, opt_str(template), doc));
            }
            r
        },
        Err(e) => {
            let mut out: Vec<char> = Vec::new();
            push_str(&mut out, "Invalid resume data: ");
            let ghost head = out@;
            match &e {
                ParseError::ReadError(s) => push_str(&mut out, s.as_str()),
                ParseError::ValidationError(s) => push_str(&mut out, s.as_str()),
                ParseError::ConversionError(s) => push_str(&mut out, s.as_str()),
            }
            assert(out@.subrange(0, head.len() as int) =~= head);
            let text = string_of(&out);
            Err(ApiError::new(text.as_str()))
        },
    }
}

// ---------------------------------------------------------------------------
// Rendering
// ---------------------------------------------------------------------------

/// What a request asks the renderer for.
#[derive(Debug, Clone, Copy, PartialEq, Eq, Structural)]
pub enum Artifact {
    /// The document as PDF.
    Pdf,
    /// The image of a page.
    Preview,
    /// The image that stands for a template.
    Thumbnail,
}

/// What is said before the renderer's error for each artifact.
pub open spec fn render_heading(what: Artifact) -> Seq<char> {
    match what {
        Artifact::Pdf => "Failed to render PDF: "@,
        Artifact::Preview => "Failed to render preview: "@,
        Artifact::Thumbnail => "Failed to render thumbnail: "@,
    }
}

/// The answer to a failure of the renderer: an error of the service, not of
/// the request.
pub fn render_failure(what: Artifact, e: &RenderError) -> (r: ApiError)
    ensures
        r.kind == ApiErrorKind::InternalError,
        r.details is None,
        r.error@ == render_heading(what) + (e.heading() + e.detail()),
{
    let mut out: Vec<char> = Vec::new();
    match what {
        Artifact::Pdf => push_str(&mut out, "Failed to render PDF: "),
        Artifact::Preview => push_str(&mut out, "Failed to render preview: "),
        Artifact::Thumbnail => push_str(&mut out, "Failed to render thumbnail: "),
    }
    assert(out@ =~= render_heading(what));
    let line = e.to_string();
    push_str(&mut out, line.as_str());
    let text = string_of(&out);
    ApiError::internal(text.as_str())
}

/// The answer to a request for the thumbnail of a template that the
/// catalogue does not have.
pub fn template_not_found(slug: &str) -> (r: ApiError)
    ensures
        r.kind == ApiErrorKind::BadRequest,
        r.details is None,
        r.error@ == "Template '"@ + slug@ + "' not found"@,
{
    let mut out: Vec<char> = Vec::new();
    push_str(&mut out, "Template '");
    push_str(&mut out, slug);
    push_str(&mut out, "' not found");
    let text = string_of(&out);
    ApiError::new(text.as_str())
}

} // verus!
