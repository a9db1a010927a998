use rustume::handlers::{
    parse_failure, parse_request, prepare_render, render_failure, render_request,
    template_not_found, validation_response, Artifact,
};
use rustume::json::read_json;
use rustume::parser::ParseError;
use rustume::render::RenderError;
use rustume::schema::ResumeData;
use rustume::service::{list_templates, ApiErrorKind, ParseFormat};
use std::io::{Cursor, Write};

#[test]
fn test_templates() {
    let templates = list_templates();

    assert!(!templates.is_empty());
    assert!(templates.iter().any(|t| t.id == "rhyhorn"));
}

#[test]
fn test_templates_returns_expected_count() {
    let templates = list_templates();

    assert_eq!(templates.len(), 12);
    assert!(templates.iter().any(|t| t.id == "rhyhorn"));
    assert!(templates.iter().any(|t| t.id == "azurill"));
    assert!(templates.iter().any(|t| t.id == "pikachu"));
    assert!(templates.iter().any(|t| t.id == "nosepass"));
    assert!(templates.iter().any(|t| t.id == "bronzor"));
    assert!(templates.iter().any(|t| t.id == "chikorita"));
    assert!(templates.iter().any(|t| t.id == "ditto"));
    assert!(templates.iter().any(|t| t.id == "gengar"));
    assert!(templates.iter().any(|t| t.id == "glalie"));
    assert!(templates.iter().any(|t| t.id == "kakuna"));
    assert!(templates.iter().any(|t| t.id == "leafish"));
    assert!(templates.iter().any(|t| t.id == "onyx"));
}

#[test]
fn main_test_validate_valid() {
    let resume = ResumeData::default();

    let result = validation_response(&resume);

    assert!(result.valid);
    assert!(result.errors.is_none());
}

#[test]
fn main_test_parse_json_resume() {
    let json_resume = r#"{
            "basics": {
                "name": "Test User",
                "label": "Developer",
                "email": "test@example.com"
            }
        }"#;

    let resume = parse_request(ParseFormat::JsonResume, json_resume, false).unwrap();

    assert_eq!(resume.basics.name, "Test User");
    assert_eq!(resume.basics.headline, "Developer");
}

#[test]
fn test_parse_rustume_format() {
    let resume = ResumeData::default();
    let data = resume.to_json_compact().unwrap();

    let parsed = parse_request(ParseFormat::Rustume, &data, false).unwrap();

    assert_eq!(parsed.basics.name, resume.basics.name);
}

#[test]
fn test_parse_invalid_json() {
    let error = parse_request(ParseFormat::JsonResume, "{ invalid json }", false).unwrap_err();

    assert_eq!(error.kind.status_code(), 400);
    assert!(error.error.contains("Failed to parse"));
}

#[test]
fn test_validate_invalid_email() {
    let mut resume = ResumeData::default();
    resume.basics.email = "invalid-email".to_string();

    let result = validation_response(&resume);

    assert!(!result.valid, "Expected validation to fail for invalid email");
    assert!(result.errors.is_some(), "Expected errors to be present");
    let errors = result.errors.unwrap();
    assert!(!errors.is_empty(), "Expected at least one error, got: {:?}", errors);
    assert_eq!(errors, vec!["basics.email: Must be a valid email address"]);
}

#[test]
fn a_request_in_base64_is_decoded_before_it_is_read() {
    let data = "eyJiYXNpY3MiOnsibmFtZSI6IkEiLCJsYWJlbCI6IkIifX0=";
    let doc = parse_request(ParseFormat::JsonResume, data, true).unwrap();
    assert_eq!(doc.basics.name, "A");
    assert_eq!(doc.basics.headline, "B");

    let as_text = parse_request(ParseFormat::JsonResume, data, false).unwrap_err();
    assert_eq!(as_text.kind, ApiErrorKind::BadRequest);
    assert!(as_text.error.starts_with("Failed to parse JSON Resume: Failed to read file: "));
}

#[test]
fn text_that_is_not_base64_is_malformed_input() {
    for data in ["!!!", "abc", "YQ=", "YQ==YQ=="] {
        let e = parse_request(ParseFormat::LinkedIn, data, true).unwrap_err();
        assert_eq!(e.kind.status_code(), 400);
        assert!(e.details.is_none());
        assert!(e.error.starts_with("Invalid base64: "), "{}", e.error);
        assert!(e.error.len() > "Invalid base64: ".len());
    }
    let e = parse_request(ParseFormat::LinkedIn, "", true).unwrap_err();
    assert!(e.error.starts_with("Failed to parse LinkedIn export: Failed to read file: "));
}

#[test]
fn an_export_is_read_from_base64() {
    let mut zip = zip::ZipWriter::new(Cursor::new(Vec::new()));
    let options = zip::write::SimpleFileOptions::default();
    zip.start_file("Profile.csv", options).unwrap();
    zip.write_all(b"First Name,Last Name,Headline\nJohn,Doe,Engineer\n").unwrap();
    let bytes = zip.finish().unwrap().into_inner();
    let data = base64::Engine::encode(&base64::engine::general_purpose::STANDARD, &bytes);

    let doc = parse_request(ParseFormat::LinkedIn, &data, true).unwrap();
    assert_eq!(doc.basics.name, "John Doe");
    assert_eq!(doc.basics.headline, "Engineer");
}

#[test]
fn each_format_has_its_own_words_for_a_failure() {
    let e = ParseError::ReadError("x".to_string());
    let a = parse_failure(ParseFormat::JsonResume, &e);
    assert_eq!(a.error, "Failed to parse JSON Resume: Failed to read file: x");
    assert_eq!(a.kind, ApiErrorKind::BadRequest);
    assert!(a.details.is_none());
    let e = ParseError::ValidationError("y".to_string());
    assert_eq!(
        parse_failure(ParseFormat::LinkedIn, &e).error,
        "Failed to parse LinkedIn export: Invalid format: y"
    );
    assert_eq!(
        parse_failure(ParseFormat::Rrv3, &e).error,
        "Failed to parse Reactive Resume v3: Invalid format: y"
    );
    assert_eq!(parse_failure(ParseFormat::Rustume, &e).error, "Failed to parse Rustume JSON: y");
}

#[test]
fn a_document_is_rendered_with_the_template_that_the_request_names() {
    let doc = prepare_render(ResumeData::default(), None).unwrap();
    assert_eq!(doc.metadata.template, "rhyhorn");
    let doc = prepare_render(ResumeData::default(), Some("onyx")).unwrap();
    assert_eq!(doc.metadata.template, "onyx");
    assert_eq!(doc.metadata.page.margin, ResumeData::default().metadata.page.margin);
    let doc = prepare_render(ResumeData::default(), Some("no-such-template")).unwrap();
    assert_eq!(doc.metadata.template, "no-such-template");
}

#[test]
fn a_document_that_breaks_a_rule_is_not_rendered() {
    let mut resume = ResumeData::default();
    resume.basics.email = "nope".to_string();
    resume.basics.url.href = "ftp://x".to_string();
    resume.metadata.theme.primary = "red".to_string();
    let e = prepare_render(resume, Some("onyx")).unwrap_err();
    assert_eq!(e.kind, ApiErrorKind::UnprocessableEntity);
    assert_eq!(e.kind.status_code(), 422);
    assert_eq!(e.error, "Validation failed");
    assert_eq!(
        e.details.unwrap(),
        vec![
            "basics.email: Must be a valid email address",
            "basics.url.href: Must be a valid HTTP(S) URL",
            "metadata.theme.primary: Must be a valid hex color (#RRGGBB)",
        ]
    );
}

#[test]
fn a_failure_of_the_renderer_is_an_error_of_the_service() {
    let e = RenderError::RenderFailed("Page 3 not found".to_string());
    let a = render_failure(Artifact::Preview, &e);
    assert_eq!(a.kind.status_code(), 500);
    assert!(a.details.is_none());
    assert_eq!(a.error, "Failed to render preview: Render failed: Page 3 not found");
    let e = RenderError::InvalidConfig("m".to_string());
    assert_eq!(render_failure(Artifact::Pdf, &e).error, "Failed to render PDF: Invalid configuration: m");
    assert_eq!(
        render_failure(Artifact::Thumbnail, &e).error,
        "Failed to render thumbnail: Invalid configuration: m"
    );
}

#[test]
fn a_template_that_is_not_in_the_catalogue_is_malformed_input() {
    let a = template_not_found("mew");
    assert_eq!(a.error, "Template 'mew' not found");
    assert_eq!(a.kind.status_code(), 400);
    assert!(a.details.is_none());
}

#[test]
fn a_request_to_render_sends_the_document_as_json() {
    let sent = read_json(br#"{"basics":{"name":"A"},"metadata":{"template":"pikachu"}}"#).unwrap();
    let doc = render_request(&sent, None).unwrap();
    assert_eq!(doc.basics.name, "A");
    assert_eq!(doc.metadata.template, "pikachu");
    let doc = render_request(&sent, Some("onyx")).unwrap();
    assert_eq!(doc.basics.name, "A");
    assert_eq!(doc.metadata.template, "onyx");

    let whole = read_json(ResumeData::default().to_json().unwrap().as_bytes()).unwrap();
    let doc = render_request(&whole, None).unwrap();
    assert_eq!(doc.to_json_compact().unwrap(), ResumeData::default().to_json_compact().unwrap());
}

#[test]
fn a_request_to_render_what_is_no_document_is_malformed() {
    for text in [r#"{"basics":3}"#, "[]", r#"{"sections":{"skills":{"items":[{"level":"high"}]}}}"#] {
        let sent = read_json(text.as_bytes()).unwrap();
        let e = render_request(&sent, Some("onyx")).unwrap_err();
        assert_eq!(e.kind.status_code(), 400, "{text}");
        assert!(e.details.is_none());
        assert!(e.error.starts_with("Invalid resume data: "), "{}", e.error);
        assert!(e.error.len() > "Invalid resume data: ".len());
    }
    let sent = read_json(br#"{"basics":{"email":"nope"}}"#).unwrap();
    let e = render_request(&sent, None).unwrap_err();
    assert_eq!(e.kind.status_code(), 422);
    assert_eq!(e.error, "Validation failed");
    assert_eq!(e.details.unwrap(), vec!["basics.email: Must be a valid email address"]);
}
