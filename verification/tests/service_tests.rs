use rustume::schema::validation::Validate;
use rustume::schema::ResumeData;
use rustume::parser::ParseError;
use rustume::service::{
    detect_format, display_name, format_named, list_templates, new_resume, parse_as, port_from,
    validation_errors, ApiError, ApiErrorKind, ParseFormat, DEFAULT_PORT, MAX_BODY_SIZE,
};
use rustume::storage::{MemoryStorage, StorageError};
use rustume::thumbnail::{create_sample_resume, thumbnail_document, ThumbnailCache, ThumbnailStep};

#[test]
fn an_error_is_answered_by_its_kind() {
    let e = ApiError::new("bad");
    assert_eq!(e.error, "bad");
    assert!(e.details.is_none());
    assert_eq!(e.kind.status_code(), 400);
    let e = ApiError::with_details("Validation failed", vec!["a: b".to_string()]);
    assert_eq!(e.details, Some(vec!["a: b".to_string()]));
    assert_eq!(e.kind, ApiErrorKind::UnprocessableEntity);
    assert_eq!(e.kind.status_code(), 422);
    let e = ApiError::internal("boom");
    assert_eq!(e.kind.status_code(), 500);
    assert_eq!(MAX_BODY_SIZE, 10 * 1024 * 1024);
    assert_eq!(DEFAULT_PORT, 3000);
}

#[test]
fn broken_rules_are_told_one_to_a_line() {
    let mut resume = ResumeData::default();
    resume.basics.email = "nope".to_string();
    resume.sections.summary.columns = 9;
    let errors = resume.validate().unwrap_err();
    assert_eq!(
        validation_errors(&errors),
        vec!["basics.email: Must be a valid email address", "sections.summary.columns: range"]
    );
}

#[test]
fn formats_are_known_by_their_names() {
    assert_eq!(format_named("json-resume"), Some(ParseFormat::JsonResume));
    assert_eq!(format_named("linkedin"), Some(ParseFormat::LinkedIn));
    assert_eq!(format_named("rrv3"), Some(ParseFormat::Rrv3));
    assert_eq!(format_named("rustume"), Some(ParseFormat::Rustume));
    assert_eq!(format_named("JSON-RESUME"), None);
    assert_eq!(format_named(""), None);
}

#[test]
fn the_format_of_a_file_is_detected() {
    assert_eq!(detect_format("export.zip", b"anything"), Some(ParseFormat::LinkedIn));
    assert_eq!(
        detect_format("a.json", br#"{"sections":{},"metadata":{},"basics":{"label":"x"}}"#),
        Some(ParseFormat::Rrv3)
    );
    assert_eq!(
        detect_format("a.json", br#"{"basics":{"label":"x","headline":"y"}}"#),
        Some(ParseFormat::JsonResume)
    );
    assert_eq!(
        detect_format("a.json", br#"{"basics":{"headline":"y"},"sections":{}}"#),
        Some(ParseFormat::Rustume)
    );
    assert_eq!(detect_format("a.json", br#"{"basics":{}}"#), Some(ParseFormat::JsonResume));
    assert_eq!(detect_format("-", b"[]"), Some(ParseFormat::JsonResume));
    assert_eq!(detect_format("a.json", br#"{"sections":null,"metadata":null}"#), Some(ParseFormat::Rrv3));
    assert_eq!(detect_format("a.json", b"not json"), None);
    assert_eq!(detect_format("a.json", b"\xff\xfe"), None);
}

#[test]
fn the_port_is_read_or_defaulted() {
    assert_eq!(port_from(None), 3000);
    assert_eq!(port_from(Some("8080")), 8080);
    assert_eq!(port_from(Some("0")), 0);
    assert_eq!(port_from(Some("65535")), 65535);
    assert_eq!(port_from(Some("65536")), 3000);
    assert_eq!(port_from(Some("")), 3000);
    assert_eq!(port_from(Some("80a")), 3000);
    assert_eq!(port_from(Some("-1")), 3000);
    assert_eq!(port_from(Some("99999999999999999999999")), 3000);
}

#[test]
fn templates_are_told_with_their_names_and_colours() {
    let all = list_templates();
    assert_eq!(all.len(), 12);
    assert_eq!(all[0].id, "rhyhorn");
    assert_eq!(all[0].name, "Rhyhorn");
    assert_eq!(all[0].theme.primary, "#65a30d");
    assert_eq!(all[11].id, "onyx");
    assert_eq!(all[11].name, "Onyx");
    assert_eq!(all[11].theme.text, "#111827");
    assert_eq!(display_name(""), "");
    assert_eq!(display_name("ßeta"), "SSeta");
}

#[test]
fn the_sample_is_what_it_is_said_to_be() {
    let doc = create_sample_resume();
    assert_eq!(doc.basics.name, "John Doe");
    assert_eq!(doc.basics.url.label, "Portfolio");
    assert_eq!(doc.sections.experience.items.len(), 2);
    assert_eq!(doc.sections.experience.items[1].company, "StartupXYZ");
    assert_eq!(doc.sections.experience.items[1].date, "2017 - 2020");
    assert_eq!(doc.sections.education.items[0].score, "GPA: 3.9/4.0");
    assert_eq!(doc.sections.skills.items.len(), 4);
    assert_eq!(doc.sections.skills.items[2].name, "Node.js / Python");
    assert_eq!(doc.sections.skills.items[2].level, 4);
    assert_eq!(doc.sections.profiles.items[1].url.href, "https://linkedin.com/in/johndoe");
    assert_eq!(doc.sections.profiles.items[0].icon, "github");
    assert!(doc.validate().is_ok());

    let doc = thumbnail_document("kakuna");
    assert_eq!(doc.metadata.template, "kakuna");
    assert_eq!(doc.metadata.theme.primary, "#78716c");
    assert_eq!(doc.metadata.theme.text, "#422006");
    assert_eq!(doc.metadata.theme.background, "#ffffff");
    assert_eq!(doc.basics.name, "John Doe");
}

#[test]
fn a_thumbnail_is_rendered_once() {
    let mut cache = ThumbnailCache::new();
    assert!(matches!(cache.step("nope"), ThumbnailStep::NotFound));
    match cache.step("onyx") {
        ThumbnailStep::Render(doc) => assert_eq!(doc.metadata.template, "onyx"),
        other => panic!("{other:?}"),
    }
    cache.insert("onyx", vec![1, 2, 3]);
    cache.insert("ditto", vec![9]);
    assert!(matches!(cache.step("onyx"), ThumbnailStep::Cached(png) if png == vec![1, 2, 3]));
    cache.insert("onyx", vec![4]);
    assert_eq!(cache.get("onyx"), Some(&vec![4]));
    assert_eq!(cache.get("ditto"), Some(&vec![9]));
    assert_eq!(cache.get("gengar"), None);
    assert_eq!(cache.entries.len(), 2);
}

#[test]
fn test_memory_storage_new() {
    let storage = MemoryStorage::new();
    assert!(storage.list().unwrap().is_empty());
}

#[test]
fn the_store_keeps_what_it_is_given() {
    let mut storage = MemoryStorage::default();
    assert!(storage.save("a", ResumeData::with_basics("A", "a@example.com")).is_ok());
    assert!(storage.save("b", ResumeData::with_basics("B", "b@example.com")).is_ok());
    assert_eq!(storage.list().unwrap(), vec!["a", "b"]);
    assert_eq!(storage.get("a").unwrap().basics.name, "A");
    assert!(storage.contains("b").unwrap());
    assert!(!storage.contains("c").unwrap());

    assert!(storage.save("a", ResumeData::with_basics("A2", "")).is_ok());
    assert_eq!(storage.list().unwrap(), vec!["a", "b"]);
    assert_eq!(storage.get("a").unwrap().basics.name, "A2");
    assert_eq!(storage.get("b").unwrap().basics.name, "B");

    let e = storage.get("c").unwrap_err();
    assert!(matches!(e, StorageError::NotFound(_)));
    assert_eq!(e.to_string(), "Not found: c");
    assert!(matches!(storage.delete("c"), Err(StorageError::NotFound(_))));
    assert!(storage.delete("a").is_ok());
    assert!(!storage.contains("a").unwrap());
    assert_eq!(storage.list().unwrap(), vec!["b"]);
    assert!(storage.delete("a").is_err());
    assert_eq!(StorageError::AlreadyExists("x".to_string()).to_string(), "Already exists: x");
    assert_eq!(StorageError::Internal("x".to_string()).to_string(), "Storage error: x");
}

#[test]
fn bytes_are_read_in_the_format_that_is_named() {
    let standard = br#"{"basics":{"name":"N","label":"L"}}"#;
    assert_eq!(parse_as(ParseFormat::JsonResume, standard).unwrap().basics.headline, "L");
    let predecessor = br#"{"basics":{"name":"N","headline":"H"}}"#;
    assert_eq!(parse_as(ParseFormat::Rrv3, predecessor).unwrap().basics.headline, "H");
    assert_eq!(parse_as(ParseFormat::Rustume, predecessor).unwrap().basics.headline, "H");
    assert_eq!(parse_as(ParseFormat::Rustume, standard).unwrap().basics.headline, "");
    assert!(matches!(parse_as(ParseFormat::LinkedIn, standard), Err(ParseError::ReadError(_))));
    assert!(matches!(
        parse_as(ParseFormat::Rustume, br#"{"basics":[]}"#),
        Err(ParseError::ValidationError(_))
    ));
}

#[test]
fn a_new_file_holds_the_starter_or_nothing() {
    let empty = new_resume(false);
    assert_eq!(empty.to_json_compact().unwrap(), ResumeData::default().to_json_compact().unwrap());
    let doc = new_resume(true);
    assert_eq!(doc.basics.name, "Jane Doe");
    assert_eq!(doc.basics.url.href, "https://janedoe.dev");
    assert_eq!(doc.sections.experience.id, "experience");
    assert_eq!(doc.sections.experience.items[0].company, "Acme Corp");
    assert_eq!(doc.sections.education.items[0].date, "2012 - 2016");
    let levels: Vec<u8> = doc.sections.skills.items.iter().map(|s| s.level).collect();
    assert_eq!(levels, vec![4, 5, 4]);
    assert!(doc.validate().is_ok());
}
