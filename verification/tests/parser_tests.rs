use rustume::parser::json_resume::{build_summary, fluency_to_level, level_of_lowered_fluency};
use rustume::parser::linkedin::{
    format_linkedin_date, format_linkedin_date_range, level_of_lowered_proficiency,
    proficiency_to_level,
};
use rustume::parser::{
    JsonResumeParser, LinkedInParser, ParseError, Parser, ReactiveResumeV3Parser, V3Summary, V3Url,
};
use rustume::schema::validation::Validate;
use rustume::schema::PageFormat;
use std::io::{Cursor, Write};

const MINIMAL_JSON: &str = r#"{
    "basics": {
        "name": "John Doe",
        "label": "Software Engineer",
        "email": "john@example.com"
    }
}"#;

const FULL_JSON: &str = r#"{
    "basics": {
        "name": "Jane Smith",
        "label": "Senior Developer",
        "email": "jane@example.com",
        "phone": "+1-555-123-4567",
        "url": "https://janesmith.io",
        "summary": "Experienced software engineer.",
        "location": {
            "city": "San Francisco",
            "region": "CA",
            "countryCode": "US"
        },
        "profiles": [
            {
                "network": "GitHub",
                "username": "janesmith",
                "url": "https://github.com/janesmith"
            }
        ]
    },
    "work": [
        {
            "name": "Tech Corp",
            "position": "Senior Developer",
            "startDate": "2020-01-01",
            "endDate": "2024-01-01",
            "summary": "Led development team.",
            "highlights": ["Reduced latency by 40%", "Mentored junior devs"]
        }
    ],
    "education": [
        {
            "institution": "MIT",
            "area": "Computer Science",
            "studyType": "Bachelor",
            "startDate": "2013-09-01",
            "endDate": "2017-05-31",
            "score": "3.9 GPA"
        }
    ],
    "skills": [
        {
            "name": "Backend",
            "level": "Expert",
            "keywords": ["Rust", "Go", "Python"]
        }
    ],
    "languages": [
        {"language": "English", "fluency": "Native"},
        {"language": "Spanish", "fluency": "Intermediate"}
    ]
}"#;

#[test]
fn test_parse_minimal() {
    let parser = JsonResumeParser;
    let result = parser.parse(MINIMAL_JSON.as_bytes()).unwrap();

    assert_eq!(result.basics.name, "John Doe");
    assert_eq!(result.basics.headline, "Software Engineer");
    assert_eq!(result.basics.email, "john@example.com");
}

#[test]
fn a_minimal_resume_leaves_every_section_empty() {
    let doc = JsonResumeParser
        .parse(br#"{"basics":{"name":"John Doe","label":"Software Engineer","email":"john@example.com"}}"#)
        .unwrap();
    assert_eq!(doc.basics.name, "John Doe");
    assert_eq!(doc.basics.headline, "Software Engineer");
    assert_eq!(doc.basics.email, "john@example.com");
    assert!(doc.sections.summary.content.is_empty());
    assert!(doc.sections.experience.items.is_empty());
    assert!(doc.sections.education.items.is_empty());
    assert!(doc.sections.skills.items.is_empty());
    assert!(doc.sections.projects.items.is_empty());
    assert!(doc.sections.profiles.items.is_empty());
    assert!(doc.sections.awards.items.is_empty());
    assert!(doc.sections.certifications.items.is_empty());
    assert!(doc.sections.publications.items.is_empty());
    assert!(doc.sections.languages.items.is_empty());
    assert!(doc.sections.interests.items.is_empty());
    assert!(doc.sections.volunteer.items.is_empty());
    assert!(doc.sections.references.items.is_empty());
    assert!(doc.sections.custom.is_empty());
    assert!(doc.validate().is_ok());
}

#[test]
fn test_parse_full() {
    let parser = JsonResumeParser;
    let result = parser.parse(FULL_JSON.as_bytes()).unwrap();

    assert_eq!(result.basics.name, "Jane Smith");
    assert_eq!(result.basics.location, "San Francisco, CA, US");

    assert_eq!(result.sections.profiles.len(), 1);
    assert_eq!(result.sections.profiles.items[0].network, "GitHub");

    assert_eq!(result.sections.experience.len(), 1);
    assert_eq!(result.sections.experience.items[0].company, "Tech Corp");
    assert!(result.sections.experience.items[0].summary.contains("Reduced latency"));

    assert_eq!(result.sections.education.len(), 1);
    assert_eq!(result.sections.education.items[0].institution, "MIT");

    assert_eq!(result.sections.skills.len(), 1);
    assert_eq!(result.sections.skills.items[0].keywords.len(), 3);

    assert_eq!(result.sections.languages.len(), 2);
    assert_eq!(result.sections.languages.items[0].level, 5);
    assert_eq!(result.sections.languages.items[1].level, 2);
}

#[test]
fn the_full_resume_is_converted_field_by_field() {
    let doc = JsonResumeParser.parse(FULL_JSON.as_bytes()).unwrap();
    assert_eq!(doc.basics.headline, "Senior Developer");
    assert_eq!(doc.basics.phone, "+1-555-123-4567");
    assert_eq!(doc.basics.url.href, "https://janesmith.io");
    assert_eq!(doc.basics.url.label, "");
    assert_eq!(doc.sections.summary.content, "Experienced software engineer.");
    assert_eq!(doc.sections.profiles.id, "profiles");
    assert_eq!(doc.sections.profiles.name, "Profiles");
    assert_eq!(doc.sections.profiles.items[0].icon, "github");
    assert_eq!(doc.sections.profiles.items[0].url.href, "https://github.com/janesmith");
    let work = &doc.sections.experience.items[0];
    assert_eq!(work.position, "Senior Developer");
    assert_eq!(work.date, "2020-01-01 - 2024-01-01");
    assert_eq!(
        work.summary,
        "Led development team.\n\n\u{2022} Reduced latency by 40%\n\u{2022} Mentored junior devs"
    );
    let study = &doc.sections.education.items[0];
    assert_eq!(study.area, "Computer Science");
    assert_eq!(study.study_type, "Bachelor");
    assert_eq!(study.date, "2013-09-01 - 2017-05-31");
    assert_eq!(study.score, "3.9 GPA");
    let skill = &doc.sections.skills.items[0];
    assert_eq!(skill.name, "Backend");
    assert_eq!(skill.description, "Expert");
    assert_eq!(skill.level, 1);
    assert_eq!(skill.keywords, vec!["Rust", "Go", "Python"]);
    assert_eq!(doc.sections.languages.items[0].description, "Native");
    assert_eq!(doc.sections.languages.items[1].name, "Spanish");
    assert_eq!(doc.metadata.template, "rhyhorn");
    assert!(doc.validate().is_ok());
}

#[test]
fn test_fluency_to_level() {
    assert_eq!(fluency_to_level("Native speaker"), 5);
    assert_eq!(fluency_to_level("Bilingual"), 5);
    assert_eq!(fluency_to_level("Fluent"), 4);
    assert_eq!(fluency_to_level("Professional working proficiency"), 4);
    assert_eq!(fluency_to_level("Advanced"), 3);
    assert_eq!(fluency_to_level("Intermediate"), 2);
    assert_eq!(fluency_to_level("Elementary"), 1);
    assert_eq!(fluency_to_level("Unknown"), 0);
}

#[test]
fn fluency_in_lower_case_decides_the_level() {
    assert_eq!(level_of_lowered_fluency("native"), 5);
    assert_eq!(level_of_lowered_fluency("working"), 2);
    assert_eq!(level_of_lowered_fluency("basic"), 1);
    assert_eq!(level_of_lowered_fluency("beginner"), 1);
    assert_eq!(level_of_lowered_fluency("Native"), 0);
    assert_eq!(level_of_lowered_fluency(""), 0);
    assert_eq!(fluency_to_level("WORKING knowledge"), 2);
}

#[test]
fn test_build_summary() {
    let highlights = vec!["Point 1".to_string()];
    let summary = build_summary(Some("Main summary"), Some(&highlights));
    assert!(summary.contains("Main summary"));
    assert!(summary.contains("• Point 1"));
}

#[test]
fn a_summary_leaves_out_what_is_empty() {
    let two = vec!["a".to_string(), "b".to_string()];
    let none: Vec<String> = Vec::new();
    assert_eq!(build_summary(Some("S"), Some(&two)), "S\n\n• a\n• b");
    assert_eq!(build_summary(Some(""), Some(&two)), "• a\n• b");
    assert_eq!(build_summary(None, Some(&two)), "• a\n• b");
    assert_eq!(build_summary(Some("S"), Some(&none)), "S");
    assert_eq!(build_summary(Some("S"), None), "S");
    assert_eq!(build_summary(None, None), "");
}

fn languages_zip(proficiency: &str) -> Vec<u8> {
    let mut buffer = Vec::new();
    {
        let writer = Cursor::new(&mut buffer);
        let mut zip = zip::ZipWriter::new(writer);
        let options = zip::write::SimpleFileOptions::default();
        zip.start_file("Languages.csv", options).unwrap();
        zip.write_all(b"Name,Proficiency\n").unwrap();
        zip.write_all(format!("Test Language,{}\n", proficiency).as_bytes()).unwrap();
        zip.finish().unwrap();
    }
    buffer
}

fn create_test_zip() -> Vec<u8> {
    let mut buffer = Vec::new();
    {
        let mut zip = zip::ZipWriter::new(Cursor::new(&mut buffer));
        let options = zip::write::SimpleFileOptions::default()
            .compression_method(zip::CompressionMethod::Stored);

        zip.start_file("Profile.csv", options).unwrap();
        zip.write_all(b"First Name,Last Name,Headline,Summary,Geo Location\n").unwrap();
        zip.write_all(b"John,Doe,Senior Software Engineer,Passionate developer with 10 years of experience.,San Francisco Bay Area\n").unwrap();

        zip.start_file("Positions.csv", options).unwrap();
        zip.write_all(b"Company Name,Title,Description,Location,Started On,Finished On\n").unwrap();
        zip.write_all(b"Acme Corp,Senior Engineer,Led development of core platform,San Francisco,Jan 2020,\n").unwrap();
        zip.write_all(b"StartupXYZ,Software Developer,Full stack development,New York,Jun 2017,Dec 2019\n").unwrap();

        zip.start_file("Education.csv", options).unwrap();
        zip.write_all(b"School Name,Degree Name,Field of Study,Start Date,End Date\n").unwrap();
        zip.write_all(b"Stanford University,Bachelor of Science,Computer Science,2013,2017\n").unwrap();

        zip.start_file("Skills.csv", options).unwrap();
        zip.write_all(b"Name\n").unwrap();
        zip.write_all(b"Rust\n").unwrap();
        zip.write_all(b"TypeScript\n").unwrap();
        zip.write_all(b"Python\n").unwrap();

        zip.start_file("Languages.csv", options).unwrap();
        zip.write_all(b"Name,Proficiency\n").unwrap();
        zip.write_all(b"English,Native or Bilingual Proficiency\n").unwrap();
        zip.write_all(b"Spanish,Professional Working Proficiency\n").unwrap();

        zip.start_file("Email Addresses.csv", options).unwrap();
        zip.write_all(b"Email Address\n").unwrap();
        zip.write_all(b"john.doe@example.com\n").unwrap();

        zip.finish().unwrap();
    }
    buffer
}

#[test]
fn test_parse_linkedin_zip() {
    let zip_data = create_test_zip();
    let parser = LinkedInParser;

    let result = parser.parse(&zip_data);
    assert!(result.is_ok(), "Failed to parse: {:?}", result.err());

    let resume = result.unwrap();

    assert_eq!(resume.basics.name, "John Doe");
    assert_eq!(resume.basics.headline, "Senior Software Engineer");
    assert_eq!(resume.basics.email, "john.doe@example.com");
    assert_eq!(resume.basics.location, "San Francisco Bay Area");

    assert!(resume.sections.summary.content.contains("Passionate developer"));

    assert_eq!(resume.sections.experience.items.len(), 2);
    assert_eq!(resume.sections.education.items.len(), 1);
    assert!(!resume.sections.skills.items.is_empty());
    assert_eq!(resume.sections.languages.items.len(), 2);
}

#[test]
fn the_export_is_converted_field_by_field() {
    let doc = LinkedInParser.parse(&create_test_zip()).unwrap();
    let first = &doc.sections.experience.items[0];
    assert_eq!(first.company, "Acme Corp");
    assert_eq!(first.position, "Senior Engineer");
    assert_eq!(first.summary, "Led development of core platform");
    assert_eq!(first.location, "San Francisco");
    assert_eq!(first.date, "Jan 2020 - Present");
    assert_eq!(doc.sections.experience.items[1].date, "Jun 2017 - Dec 2019");
    let study = &doc.sections.education.items[0];
    assert_eq!(study.institution, "Stanford University");
    assert_eq!(study.study_type, "Bachelor of Science");
    assert_eq!(study.area, "Computer Science");
    assert_eq!(study.date, "2013 - 2017");
    assert_eq!(doc.sections.skills.items.len(), 1);
    assert_eq!(doc.sections.skills.items[0].name, "Technical Skills");
    assert_eq!(doc.sections.skills.items[0].keywords, vec!["Rust", "TypeScript", "Python"]);
    assert_eq!(doc.sections.languages.items[0].level, 5);
    assert_eq!(doc.sections.languages.items[1].level, 4);
    assert_eq!(doc.sections.languages.items[1].description, "Professional Working Proficiency");
    assert_eq!(doc.sections.profiles.items.len(), 1);
    assert_eq!(doc.sections.profiles.items[0].network, "LinkedIn");
    assert_eq!(doc.sections.profiles.items[0].icon, "linkedin");
    assert_eq!(doc.sections.profiles.items[0].url.href, "https://linkedin.com/in/");
    assert!(doc.validate().is_ok());
}

#[test]
fn skills_come_in_groups_of_ten() {
    let mut buffer = Vec::new();
    {
        let mut zip = zip::ZipWriter::new(Cursor::new(&mut buffer));
        let options = zip::write::SimpleFileOptions::default();
        zip.start_file("skills.CSV", options).unwrap();
        zip.write_all(b"Name\n").unwrap();
        for i in 0..23 {
            zip.write_all(format!("s{}\n", i).as_bytes()).unwrap();
        }
        zip.add_directory("dir.csv", options).unwrap();
        zip.start_file("notes.txt", options).unwrap();
        zip.write_all(b"\xff\xfe not text").unwrap();
        zip.finish().unwrap();
    }
    let doc = LinkedInParser.parse(&buffer).unwrap();
    let skills = &doc.sections.skills;
    assert_eq!(skills.id, "skills");
    assert_eq!(skills.items.len(), 3);
    assert_eq!(skills.items[0].name, "Technical Skills");
    assert_eq!(skills.items[1].name, "Additional Skills");
    assert_eq!(skills.items[2].name, "Additional Skills");
    assert_eq!(skills.items[0].keywords.len(), 10);
    assert_eq!(skills.items[1].keywords[0], "s10");
    assert_eq!(skills.items[2].keywords, vec!["s20", "s21", "s22"]);
    assert!(doc.sections.experience.items.is_empty());
    assert_eq!(doc.sections.experience.id, "");
}

#[test]
fn a_csv_file_that_is_not_text_is_a_read_error() {
    let mut buffer = Vec::new();
    {
        let mut zip = zip::ZipWriter::new(Cursor::new(&mut buffer));
        let options = zip::write::SimpleFileOptions::default();
        zip.start_file("Skills.csv", options).unwrap();
        zip.write_all(b"Name\n\xff\xfe\n").unwrap();
        zip.finish().unwrap();
    }
    assert!(matches!(LinkedInParser.parse(&buffer), Err(ParseError::ReadError(_))));
}

#[test]
fn test_proficiency_to_level() {
    assert_eq!(proficiency_to_level("Native or Bilingual Proficiency"), 5);
    assert_eq!(proficiency_to_level("Professional Working Proficiency"), 4);
    assert_eq!(proficiency_to_level("Limited Working Proficiency"), 3);
    assert_eq!(proficiency_to_level("Elementary Proficiency"), 2);
    assert_eq!(proficiency_to_level("Unknown"), 3);
}

#[test]
fn proficiency_in_lower_case_decides_the_level() {
    assert_eq!(level_of_lowered_proficiency("full professional"), 5);
    assert_eq!(level_of_lowered_proficiency("fluent"), 4);
    assert_eq!(level_of_lowered_proficiency("intermediate"), 3);
    assert_eq!(level_of_lowered_proficiency("basic"), 2);
    assert_eq!(level_of_lowered_proficiency("Native"), 3);
    assert_eq!(level_of_lowered_proficiency(""), 3);
}

#[test]
fn test_format_linkedin_date_range() {
    assert_eq!(
        format_linkedin_date_range(Some("Jan 2020"), Some("Dec 2022")),
        "Jan 2020 - Dec 2022"
    );
    assert_eq!(format_linkedin_date_range(Some("Jan 2020"), None), "Jan 2020 - Present");
    assert_eq!(format_linkedin_date_range(None, Some("Dec 2022")), "Dec 2022");
    assert_eq!(format_linkedin_date_range(None, None), "");
    assert_eq!(format_linkedin_date(Some("  2020 ")), "2020");
    assert_eq!(format_linkedin_date(None), "");
}

#[test]
fn test_parse_v3_resume() {
    let json = r##"{
        "id": "test-resume-id",
        "name": "My Resume",
        "basics": {
            "name": "John Doe",
            "headline": "Senior Software Engineer",
            "email": "john@example.com",
            "phone": "+1-555-123-4567",
            "location": "San Francisco, CA",
            "summary": {
                "body": "Experienced software engineer with 10+ years of experience.",
                "visible": true
            },
            "url": {
                "href": "https://johndoe.com",
                "label": "Portfolio"
            }
        },
        "sections": {
            "experience": {
                "id": "experience",
                "name": "Work Experience",
                "visible": true,
                "columns": 1,
                "items": [
                    {
                        "id": "exp-1",
                        "visible": true,
                        "company": "Acme Corp",
                        "position": "Senior Engineer",
                        "location": "San Francisco",
                        "date": "2020 - Present",
                        "summary": "Led development of core platform."
                    }
                ]
            },
            "education": {
                "id": "education",
                "name": "Education",
                "visible": true,
                "columns": 1,
                "items": [
                    {
                        "id": "edu-1",
                        "visible": true,
                        "institution": "Stanford University",
                        "area": "Computer Science",
                        "studyType": "Bachelor of Science",
                        "date": "2010 - 2014"
                    }
                ]
            },
            "skills": {
                "id": "skills",
                "name": "Skills",
                "visible": true,
                "columns": 2,
                "items": [
                    {
                        "id": "skill-1",
                        "visible": true,
                        "name": "Rust",
                        "level": 5,
                        "keywords": ["Systems", "WebAssembly"]
                    }
                ]
            },
            "profiles": { "items": [] },
            "languages": { "items": [] },
            "awards": { "items": [] },
            "certifications": { "items": [] },
            "interests": { "items": [] },
            "projects": { "items": [] },
            "publications": { "items": [] },
            "volunteer": { "items": [] },
            "references": { "items": [] },
            "custom": {}
        },
        "metadata": {
            "template": "rhyhorn",
            "theme": {
                "primary": "#dc2626",
                "background": "#ffffff",
                "text": "#000000"
            },
            "typography": {
                "font": {
                    "family": "IBM Plex Serif",
                    "size": 14
                },
                "lineHeight": 1.5
            },
            "page": {
                "format": "a4",
                "margin": 18
            }
        }
    }"##;

    let parser = ReactiveResumeV3Parser;
    let result = parser.parse(json.as_bytes());

    assert!(result.is_ok(), "Failed to parse: {:?}", result.err());

    let resume = result.unwrap();

    assert_eq!(resume.basics.name, "John Doe");
    assert_eq!(resume.basics.headline, "Senior Software Engineer");
    assert_eq!(resume.basics.email, "john@example.com");
    assert_eq!(resume.basics.location, "San Francisco, CA");
    assert_eq!(resume.basics.url.href, "https://johndoe.com");

    assert!(resume.sections.summary.content.contains("Experienced software engineer"));
    assert!(resume.sections.summary.visible);

    assert_eq!(resume.sections.experience.items.len(), 1);
    assert_eq!(resume.sections.experience.items[0].company, "Acme Corp");
    assert_eq!(resume.sections.experience.items[0].position, "Senior Engineer");

    assert_eq!(resume.sections.education.items.len(), 1);
    assert_eq!(resume.sections.education.items[0].institution, "Stanford University");

    assert_eq!(resume.sections.skills.items.len(), 1);
    assert_eq!(resume.sections.skills.items[0].name, "Rust");
    assert_eq!(resume.sections.skills.items[0].level, 5);
    assert_eq!(resume.sections.skills.items[0].keywords.len(), 2);

    assert_eq!(resume.metadata.template, "rhyhorn");
    assert_eq!(resume.metadata.theme.primary, "#dc2626");

    assert_eq!(resume.basics.url.label, "Portfolio");
    assert_eq!(resume.sections.experience.name, "Work Experience");
    assert_eq!(resume.sections.experience.items[0].id, "exp-1");
    assert_eq!(resume.sections.skills.columns, 2);
    assert_eq!(resume.sections.profiles.id, "profiles");
    assert_eq!(resume.sections.profiles.name, "Profiles");
    assert_eq!(resume.metadata.typography.line_height.text, "1.5");
    assert_eq!(resume.metadata.typography.font.subset, "latin");
    assert!(resume.metadata.layout.is_empty());
    assert!(resume.validate().is_ok());
}

const EMPTY_SECTIONS: &str = r#""sections": {
        "profiles": { "items": [] },
        "experience": { "items": [] },
        "education": { "items": [] },
        "skills": { "items": [] },
        "languages": { "items": [] },
        "awards": { "items": [] },
        "certifications": { "items": [] },
        "interests": { "items": [] },
        "projects": { "items": [] },
        "publications": { "items": [] },
        "volunteer": { "items": [] },
        "references": { "items": [] },
        "custom": {}
    },
    "metadata": {}"#;

#[test]
fn test_v3_summary_as_string() {
    let json = format!(
        r#"{{ "basics": {{ "name": "Jane Doe", "summary": "This is a plain string summary." }}, {} }}"#,
        EMPTY_SECTIONS
    );

    let parser = ReactiveResumeV3Parser;
    let result = parser.parse(json.as_bytes());

    assert!(result.is_ok());

    let resume = result.unwrap();
    assert_eq!(resume.sections.summary.content, "This is a plain string summary.");
}

#[test]
fn the_summary_is_taken_in_both_forms() {
    let doc = ReactiveResumeV3Parser
        .parse(br#"{"basics":{"summary":"Plain string summary"}}"#)
        .unwrap();
    assert_eq!(doc.sections.summary.content, "Plain string summary");
    assert!(doc.sections.summary.visible);
    let doc = ReactiveResumeV3Parser
        .parse(br#"{"basics":{"summary":{"body":"Hidden","visible":false}}}"#)
        .unwrap();
    assert_eq!(doc.sections.summary.content, "Hidden");
    assert!(!doc.sections.summary.visible);
    let doc = ReactiveResumeV3Parser.parse(br#"{"basics":{"summary":null}}"#).unwrap();
    assert_eq!(doc.sections.summary.content, "");
    assert!(doc.sections.summary.visible);
    assert!(matches!(
        ReactiveResumeV3Parser.parse(br#"{"basics":{"summary":7}}"#),
        Err(ParseError::ValidationError(_))
    ));
}

#[test]
fn a_link_is_taken_in_both_forms() {
    let json = br#"{"sections":{"experience":{"items":[
        {"company":"A","url":{"href":"https://x","label":"Site"}},
        {"company":"B","url":"https://y"},
        {"company":"C","url":{"href":"https://z"}},
        {"company":"D"}
    ]}}}"#;
    let doc = ReactiveResumeV3Parser.parse(json).unwrap();
    let items = &doc.sections.experience.items;
    assert_eq!(items[0].url.href, "https://x");
    assert_eq!(items[0].url.label, "Site");
    assert_eq!(items[1].url.href, "https://y");
    assert_eq!(items[1].url.label, "https://y");
    assert_eq!(items[2].url.href, "https://z");
    assert_eq!(items[2].url.label, "https://z");
    assert_eq!(items[3].url.href, "");
    assert_eq!(items[3].url.label, "");
    assert!(!items[0].id.is_empty());
    assert_ne!(items[0].id, items[1].id);
}

#[test]
fn test_v3_url_formats() {
    let url_string = V3Url::String("https://example.com".to_string());
    assert_eq!(url_string.to_href(), "https://example.com");
    assert_eq!(url_string.to_label(), "https://example.com");

    let url_object = V3Url::Object {
        href: Some("https://example.com".to_string()),
        label: Some("My Website".to_string()),
    };
    assert_eq!(url_object.to_href(), "https://example.com");
    assert_eq!(url_object.to_label(), "My Website");
}

#[test]
fn links_and_summaries_reduce_as_their_form_says() {
    assert_eq!(V3Url::Empty.to_href(), "");
    assert_eq!(V3Url::Empty.to_label(), "");
    let bare = V3Url::Object { href: Some("h".to_string()), label: None };
    assert_eq!(bare.to_label(), "h");
    let nothing = V3Url::Object { href: None, label: None };
    assert_eq!(nothing.to_label(), "");
    assert_eq!(nothing.to_href(), "");
    assert!(V3Summary::Empty.is_visible());
    assert_eq!(V3Summary::Empty.to_content(), "");
    assert!(V3Summary::String("s".to_string()).is_visible());
    let hidden = V3Summary::Object { body: None, visible: Some(false) };
    assert!(!hidden.is_visible());
    assert_eq!(hidden.to_content(), "");
    let silent = V3Summary::Object { body: Some("b".to_string()), visible: None };
    assert!(silent.is_visible());
    assert_eq!(silent.to_content(), "b");
}

#[test]
fn test_json_resume_validation_errors() {
    let parser = JsonResumeParser;
    let result = parser.parse(b"not valid json");
    assert!(result.is_err());
}

#[test]
fn each_kind_of_error_comes_on_its_input() {
    assert!(matches!(JsonResumeParser.parse(b"not valid json"), Err(ParseError::ReadError(_))));
    assert!(matches!(JsonResumeParser.parse(b"[1, 2]"), Err(ParseError::ValidationError(_))));
    assert!(matches!(
        JsonResumeParser.parse(br#"{"basics": {"name": 7}}"#),
        Err(ParseError::ValidationError(_))
    ));
    assert!(matches!(
        JsonResumeParser.parse(br#"{"work": {"name": "x"}}"#),
        Err(ParseError::ValidationError(_))
    ));
    assert!(JsonResumeParser.parse(b"{}").is_ok());
    assert!(JsonResumeParser.parse(br#"{"basics": null, "work": null, "extra": 1}"#).is_ok());
    assert!(matches!(
        ReactiveResumeV3Parser.parse(b"not valid json"),
        Err(ParseError::ReadError(_))
    ));
    assert!(matches!(
        ReactiveResumeV3Parser.parse(br#"{"sections": {"skills": {"items": [{"level": 300}]}}}"#),
        Err(ParseError::ValidationError(_))
    ));
    assert!(matches!(LinkedInParser.parse(b"not a zip file"), Err(ParseError::ReadError(_))));
    let e = ParseError::ReadError("x".to_string());
    assert_eq!(e.to_string(), "Failed to read file: x");
    assert_eq!(ParseError::ValidationError("y".to_string()).to_string(), "Invalid format: y");
    assert_eq!(ParseError::ConversionError("z".to_string()).to_string(), "Conversion failed: z");
}

#[test]
fn test_json_resume_date_formatting() {
    let json = r#"{
        "basics": {
            "name": "Test User",
            "label": "Developer",
            "email": "test@example.com"
        },
        "work": [
            {
                "name": "Company",
                "position": "Developer",
                "startDate": "2020-01-15",
                "endDate": "2023-06-30"
            }
        ]
    }"#;

    let parser = JsonResumeParser;
    let result = parser.parse(json.as_bytes());
    assert!(result.is_ok());

    let resume = result.unwrap();
    assert_eq!(resume.sections.experience.items.len(), 1);
    assert!(resume.sections.experience.items[0].date.contains("2020"));
    assert!(resume.sections.experience.items[0].date.contains("2023"));
}

#[test]
fn an_end_date_alone_stands_alone() {
    let doc = JsonResumeParser
        .parse(br#"{"work":[{"endDate":"2021"},{"startDate":" 2019 "},{"startDate":"  ","endDate":""}]}"#)
        .unwrap();
    assert_eq!(doc.sections.experience.items[0].date, "2021");
    assert_eq!(doc.sections.experience.items[1].date, "2019 - Present");
    assert_eq!(doc.sections.experience.items[2].date, "");
}

#[test]
fn test_json_resume_with_all_sections() {
    let json = r#"{
        "basics": {
            "name": "Complete User",
            "label": "Full Stack Developer",
            "email": "complete@example.com",
            "summary": "A complete resume test."
        },
        "work": [{"name": "Work Co", "position": "Dev"}],
        "education": [{"institution": "University", "area": "CS"}],
        "skills": [{"name": "Rust", "level": "Expert"}],
        "languages": [{"language": "English", "fluency": "Native"}],
        "projects": [{"name": "Project", "description": "Desc"}],
        "awards": [{"title": "Award", "awarder": "Org"}],
        "certificates": [{"name": "Cert", "issuer": "Issuer"}],
        "publications": [{"name": "Paper", "publisher": "Journal"}],
        "volunteer": [{"organization": "Charity", "position": "Helper"}],
        "interests": [{"name": "Coding", "keywords": ["Open Source"]}],
        "references": [{"name": "Ref Person", "reference": "Great worker"}]
    }"#;

    let parser = JsonResumeParser;
    let result = parser.parse(json.as_bytes());
    assert!(result.is_ok(), "Failed: {:?}", result.err());

    let resume = result.unwrap();
    assert_eq!(resume.sections.experience.items.len(), 1);
    assert_eq!(resume.sections.education.items.len(), 1);
    assert_eq!(resume.sections.skills.items.len(), 1);
    assert_eq!(resume.sections.languages.items.len(), 1);
    assert_eq!(resume.sections.projects.items.len(), 1);
    assert_eq!(resume.sections.awards.items.len(), 1);
    assert_eq!(resume.sections.certifications.items.len(), 1);
    assert_eq!(resume.sections.publications.items.len(), 1);
    assert_eq!(resume.sections.volunteer.items.len(), 1);
    assert_eq!(resume.sections.interests.items.len(), 1);
    assert_eq!(resume.sections.references.items.len(), 1);
    assert_eq!(resume.sections.certifications.id, "certifications");
    assert_eq!(resume.sections.certifications.items[0].issuer, "Issuer");
    assert_eq!(resume.sections.awards.items[0].awarder, "Org");
    assert_eq!(resume.sections.volunteer.items[0].organization, "Charity");
    assert_eq!(resume.sections.interests.items[0].keywords, vec!["Open Source"]);
}

#[test]
fn test_linkedin_invalid_zip() {
    let parser = LinkedInParser;
    let result = parser.parse(b"not a zip file");
    assert!(result.is_err());
}

#[test]
fn test_linkedin_empty_zip() {
    let mut buffer = Vec::new();
    {
        let writer = Cursor::new(&mut buffer);
        let zip = zip::ZipWriter::new(writer);
        zip.finish().unwrap();
    }

    let parser = LinkedInParser;
    let result = parser.parse(&buffer);

    assert!(result.is_ok());
    let resume = result.unwrap();
    assert!(resume.basics.name.is_empty() || resume.basics.name == "Unknown");
}

#[test]
fn test_linkedin_proficiency_levels() {
    let proficiencies = vec![
        ("Native or bilingual proficiency", 5),
        ("Full professional proficiency", 5),
        ("Professional working proficiency", 4),
        ("Limited working proficiency", 3),
        ("Elementary proficiency", 2),
    ];

    for (proficiency, expected_level) in proficiencies {
        let buffer = languages_zip(proficiency);

        let parser = LinkedInParser;
        let result = parser.parse(&buffer);
        assert!(result.is_ok(), "Failed for proficiency: {}", proficiency);

        let resume = result.unwrap();
        assert_eq!(resume.sections.languages.items.len(), 1);
        assert_eq!(
            resume.sections.languages.items[0].level, expected_level,
            "Wrong level for proficiency: {}",
            proficiency
        );
    }
}

#[test]
fn test_v3_invalid_json() {
    let parser = ReactiveResumeV3Parser;
    let result = parser.parse(b"not valid json");
    assert!(result.is_err());
}

#[test]
fn test_v3_missing_basics() {
    let parser = ReactiveResumeV3Parser;
    let result = parser.parse(br#"{"id": "test", "sections": {}}"#);
    assert!(result.is_ok());
    if let Ok(resume) = result {
        assert!(resume.basics.name.is_empty());
    }
}

#[test]
fn test_v3_empty_sections() {
    let json = r#"{
        "id": "empty-sections",
        "basics": {
            "name": "Empty Test",
            "headline": "Tester"
        },
        "sections": {}
    }"#;

    let parser = ReactiveResumeV3Parser;
    let result = parser.parse(json.as_bytes());
    assert!(result.is_ok());

    let resume = result.unwrap();
    assert_eq!(resume.basics.name, "Empty Test");
    assert!(resume.sections.experience.items.is_empty());
}

#[test]
fn test_v3_visibility_handling() {
    let json = r#"{
        "id": "visibility-test",
        "basics": {
            "name": "Visibility Test",
            "headline": "Tester",
            "summary": {
                "body": "Hidden summary",
                "visible": false
            }
        },
        "sections": {
            "experience": {
                "visible": false,
                "items": [
                    {
                        "id": "exp-1",
                        "visible": false,
                        "company": "Hidden Company",
                        "position": "Secret Agent"
                    }
                ]
            }
        }
    }"#;

    let parser = ReactiveResumeV3Parser;
    let result = parser.parse(json.as_bytes());
    assert!(result.is_ok());

    let resume = result.unwrap();
    assert!(!resume.sections.summary.visible);
    assert!(!resume.sections.experience.visible);
    assert!(!resume.sections.experience.items[0].visible);
}

#[test]
fn the_predecessors_metadata_take_their_defaults() {
    let doc = ReactiveResumeV3Parser.parse(b"{}").unwrap();
    assert_eq!(doc.metadata.template, "rhyhorn");
    assert_eq!(doc.metadata.page.format, PageFormat::A4);
    assert_eq!(doc.metadata.page.margin, 18);
    assert!(doc.metadata.page.options.break_line);
    assert_eq!(doc.metadata.theme.primary, "#dc2626");
    assert_eq!(doc.metadata.theme.background, "#ffffff");
    assert_eq!(doc.metadata.theme.text, "#000000");
    assert_eq!(doc.metadata.typography.font.family, "IBM Plex Serif");
    assert_eq!(doc.metadata.typography.font.size, 14);
    assert_eq!(doc.metadata.typography.font.variants, vec!["regular"]);
    assert_eq!(doc.metadata.typography.line_height.text, "1.5");
    assert!(doc.metadata.typography.underline_links);
    assert!(!doc.metadata.typography.hide_icons);
    assert!(!doc.metadata.css.visible);

    let doc = ReactiveResumeV3Parser
        .parse(br#"{"metadata":{"template":"no-such","page":{"format":"US-Letter","margin":30},
            "layout":[[["a"],["b","c"]]],"css":{"value":"x","visible":true}},
            "basics":{"picture":{"url":"u","visible":false,"aspectRatio":0.75},
                      "customFields":[{"id":"k","name":"n","value":"v"},{"name":"m"}]},
            "sections":{"custom":{"extra":{"name":"Extra","items":[{"title":"T","subtitle":"S"}]}}}}"#)
        .unwrap();
    assert_eq!(doc.metadata.template, "no-such");
    assert_eq!(doc.metadata.page.format, PageFormat::Letter);
    assert_eq!(doc.metadata.page.margin, 30);
    assert_eq!(doc.metadata.layout, vec![vec![vec!["a".to_string()], vec!["b".to_string(), "c".to_string()]]]);
    assert_eq!(doc.metadata.css.value, "x");
    assert!(doc.metadata.css.visible);
    assert!(doc.basics.picture.effects.hidden);
    assert_eq!(doc.basics.picture.aspect_ratio.text, "0.75");
    assert_eq!(doc.basics.custom_fields[0].id, "k");
    assert!(!doc.basics.custom_fields[1].id.is_empty());
    assert_eq!(doc.basics.custom_fields[1].name, "m");
    assert_eq!(doc.sections.custom.len(), 1);
    let extra = doc.sections.custom.get("extra").unwrap();
    assert_eq!(extra.id, "extra");
    assert_eq!(extra.name, "Extra");
    assert_eq!(extra.items[0].name, "T");
    assert_eq!(extra.items[0].description, "S");
}

#[test]
fn explicit_effects_decide_whether_the_picture_is_hidden() {
    let doc = ReactiveResumeV3Parser
        .parse(br#"{"basics":{"picture":{"visible":false,"effects":{"hidden":false,"border":true}}}}"#)
        .unwrap();
    assert!(!doc.basics.picture.effects.hidden);
    assert!(doc.basics.picture.effects.border);
    assert!(!doc.basics.picture.effects.grayscale);
    let doc = ReactiveResumeV3Parser
        .parse(br#"{"basics":{"picture":{"visible":false,"effects":{}}}}"#)
        .unwrap();
    assert!(doc.basics.picture.effects.hidden);
}

#[test]
fn test_all_parsers_handle_special_characters() {
    let json = r#"{
        "basics": {
            "name": "José García-López",
            "label": "Développeur & Ingénieur",
            "email": "jose@example.com",
            "summary": "Experience with: C++, C#, and SQL <queries>. Speaks: 日本語, 中文, العربية"
        }
    }"#;

    let parser = JsonResumeParser;
    let result = parser.parse(json.as_bytes());
    assert!(result.is_ok());

    let resume = result.unwrap();
    assert_eq!(resume.basics.name, "José García-López");
    assert!(resume.sections.summary.content.contains("日本語"));
}

#[test]
fn the_stages_of_an_adapter_run_one_after_the_other() {
    let parser = JsonResumeParser;
    let raw = parser.read(MINIMAL_JSON.as_bytes()).unwrap();
    let typed = parser.validate(raw).unwrap();
    assert_eq!(typed.basics.as_ref().unwrap().label.as_deref(), Some("Software Engineer"));
    assert!(typed.work.is_none());
    let doc = parser.convert(typed).unwrap();
    assert_eq!(doc.basics.headline, "Software Engineer");

    let parser = LinkedInParser;
    let raw = parser.read(&create_test_zip()).unwrap();
    let data = parser.validate(raw).unwrap();
    assert_eq!(data.positions.len(), 2);
    assert_eq!(data.positions[0].finished_on, None);
    assert_eq!(data.profile.as_ref().unwrap().geo_location.as_deref(), Some("San Francisco Bay Area"));
    assert_eq!(data.emails, vec!["john.doe@example.com"]);
    assert_eq!(data.education[0].started_on.as_deref(), Some("2013"));
}
