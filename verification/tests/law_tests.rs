use rustume::parser::{JsonResumeParser, LinkedInParser, Parser, ReactiveResumeV3Parser};
use rustume::render::convert_field;
use rustume::schema::validation::Validate;
use rustume::schema::{
    CustomItem, CustomSection, Experience, PageFormat, ResumeData, Section, Skill, Url,
};
use rustume::utils::{clean_output, escape_typst, html_to_typst, sanitize_html};
use std::io::{Cursor, Write};

const STANDARD: &str = r#"{
    "basics": {"name": "A", "email": "a@example.com", "url": "https://a.example",
               "profiles": [{"network": "GitHub", "username": "a", "url": "https://github.com/a"}]},
    "work": [{"name": "W", "url": "https://w.example", "highlights": ["h"]}, {"name": "X"}],
    "skills": [{"name": "S", "keywords": ["k"]}],
    "languages": [{"language": "L", "fluency": "Fluent"}, {"language": "M"}],
    "certificates": [{"name": "C", "url": "https://c.example"}],
    "projects": [{"name": "P"}]
}"#;

const PREDECESSOR: &str = r##"{
    "basics": {"name": "B", "email": "b@example.com", "url": {"href": "https://b.example"},
               "customFields": [{"name": "n", "value": "v"}]},
    "sections": {
        "experience": {"columns": 2, "items": [{"company": "W", "url": "https://w.example"}, {"id": "kept", "company": "X"}]},
        "skills": {"items": [{"name": "S", "level": 9}]},
        "custom": {"own": {"items": [{"title": "T"}]}}
    },
    "metadata": {"theme": {"primary": "#123456"}}
}"##;

fn export() -> Vec<u8> {
    let mut buffer = Vec::new();
    {
        let mut zip = zip::ZipWriter::new(Cursor::new(&mut buffer));
        let options = zip::write::SimpleFileOptions::default();
        zip.start_file("Profile.csv", options).unwrap();
        zip.write_all(b"First Name,Last Name,Headline,Geo Location\nJohn,Doe,Engineer,SF\n").unwrap();
        zip.start_file("Positions.csv", options).unwrap();
        zip.write_all(b"Company Name,Title\nA,B\nC,D\n").unwrap();
        zip.start_file("Email Addresses.csv", options).unwrap();
        zip.write_all(b"Email Address\njohn@example.com\n").unwrap();
        zip.start_file("Languages.csv", options).unwrap();
        zip.write_all(b"Name,Proficiency\nEnglish,Native or bilingual\nSpanish,Professional Working\n").unwrap();
        zip.start_file("Certifications.csv", options).unwrap();
        zip.write_all(b"Name,Url\nCert,https://c.example\n").unwrap();
        zip.finish().unwrap();
    }
    buffer
}

fn without_ids(doc: &ResumeData) -> String {
    let mut copy = doc.clone();
    for f in copy.basics.custom_fields.iter_mut() {
        f.id.clear();
    }
    let s = &mut copy.sections;
    s.experience.items.iter_mut().for_each(|i| i.id.clear());
    s.education.items.iter_mut().for_each(|i| i.id.clear());
    s.skills.items.iter_mut().for_each(|i| i.id.clear());
    s.projects.items.iter_mut().for_each(|i| i.id.clear());
    s.profiles.items.iter_mut().for_each(|i| i.id.clear());
    s.awards.items.iter_mut().for_each(|i| i.id.clear());
    s.certifications.items.iter_mut().for_each(|i| i.id.clear());
    s.publications.items.iter_mut().for_each(|i| i.id.clear());
    s.languages.items.iter_mut().for_each(|i| i.id.clear());
    s.interests.items.iter_mut().for_each(|i| i.id.clear());
    s.volunteer.items.iter_mut().for_each(|i| i.id.clear());
    s.references.items.iter_mut().for_each(|i| i.id.clear());
    for e in s.custom.entries.iter_mut() {
        e.section.items.iter_mut().for_each(|i| i.id.clear());
    }
    copy.to_json_compact().unwrap()
}

#[test]
fn adapters_give_documents_that_meet_the_rules() {
    assert!(JsonResumeParser.parse(STANDARD.as_bytes()).unwrap().validate().is_ok());
    assert!(ReactiveResumeV3Parser.parse(PREDECESSOR.as_bytes()).unwrap().validate().is_ok());
    assert!(LinkedInParser.parse(&export()).unwrap().validate().is_ok());
}

#[test]
fn a_document_of_an_adapter_breaks_a_rule_only_where_an_address_does() {
    let doc = JsonResumeParser
        .parse(br#"{"basics":{"email":"nope"},"work":[{"name":"a"},{"url":"ftp://x"}]}"#)
        .unwrap();
    let errors = doc.validate().unwrap_err();
    let paths: Vec<&str> = errors.errors.iter().map(|e| e.path.as_str()).collect();
    assert_eq!(paths, vec!["basics.email", "sections.experience.items[1].url.href"]);

    let doc = ReactiveResumeV3Parser
        .parse(br#"{"sections":{"skills":{"columns":9,"items":[{"level":200}]}},"metadata":{"theme":{"text":"red"}}}"#)
        .unwrap();
    assert_eq!(doc.sections.skills.items[0].level, 5);
    let errors = doc.validate().unwrap_err();
    let paths: Vec<&str> = errors.errors.iter().map(|e| e.path.as_str()).collect();
    assert_eq!(paths, vec!["sections.skills.columns", "metadata.theme.text"]);
}

#[test]
fn the_json_of_a_document_reads_back_as_the_document() {
    let mut doc = ReactiveResumeV3Parser.parse(PREDECESSOR.as_bytes()).unwrap();
    doc.metadata.page.format = PageFormat::Letter;
    doc.metadata.notes = "line\n\"quoted\" \\ \u{1}\u{e9}".to_string();
    doc.basics.picture.effects.grayscale = true;
    let mut own: Section<CustomItem> = Section::new("z", "Z");
    own.add_item(CustomItem::new("i"));
    doc.sections.custom.entries.push(CustomSection { key: "a-later-key".to_string(), section: own });

    let compact = doc.to_json_compact().unwrap();
    let back = ResumeData::from_json(&compact).unwrap();
    assert_eq!(back.to_json_compact().unwrap(), compact);
    assert_eq!(back.sections.experience.items[1].id, "kept");
    assert_eq!(back.sections.custom.entries[1].key, "a-later-key");
    assert_eq!(back.metadata.notes, doc.metadata.notes);

    let pretty = doc.to_json().unwrap();
    assert!(pretty.starts_with("{\n  \"basics\": {\n    \"name\": \"B\","));
    let again = ResumeData::from_json_bytes(&doc.to_json_bytes().unwrap()).unwrap();
    assert_eq!(again.to_json_compact().unwrap(), compact);
    assert_eq!(without_ids(&again), without_ids(&doc));
}

#[test]
fn a_document_is_read_with_its_defaults() {
    let doc = ResumeData::from_json("{}").unwrap();
    assert_eq!(doc.to_json_compact().unwrap(), ResumeData::default().to_json_compact().unwrap());
    let doc = ResumeData::from_json(
        r#"{"basics":{"name":"N"},"sections":{"skills":{"id":"skills","items":[{"id":"x"}]}},
            "metadata":{"page":{"format":"letter"},"typography":{"lineHeight":2}}}"#,
    )
    .unwrap();
    assert_eq!(doc.basics.name, "N");
    assert_eq!(doc.sections.skills.items[0].level, 1);
    assert!(doc.sections.skills.items[0].visible);
    assert_eq!(doc.sections.skills.columns, 1);
    assert_eq!(doc.metadata.page.format, PageFormat::Letter);
    assert_eq!(doc.metadata.page.margin, 18);
    assert_eq!(doc.metadata.typography.line_height.text, "2");
    assert_eq!(doc.metadata.layout.len(), 1);

    assert!(ResumeData::from_json("not json").is_err());
    assert!(ResumeData::from_json(r#"{"basics":{"name":null}}"#).is_err());
    assert!(ResumeData::from_json(r#"{"sections":{"skills":{"items":[]}}}"#).is_err());
    assert!(ResumeData::from_json(r#"{"sections":{"experience":{"id":"e","items":[{"id":"x"}]}}}"#).is_err());
    assert!(ResumeData::from_json(r#"{"metadata":{"page":{"format":"A4"}}}"#).is_err());
    assert!(ResumeData::from_json(r#"{"metadata":{"page":{"margin":-1}}}"#).is_err());
}

#[test]
fn cleaning_up_twice_is_cleaning_up_once() {
    for text in ["", "a", "\n\n\n\n", " a\n\n\n\nb \n", "\n \n \n", "a\n\n\n \n\n\nb", "x\u{a0}\n\n\n\n\n\ny"] {
        let once = clean_output(text.to_string());
        assert_eq!(clean_output(once.clone()), once, "{text:?}");
        assert!(!once.contains("\n\n\n"));
        assert_eq!(once.trim(), once);
    }
}

#[test]
fn converting_twice_is_converting_once_where_nothing_needs_escaping() {
    for html in ["", "  plain text ", "<p>Hello <span>world</span></p>", "<p></p>", "<ul><li> </li></ul>", "<p>one</p><p>two</p>"] {
        let once = convert_field(html);
        assert_eq!(convert_field(&once), once, "{html:?}");
    }
    let once = convert_field("a#b");
    assert_eq!(once, "a\\#b");
    assert_eq!(convert_field(&once), "a\\\\\\#b");
}

#[test]
fn text_brings_no_tag_into_the_markup() {
    for text in ["<script>alert(1)</script>", "a < b > c", "</script>", "<<script>>"] {
        let escaped = escape_typst(text);
        assert!(!escaped.contains("<script>"), "{escaped}");
        let chars: Vec<char> = escaped.chars().collect();
        for (i, c) in chars.iter().enumerate() {
            if *c == '<' || *c == '>' {
                assert!(i > 0 && chars[i - 1] == '\\');
            }
        }
    }
    let safe = sanitize_html("<p>x</p><SCRIPT>alert(1)</SCRIPT><a href='https://e.example'>l</a><a>m</a>");
    assert!(!safe.to_lowercase().contains("<script"));
    assert_eq!(safe.matches("<a ").count(), 2);
    assert_eq!(safe.matches("rel=\"noopener noreferrer\"").count(), 2);
    assert_eq!(html_to_typst(&safe), "x\n\n#link(\"https://e.example\")[l]#link(\"\")[m]");
}

#[test]
fn no_tag_reaches_the_markup_but_in_the_address_of_a_link() {
    for html in [
        "<p>a &lt;script&gt; b</p>",
        "<p>1 &lt; 2 &gt; 0</p><ul><li> x&gt;y </li></ul>",
        "<strong>&lt;b&gt;</strong><a href=\"https://e.example/?a=1\">&lt;</a><br>",
        "<script>alert(1)</script><p>after</p>",
    ] {
        let markup = convert_field(html);
        assert!(!markup.contains("<script>"), "{markup}");
        let chars: Vec<char> = markup.chars().collect();
        for (i, c) in chars.iter().enumerate() {
            if *c == '<' || *c == '>' {
                assert!(i > 0 && chars[i - 1] == '\\', "{markup}");
            }
        }
    }
    assert_eq!(convert_field("<p>a &lt;script&gt; b</p>"), "a \\<script\\> b");
    assert_eq!(html_to_typst("<a href=\"<script>\">x</a>"), "#link(\"<script>\")[x]");
}

#[test]
fn the_same_bytes_give_the_same_document_but_for_fresh_identifiers() {
    let a = JsonResumeParser.parse(STANDARD.as_bytes()).unwrap();
    let b = JsonResumeParser.parse(STANDARD.as_bytes()).unwrap();
    assert_eq!(without_ids(&a), without_ids(&b));
    assert_ne!(a.sections.experience.items[0].id, b.sections.experience.items[0].id);

    let a = ReactiveResumeV3Parser.parse(PREDECESSOR.as_bytes()).unwrap();
    let b = ReactiveResumeV3Parser.parse(PREDECESSOR.as_bytes()).unwrap();
    assert_eq!(without_ids(&a), without_ids(&b));
    assert_ne!(a.sections.experience.items[0].id, b.sections.experience.items[0].id);
    assert_eq!(a.sections.experience.items[1].id, "kept");
    assert_eq!(b.sections.experience.items[1].id, "kept");

    let bytes = export();
    let a = LinkedInParser.parse(&bytes).unwrap();
    let b = LinkedInParser.parse(&bytes).unwrap();
    assert_eq!(without_ids(&a), without_ids(&b));
    assert_ne!(a.sections.profiles.items[0].id, b.sections.profiles.items[0].id);
}

#[test]
fn a_small_export_is_converted() {
    let doc = LinkedInParser.parse(&export()).unwrap();
    assert_eq!(doc.basics.name, "John Doe");
    assert_eq!(doc.basics.headline, "Engineer");
    assert_eq!(doc.basics.location, "SF");
    assert_eq!(doc.basics.email, "john@example.com");
    assert_eq!(doc.sections.experience.items.len(), 2);
    assert_eq!(doc.sections.languages.items[0].level, 5);
    assert_eq!(doc.sections.languages.items[1].level, 4);
    assert_eq!(doc.sections.profiles.items.last().unwrap().network, "LinkedIn");
    assert_eq!(doc.sections.certifications.items[0].url.href, "https://c.example");
}

#[test]
fn validation_never_fails_to_answer() {
    let mut doc = ResumeData::default();
    doc.basics.email = "\u{0}\u{ffff}@".repeat(50);
    doc.basics.url = Url::new("http://");
    doc.sections.experience.add_item(Experience::new("", ""));
    doc.sections.skills.add_item(Skill::new(""));
    doc.sections.skills.items[0].level = 255;
    doc.metadata.theme.primary = "#".to_string();
    let errors = doc.validate().unwrap_err();
    assert_eq!(errors.errors.len(), 4);
}
