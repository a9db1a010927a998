use rustume::schema::validation::Validate;
use rustume::schema::metadata::default_margin;
use rustume::schema::{
    validate_hex_color, validate_optional_email, validate_optional_url, Award, Basics,
    CustomField, CustomItem, Education, Experience, Interest, Language, Picture, Profile,
    Project, Publication, ResumeData, Section, Skill, SummarySection, Url,
};

#[test]
fn test_basics_builder() {
    let basics = Basics::new("John Doe")
        .with_headline("Software Engineer")
        .with_email("john@example.com")
        .with_phone("+1-555-123-4567")
        .with_location("San Francisco, CA")
        .with_url("https://johndoe.dev");

    assert_eq!(basics.name, "John Doe");
    assert_eq!(basics.headline, "Software Engineer");
    assert_eq!(basics.email, "john@example.com");
    assert_eq!(basics.phone, "+1-555-123-4567");
    assert_eq!(basics.location, "San Francisco, CA");
    assert_eq!(basics.url.href, "https://johndoe.dev");
    assert!(basics.validate().is_ok());
}

#[test]
fn test_basics_email_validation() {
    let valid = Basics::new("Test").with_email("test@example.com");
    assert!(valid.validate().is_ok());

    let empty = Basics::new("Test");
    assert!(empty.validate().is_ok());

    let invalid = Basics::new("Test").with_email("not-an-email");
    assert!(invalid.validate().is_err());
}

#[test]
fn test_picture_visibility() {
    let mut pic = Picture::new("https://example.com/photo.jpg");
    assert!(pic.is_visible());

    pic.effects.hidden = true;
    assert!(!pic.is_visible());

    let empty_pic = Picture::default();
    assert!(!empty_pic.is_visible());
}

#[test]
fn test_custom_fields() {
    let mut basics = Basics::new("Test");
    basics.add_custom_field("Pronouns", "they/them");
    basics.add_custom_field("Timezone", "PST");

    assert_eq!(basics.custom_fields.len(), 2);
    assert_eq!(basics.custom_fields[0].name, "Pronouns");
    assert_eq!(basics.custom_fields[1].name, "Timezone");
}

#[test]
fn test_default_resume_is_valid() {
    let resume = ResumeData::default();
    assert!(resume.validate().is_ok());
}

#[test]
fn test_resume_with_basics() {
    let resume = ResumeData::with_basics("John Doe", "john@example.com");
    assert_eq!(resume.basics.name, "John Doe");
    assert_eq!(resume.basics.email, "john@example.com");
    assert!(resume.validate().is_ok());
}

#[test]
fn test_resume_json_roundtrip() {
    let resume = ResumeData::with_basics("Jane Doe", "jane@example.com");
    let json = resume.to_json().unwrap();
    let parsed = ResumeData::from_json(&json).unwrap();

    assert_eq!(parsed.basics.name, resume.basics.name);
    assert_eq!(parsed.basics.email, resume.basics.email);
}

#[test]
fn test_resume_validation_fails_for_invalid_email() {
    let mut resume = ResumeData::default();
    resume.basics.email = "not-an-email".to_string();

    assert!(resume.validate().is_err());
}

#[test]
fn test_resume_validation_fails_for_invalid_url() {
    let mut resume = ResumeData::default();
    resume.basics.url.href = "not-a-url".to_string();

    assert!(resume.validate().is_err());
}

#[test]
fn test_section_item_macro_new() {
    let item = Award::new("Test Title");
    assert!(!item.id.is_empty());
    assert!(item.visible);
    assert_eq!(item.title, "Test Title");
    assert!(item.summary.is_empty());
}

#[test]
fn test_section_item_macro_builder() {
    let item = Award::new("Test Title")
        .with_summary("A description")
        .with_url("https://example.com");

    assert_eq!(item.title, "Test Title");
    assert_eq!(item.summary, "A description");
    assert_eq!(item.url.href, "https://example.com");
}

#[test]
fn test_section_item_macro_default() {
    let item = Award::default();
    assert!(item.id.is_empty());
    assert!(item.visible);
    assert!(item.title.is_empty());
}

#[test]
fn test_section_add_item() {
    let mut section = Section::new("experience", "Experience");
    assert!(section.is_empty());

    section.add_item(Experience::new("Acme Corp", "Developer"));
    assert_eq!(section.len(), 1);
    assert!(!section.is_empty());
}

#[test]
fn test_experience_builder() {
    let exp = Experience::new("Acme Corp", "Senior Developer")
        .with_location("San Francisco")
        .with_date("2020 - Present")
        .with_summary("Built amazing things")
        .with_url("https://acme.com");

    assert_eq!(exp.company, "Acme Corp");
    assert_eq!(exp.position, "Senior Developer");
    assert_eq!(exp.location, "San Francisco");
    assert!(!exp.id.is_empty());
    assert!(exp.validate().is_ok());
}

#[test]
fn test_skill_level_validation() {
    let valid = Skill::new("Rust").with_level(5);
    assert!(valid.validate().is_ok());

    let clamped = Skill::new("Rust").with_level(10);
    assert_eq!(clamped.level, 5);
}

#[test]
fn levels_are_held_to_their_range() {
    for level in 0..=255u8 {
        let want = if level > 5 { 5 } else { level };
        assert_eq!(Skill::new("x").with_level(level).level, want);
        assert_eq!(Language::new("x").with_level(level).level, want);
    }
    let mut skill = Skill::new("x");
    skill.level = 9;
    let errors = skill.validate().unwrap_err();
    assert_eq!(errors.errors.len(), 1);
    assert_eq!(errors.errors[0].path, "level");
    assert_eq!(errors.errors[0].code, "range");
    assert!(errors.errors[0].message.is_none());
}

#[test]
fn columns_are_held_to_their_range() {
    let mut section: Section<Experience> = Section::new("a", "b");
    section.set_columns(0);
    assert_eq!(section.columns, 1);
    section.set_columns(9);
    assert_eq!(section.columns, 5);
    section.set_columns(3);
    assert_eq!(section.columns, 3);
    section.columns = 7;
    let errors = section.validate().unwrap_err();
    assert_eq!(errors.errors[0].path, "columns");
    section.set_visible(false);
    assert!(!section.visible);
}

#[test]
fn test_profile_auto_icon() {
    let profile = Profile::new("GitHub", "johndoe");
    assert_eq!(profile.icon, "github");

    let linkedin = Profile::new("LinkedIn", "johndoe");
    assert_eq!(linkedin.icon, "linkedin");
}

#[test]
fn test_summary_is_empty() {
    let empty = SummarySection::default();
    assert!(empty.is_empty());

    let with_content = SummarySection::new("A great summary");
    assert!(!with_content.is_empty());

    let tiptap_empty = SummarySection::new("<p></p>");
    assert!(tiptap_empty.is_empty());
}

#[test]
fn test_url_validation() {
    let valid_url = Url::new("https://example.com");
    assert!(valid_url.validate().is_ok());

    let empty_url = Url::default();
    assert!(empty_url.validate().is_ok());

    let invalid_url = Url::new("not-a-url");
    assert!(invalid_url.validate().is_err());
}

#[test]
fn test_url_is_empty() {
    let empty = Url::default();
    assert!(empty.is_empty());

    let not_empty = Url::new("https://example.com");
    assert!(!not_empty.is_empty());
}

#[test]
fn test_custom_field_creation() {
    let field = CustomField::new("Website", "https://example.com");
    assert!(!field.id.is_empty());
    assert_eq!(field.name, "Website");
    assert_eq!(field.value, "https://example.com");
}

#[test]
fn test_validate_optional_url() {
    assert!(validate_optional_url("").is_ok());

    assert!(validate_optional_url("https://example.com").is_ok());
    assert!(validate_optional_url("http://example.com/path?query=1").is_ok());
    assert!(validate_optional_url("https://sub.domain.com:8080/path").is_ok());

    assert!(validate_optional_url("not-a-url").is_err());
    assert!(validate_optional_url("ftp://example.com").is_err());
    assert!(validate_optional_url("example.com").is_err());
}

#[test]
fn test_validate_optional_email() {
    assert!(validate_optional_email("").is_ok());

    assert!(validate_optional_email("test@example.com").is_ok());
    assert!(validate_optional_email("user.name+tag@domain.co.uk").is_ok());

    assert!(validate_optional_email("not-an-email").is_err());
    assert!(validate_optional_email("@domain.com").is_err());
    assert!(validate_optional_email("user@").is_err());
}

#[test]
fn test_validate_hex_color() {
    assert!(validate_hex_color("").is_ok());

    assert!(validate_hex_color("#ffffff").is_ok());
    assert!(validate_hex_color("#000000").is_ok());
    assert!(validate_hex_color("#dc2626").is_ok());
    assert!(validate_hex_color("AABBCC").is_ok());

    assert!(validate_hex_color("#fff").is_err());
    assert!(validate_hex_color("#gggggg").is_err());
    assert!(validate_hex_color("red").is_err());
}

#[test]
fn a_colour_takes_one_hash_at_most() {
    assert!(validate_hex_color("##ffffff").is_err());
    assert!(validate_hex_color("#fffffff").is_err());
    assert!(validate_hex_color("fffff").is_err());
    let e = validate_hex_color("nope").unwrap_err();
    assert_eq!(e.code, "invalid_hex_color");
    assert_eq!(e.message.as_deref(), Some("Must be a valid hex color (#RRGGBB)"));
    let e = validate_optional_url("x").unwrap_err();
    assert_eq!(e.code, "invalid_url");
    assert_eq!(e.message.as_deref(), Some("Must be a valid HTTP(S) URL"));
    let e = validate_optional_email("x").unwrap_err();
    assert_eq!(e.code, "invalid_email");
    assert_eq!(e.message.as_deref(), Some("Must be a valid email address"));
}

#[test]
fn an_invalid_email_is_reported_at_its_path() {
    let mut resume = ResumeData::default();
    resume.basics.email = "not-an-email".to_string();
    let errors = resume.validate().unwrap_err();
    assert_eq!(errors.errors.len(), 1);
    assert_eq!(errors.errors[0].path, "basics.email");
    assert_eq!(errors.errors[0].code, "invalid_email");
}

#[test]
fn an_invalid_link_of_the_fourth_position_is_reported_at_its_path() {
    let mut resume = ResumeData::default();
    resume.sections.experience = Section::new("experience", "Experience");
    for i in 0..5 {
        let mut item = Experience::new("Co", "Dev");
        if i == 3 {
            item.url = Url::new("not-a-url");
        }
        resume.sections.experience.add_item(item);
    }
    let errors = resume.validate().unwrap_err();
    assert_eq!(errors.errors.len(), 1);
    assert_eq!(errors.errors[0].path, "sections.experience.items[3].url.href");
    assert_eq!(errors.errors[0].code, "invalid_url");
}

#[test]
fn every_broken_rule_is_reported_in_the_order_of_the_fields() {
    let mut resume = ResumeData::default();
    resume.basics.email = "x".to_string();
    resume.basics.url.href = "y".to_string();
    resume.sections.summary.columns = 0;
    resume.sections.skills.add_item(Skill::new("a"));
    resume.sections.skills.items[0].level = 6;
    resume.metadata.theme.text = "red".to_string();
    resume.metadata.page.margin = 500;
    let errors = resume.validate().unwrap_err();
    let paths: Vec<&str> = errors.errors.iter().map(|e| e.path.as_str()).collect();
    assert_eq!(
        paths,
        vec![
            "basics.email",
            "basics.url.href",
            "sections.summary.columns",
            "sections.skills.items[0].level",
            "metadata.theme.text",
        ]
    );
}

#[test]
fn a_new_document_is_empty_and_has_the_default_presentation() {
    let doc = ResumeData::new();
    assert_eq!(doc.basics.name, "");
    assert_eq!(doc.basics.picture.size, 64);
    assert_eq!(doc.basics.picture.aspect_ratio.text, "1.0");
    assert_eq!(doc.sections.summary.id, "summary");
    assert_eq!(doc.sections.summary.name, "Summary");
    assert_eq!(doc.sections.experience.columns, 1);
    assert!(doc.sections.experience.items.is_empty());
    assert_eq!(doc.metadata.template, "rhyhorn");
    assert_eq!(doc.metadata.page.margin, 18);
    assert_eq!(doc.metadata.theme.primary, "#dc2626");
    assert_eq!(doc.metadata.theme.background, "#ffffff");
    assert_eq!(doc.metadata.theme.text, "#000000");
    assert_eq!(doc.metadata.typography.font.family, "IBM Plex Serif");
    assert_eq!(doc.metadata.typography.font.subset, "latin");
    assert_eq!(doc.metadata.typography.font.variants, vec!["regular".to_string()]);
    assert_eq!(doc.metadata.typography.font.size, 14);
    assert_eq!(doc.metadata.typography.line_height.text, "1.5");
    assert!(doc.metadata.typography.underline_links);
    assert_eq!(doc.metadata.layout.len(), 1);
    assert_eq!(doc.metadata.layout[0].len(), 2);
    assert_eq!(doc.metadata.layout[0][0][0], "profiles");
    assert_eq!(doc.metadata.layout[0][1][5], "languages");
}

#[test]
fn each_builder_sets_its_field_and_leaves_the_others() {
    let education = Education::new("MIT", "Physics").with_study_type("BSc").with_score("3.9");
    assert_eq!(education.institution, "MIT");
    assert_eq!(education.area, "Physics");
    assert_eq!(education.study_type, "BSc");
    assert_eq!(education.score, "3.9");
    assert_eq!(education.date, "");

    let words = vec!["a".to_string(), "b".to_string()];
    let skill = Skill::new("Rust").with_keywords(words.clone());
    assert_eq!(skill.name, "Rust");
    assert_eq!(skill.keywords, words);
    assert_eq!(Project::new("P").with_keywords(words.clone()).keywords, words);
    assert_eq!(Interest::new("I").with_keywords(words.clone()).keywords, words);
    assert_eq!(CustomItem::new("C").with_keywords(words.clone()).keywords, words);

    let profile = Profile::new("GitHub", "octocat").with_icon("cat");
    assert_eq!(profile.network, "GitHub");
    assert_eq!(profile.username, "octocat");
    assert_eq!(profile.icon, "cat");

    let award = Award::new("Prize").with_awarder("Jury");
    assert_eq!(award.title, "Prize");
    assert_eq!(award.awarder, "Jury");
    let publication = Publication::new("Paper").with_publisher("Press");
    assert_eq!(publication.name, "Paper");
    assert_eq!(publication.publisher, "Press");

    let field = CustomField::with_icon("star", "k", "v");
    assert_eq!(field.icon, "star");
    assert_eq!(field.name, "k");
    assert_eq!(field.value, "v");
    assert_eq!(default_margin(), 18);
    assert_eq!(ResumeData::default().metadata.page.margin, default_margin());
}

#[test]
fn every_string_is_written_quoted_whatever_it_holds() {
    let link = Url::with_label("a\"b\\c\n\u{1}", "\u{e9}\u{1f600}\u{7f}");
    assert_eq!(
        rustume::json_text::compact(&link).unwrap(),
        "{\"label\":\"a\\\"b\\\\c\\n\\u0001\",\"href\":\"\u{e9}\u{1f600}\u{7f}\"}"
    );
    let mut doc = ResumeData::default();
    doc.basics.name = "\u{0}\t\"\\/\u{2028}".to_string();
    doc.metadata.notes = "</script>".to_string();
    let compact = doc.to_json_compact().unwrap();
    assert!(compact.contains("\"name\":\"\\u0000\\t\\\"\\\\/\u{2028}\""));
    assert!(compact.contains("\"notes\":\"</script>\""));
    let pretty = doc.to_json().unwrap();
    assert_eq!(doc.to_json_bytes().unwrap(), pretty.as_bytes());
    let back = ResumeData::from_json(&pretty).unwrap();
    assert_eq!(back.basics.name, doc.basics.name);
    assert_eq!(back.to_json_compact().unwrap(), compact);
}
