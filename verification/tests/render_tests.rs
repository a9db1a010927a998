use rustume::render::diagnostics::{compile_failure, find_page, locate, pdf_failure, Diagnostic};
use rustume::render::engine::{assemble_source, page_size_hundredths, TEMPLATES};
use rustume::render::world::{
    font_directories, is_font_extension, resolve_source, template_path, today, Platform,
    SourceKind,
};
use rustume::render::{
    convert_field, get_template_theme, has_template, preprocess_rich_text, templates, to_json,
    RenderError, TypstRenderer,
};
use rustume::schema::{
    Basics, CustomItem, CustomSection, Decimal, Experience, PageFormat, Project, ResumeData,
    Section,
};
use rustume::utils::html_to_typst::escape_quoted;
use rustume::utils::{clean_output, escape_typst, html_to_typst, sanitize_html};

fn sample_resume() -> ResumeData {
    let mut resume = ResumeData::default();
    resume.basics = Basics::new("John Doe")
        .with_headline("Software Engineer")
        .with_email("john@example.com")
        .with_phone("+1-555-123-4567")
        .with_location("San Francisco, CA");

    resume.sections.summary.content =
        "Experienced software engineer with a passion for building great products.".to_string();

    resume.sections.experience = Section::new("experience", "Experience");
    resume.sections.experience.add_item(
        Experience::new("Acme Corp", "Senior Developer")
            .with_date("2020 - Present")
            .with_summary("Led development of core platform features."),
    );

    resume
}

#[test]
fn test_generate_source() {
    let renderer = TypstRenderer::new();
    let resume = sample_resume();

    let source = renderer.generate_source(&resume).unwrap();

    assert!(source.contains("rhyhorn"));
    assert!(source.contains("John Doe"));
    assert!(source.contains("Software Engineer"));
}

#[test]
fn test_template_theme() {
    let rhyhorn = get_template_theme("rhyhorn");
    assert_eq!(rhyhorn.primary, "#65a30d");

    let pikachu = get_template_theme("pikachu");
    assert_eq!(pikachu.primary, "#ca8a04");
}

#[test]
fn every_template_has_its_colours() {
    let want = [
        ("rhyhorn", "#ffffff", "#000000", "#65a30d"),
        ("azurill", "#ffffff", "#1f2937", "#d97706"),
        ("pikachu", "#ffffff", "#1c1917", "#ca8a04"),
        ("nosepass", "#ffffff", "#1f2937", "#3b82f6"),
        ("bronzor", "#ffffff", "#1f2937", "#0891b2"),
        ("chikorita", "#ffffff", "#166534", "#16a34a"),
        ("ditto", "#ffffff", "#1f2937", "#0891b2"),
        ("gengar", "#ffffff", "#1f2937", "#67b8c8"),
        ("glalie", "#ffffff", "#0f172a", "#14b8a6"),
        ("kakuna", "#ffffff", "#422006", "#78716c"),
        ("leafish", "#ffffff", "#1f2937", "#9f1239"),
        ("onyx", "#ffffff", "#111827", "#dc2626"),
    ];
    assert_eq!(templates().len(), want.len());
    for (i, (name, background, text, primary)) in want.iter().enumerate() {
        assert_eq!(templates()[i], *name);
        assert_eq!(TEMPLATES[i], *name);
        assert!(has_template(name));
        let theme = get_template_theme(name);
        assert_eq!(theme.background, *background);
        assert_eq!(theme.text, *text);
        assert_eq!(theme.primary, *primary);
    }
    assert!(!has_template("_common"));
    assert!(!has_template(""));
}

#[test]
fn test_rejects_excessive_margin() {
    let mut resume = ResumeData::default();
    resume.metadata.page.margin = 150;
    let renderer = TypstRenderer::new();
    let result = renderer.generate_source(&resume);
    assert!(result.is_err());
    let err = result.unwrap_err().to_string();
    assert!(err.contains("Margin"), "Expected margin error, got: {err}");
}

#[test]
fn test_rejects_extreme_font_size() {
    let mut resume = ResumeData::default();
    resume.metadata.typography.font.size = 2;
    let renderer = TypstRenderer::new();
    let result = renderer.generate_source(&resume);
    assert!(result.is_err());
    let err = result.unwrap_err().to_string();
    assert!(err.contains("Font size"), "Expected font size error, got: {err}");
}

#[test]
fn the_numbers_of_the_presentation_are_held_to_their_ranges() {
    let renderer = TypstRenderer::new();
    let mut resume = ResumeData::default();
    resume.metadata.page.margin = 100;
    resume.metadata.typography.font.size = 6;
    assert!(renderer.generate_source(&resume).is_ok());
    resume.metadata.typography.font.size = 72;
    assert!(renderer.generate_source(&resume).is_ok());
    resume.metadata.page.margin = 0;
    assert!(renderer.generate_source(&resume).is_ok());
    resume.metadata.typography.font.size = 73;
    let e = renderer.generate_source(&resume).unwrap_err();
    assert!(matches!(e, RenderError::InvalidConfig(_)));
    assert_eq!(
        e.to_string(),
        "Invalid configuration: Font size 73pt is outside the allowed range of 6\u{2013}72pt"
    );
    resume.metadata.page.margin = 101;
    let e = renderer.generate_source(&resume).unwrap_err();
    assert_eq!(e.to_string(), "Invalid configuration: Margin 101pt exceeds maximum of 100pt");
    resume.metadata.typography.font.size = 5;
    resume.metadata.page.margin = 18;
    assert!(matches!(renderer.generate_source(&resume), Err(RenderError::InvalidConfig(_))));
}

#[test]
fn test_preprocess_rich_text_converts_html() {
    let mut resume = ResumeData::default();
    resume.sections.summary.content = "<p>Built <strong>great</strong> things</p>".to_string();
    resume.sections.experience = Section::new("experience", "Experience");
    resume
        .sections
        .experience
        .add_item(Experience::new("Acme", "Dev").with_summary("<p>Led <em>core</em> work</p>"));

    let processed = preprocess_rich_text(&resume);

    assert!(
        processed.sections.summary.content.contains("bold"),
        "Expected Typst bold markup, got: {}",
        processed.sections.summary.content
    );
    assert!(
        processed.sections.experience.items[0].summary.contains("emph"),
        "Expected Typst emph markup, got: {}",
        processed.sections.experience.items[0].summary
    );
}

#[test]
fn only_rich_text_is_turned_into_markup() {
    let mut resume = sample_resume();
    resume.basics.headline = "<b>x</b> #1".to_string();
    resume.sections.summary.content = "<p>Built <strong>great</strong> things</p>".to_string();
    resume.sections.experience.items[0].company = "<i>Acme</i>".to_string();
    resume.sections.experience.items[0].summary = "<p>a</p><script>alert(1)</script>".to_string();
    resume.sections.projects.add_item(
        Project::new("P").with_description("<u>d</u>").with_summary("s #1"),
    );
    let mut custom: Section<CustomItem> = Section::new("c", "C");
    let mut item = CustomItem::new("n");
    item.summary = "<em>e</em>".to_string();
    item.description = "x_y".to_string();
    custom.add_item(item);
    resume.sections.custom.entries.push(CustomSection { key: "k".to_string(), section: custom });

    let processed = preprocess_rich_text(&resume);

    assert_eq!(processed.basics.headline, "<b>x</b> #1");
    assert_eq!(
        processed.sections.summary.content,
        "Built #text(weight: \"bold\")[great] things"
    );
    assert_eq!(processed.sections.experience.items[0].company, "<i>Acme</i>");
    assert_eq!(processed.sections.experience.items[0].summary, "a");
    assert_eq!(processed.sections.experience.items[0].id, resume.sections.experience.items[0].id);
    assert_eq!(processed.sections.projects.items[0].description, "#underline[d]");
    assert_eq!(processed.sections.projects.items[0].summary, "s \\#1");
    assert_eq!(processed.sections.custom.entries[0].key, "k");
    assert_eq!(processed.sections.custom.entries[0].section.items[0].summary, "#emph[e]");
    assert_eq!(processed.sections.custom.entries[0].section.items[0].description, "x\\_y");
    assert_eq!(resume.sections.projects.items[0].summary, "s #1");
}

#[test]
fn test_preprocess_plain_text_passthrough() {
    let mut resume = ResumeData::default();
    resume.sections.summary.content = "Plain text summary".to_string();

    let processed = preprocess_rich_text(&resume);

    assert_eq!(processed.sections.summary.content, "Plain text summary");
}

#[test]
fn test_generate_source_with_html() {
    let renderer = TypstRenderer::new();
    let mut resume = sample_resume();
    resume.sections.summary.content = "<p>Built <strong>great</strong> things</p>".to_string();

    let source = renderer.generate_source(&resume).unwrap();

    assert!(!source.contains("<strong>"), "Source should not contain raw HTML: {source}");
}

#[test]
fn integration_tests_test_templates_list() {
    assert!(!TEMPLATES.is_empty());
    assert!(TEMPLATES.contains(&"rhyhorn"));
}

#[test]
fn test_unknown_template_theme_falls_back() {
    let unknown = get_template_theme("unknown");
    assert_eq!(unknown.primary, "#65a30d");
    assert_eq!(unknown.background, "#ffffff");
    assert_eq!(unknown.text, "#000000");
}

fn points(format: PageFormat) -> (f64, f64) {
    let (width, height) = page_size_hundredths(format);
    (f64::from(width) / 100.0, f64::from(height) / 100.0)
}

#[test]
fn test_page_sizes() {
    let a4 = points(PageFormat::A4);
    assert!((a4.0 - 595.28).abs() < 0.01);
    assert!((a4.1 - 841.89).abs() < 0.01);

    let letter = points(PageFormat::Letter);
    assert!((letter.0 - 612.0).abs() < 0.01);
    assert!((letter.1 - 792.0).abs() < 0.01);
}

#[test]
fn the_paper_has_its_size() {
    assert_eq!(page_size_hundredths(PageFormat::A4), (59528, 84189));
    assert_eq!(page_size_hundredths(PageFormat::Letter), (61200, 79200));
}

#[test]
fn test_generate_source_minimal() {
    let resume = ResumeData::default();
    let renderer = TypstRenderer::new();

    let source = renderer.generate_source(&resume);
    assert!(source.is_ok());

    let source = source.unwrap();
    assert!(source.contains("#import \"templates/rhyhorn.typ\": template"));
    assert!(source.contains("#template(data)"));
}

#[test]
fn test_generate_source_with_data() {
    let mut resume = ResumeData::default();
    resume.basics = Basics::new("Test User")
        .with_headline("Software Engineer")
        .with_email("test@example.com");

    let renderer = TypstRenderer::new();
    let source = renderer.generate_source(&resume).unwrap();

    assert!(source.contains("Test User"));
    assert!(source.contains("Software Engineer"));
}

#[test]
fn test_generate_source_page_settings() {
    let mut resume = ResumeData::default();
    resume.metadata.page.format = PageFormat::Letter;
    resume.metadata.page.margin = 24;

    let renderer = TypstRenderer::new();
    let source = renderer.generate_source(&resume).unwrap();

    assert!(source.contains("us-letter"));
    assert!(source.contains("margin: 24pt"));
}

#[test]
fn the_source_is_assembled_to_the_letter() {
    let source = assemble_source("onyx", PageFormat::A4, 18, "A \"B\" \\C", 14, "{\"a\":\"b\\n\"}");
    assert_eq!(
        source,
        "#import \"templates/onyx.typ\": template\n\n// Page configuration\n#set page(\n  paper: \"a4\",\n  margin: 18pt,\n)\n\n// Typography configuration\n#set text(\n  font: \"A \\\"B\\\" \\\\C\",\n  size: 14pt,\n)\n\n// Parse the resume data\n#let data = json.decode(\"{\\\"a\\\":\\\"b\\\\n\\\"}\")\n\n// Render the template\n#template(data)\n"
    );
}

#[test]
fn the_document_goes_into_the_source_as_its_json() {
    let mut resume = ResumeData::default();
    resume.basics.name = "A \"quoted\" name".to_string();
    let json = to_json(&resume).unwrap();
    assert!(json.starts_with("{\"basics\":{\"name\":\"A \\\"quoted\\\" name\",\"headline\":\"\""));
    assert!(json.contains("\"picture\":{\"url\":\"\",\"size\":64,\"aspectRatio\":1.0,\"borderRadius\":0,\"effects\":{\"hidden\":false,\"border\":false,\"grayscale\":false}}"));
    assert!(json.contains("\"summary\":{\"id\":\"summary\",\"name\":\"Summary\",\"columns\":1,\"separateLinks\":true,\"visible\":true,\"content\":\"\"}"));
    assert!(json.contains("\"custom\":{}"));
    assert!(json.contains("\"page\":{\"margin\":18,\"format\":\"a4\",\"options\":{\"breakLine\":true,\"pageNumbers\":true}}"));
    assert!(json.contains("\"typography\":{\"font\":{\"family\":\"IBM Plex Serif\",\"subset\":\"latin\",\"variants\":[\"regular\"],\"size\":14},\"lineHeight\":1.5,\"hideIcons\":false,\"underlineLinks\":true}"));
    assert!(json.ends_with(",\"notes\":\"\"}}"));
    let parsed: serde_json::Value = serde_json::from_str(&json).unwrap();
    assert_eq!(parsed["metadata"]["layout"][0][1][0], "skills");

    let source = TypstRenderer::new().generate_source(&resume).unwrap();
    let escaped = json.replace('\\', "\\\\").replace('"', "\\\"");
    assert!(source.contains(&format!("json.decode(\"{}\")", escaped)));
}

#[test]
fn a_number_that_is_no_number_is_written_as_null() {
    let mut resume = ResumeData::default();
    resume.metadata.typography.line_height = Decimal { text: "abc".to_string() };
    resume.basics.picture.aspect_ratio = Decimal { text: "-0.5e+3".to_string() };
    let json = to_json(&resume).unwrap();
    assert!(json.contains("\"lineHeight\":null"));
    assert!(json.contains("\"aspectRatio\":-0.5e+3"));
    assert!(Decimal::parse("01").is_none());
    assert!(Decimal::parse("1.").is_none());
    assert!(Decimal::parse(".5").is_none());
    assert!(Decimal::parse("1e").is_none());
    assert!(Decimal::parse("-").is_none());
    assert!(Decimal::parse("").is_none());
    assert!(Decimal::parse("0").is_some());
    assert!(Decimal::parse("-0.0").is_some());
    assert!(Decimal::parse("12E5").is_some());
}

#[test]
fn test_render_html_not_supported() {
    let resume = ResumeData::default();
    let renderer = TypstRenderer::new();

    let result = renderer.render_html(&resume);
    assert!(result.is_err(), "HTML rendering should not be supported");
}

#[test]
fn test_renderer_with_custom_template() {
    let renderer = TypstRenderer::with_template("rhyhorn");
    let resume = ResumeData::default();

    let source = renderer.generate_source(&resume).unwrap();
    assert!(source.contains("rhyhorn"));
}

#[test]
fn test_renderer_falls_back_to_default() {
    let mut resume = ResumeData::default();
    resume.metadata.template = "nonexistent_template".to_string();

    let renderer = TypstRenderer::new();
    let source = renderer.generate_source(&resume).unwrap();

    assert!(source.contains("rhyhorn"));
}

#[test]
fn the_renderer_falls_back_on_its_own_template() {
    let mut resume = ResumeData::default();
    resume.metadata.template = "nonexistent_template".to_string();
    let source = TypstRenderer::with_template("onyx").generate_source(&resume).unwrap();
    assert!(source.starts_with("#import \"templates/onyx.typ\": template\n"));
    resume.metadata.template = "gengar".to_string();
    let source = TypstRenderer::with_template("onyx").generate_source(&resume).unwrap();
    assert!(source.starts_with("#import \"templates/gengar.typ\": template\n"));
    assert_eq!(TypstRenderer::default().default_template, "rhyhorn");
}

#[test]
fn plain_text_passthrough() {
    assert_eq!(html_to_typst("Hello world"), "Hello world");
}

#[test]
fn empty_string() {
    assert_eq!(html_to_typst(""), "");
    assert_eq!(html_to_typst("   "), "");
}

#[test]
fn empty_paragraph() {
    assert_eq!(html_to_typst("<p></p>"), "");
}

#[test]
fn single_paragraph() {
    assert_eq!(html_to_typst("<p>Hello world</p>"), "Hello world");
}

#[test]
fn multiple_paragraphs() {
    let result = html_to_typst("<p>First</p><p>Second</p>");
    assert_eq!(result, "First\n\nSecond");
}

#[test]
fn bold() {
    assert_eq!(html_to_typst("<p><strong>bold</strong></p>"), "#text(weight: \"bold\")[bold]");
}

#[test]
fn bold_b_tag() {
    assert_eq!(html_to_typst("<p><b>bold</b></p>"), "#text(weight: \"bold\")[bold]");
}

#[test]
fn italic() {
    assert_eq!(html_to_typst("<p><em>italic</em></p>"), "#emph[italic]");
}

#[test]
fn italic_i_tag() {
    assert_eq!(html_to_typst("<p><i>italic</i></p>"), "#emph[italic]");
}

#[test]
fn underline() {
    assert_eq!(html_to_typst("<p><u>underlined</u></p>"), "#underline[underlined]");
}

#[test]
fn link() {
    assert_eq!(
        html_to_typst(r#"<p><a href="https://example.com">Example</a></p>"#),
        "#link(\"https://example.com\")[Example]"
    );
}

#[test]
fn link_with_quotes_in_url() {
    assert_eq!(
        html_to_typst(r#"<p><a href="https://example.com?q=a&quot;b">Link</a></p>"#),
        "#link(\"https://example.com?q=a\\\"b\")[Link]"
    );
}

#[test]
fn bullet_list() {
    let html = "<ul><li>Item 1</li><li>Item 2</li></ul>";
    let result = html_to_typst(html);
    assert!(result.contains("- Item 1"));
    assert!(result.contains("- Item 2"));
}

#[test]
fn ordered_list() {
    let html = "<ol><li>First</li><li>Second</li></ol>";
    let result = html_to_typst(html);
    assert!(result.contains("+ First"));
    assert!(result.contains("+ Second"));
}

#[test]
fn lists_are_written_line_by_line() {
    assert_eq!(html_to_typst("<ul><li>Item 1</li><li>Item 2</li></ul>"), "- Item 1\n- Item 2");
    assert_eq!(
        html_to_typst("<ol>\n  <li> First </li>\n  <li></li>\n  <li><b>Second</b></li>\n</ol><p>x</p>"),
        "+ First\n+ #text(weight: \"bold\")[Second]\n\nx"
    );
    assert_eq!(html_to_typst("<ul><li>  </li></ul>"), "");
    assert_eq!(html_to_typst("<p>a</p><!-- c --><p>b</p>"), "a\n\nb");
    assert_eq!(html_to_typst("<a>x</a>"), "#link(\"\")[x]");
    assert_eq!(html_to_typst("<strong></strong><em></em>"), "");
}

#[test]
fn line_break() {
    assert_eq!(html_to_typst("<p>Line 1<br>Line 2</p>"), "Line 1#linebreak()\nLine 2");
}

#[test]
fn nested_bold_in_italic() {
    let html = "<p><em>italic <strong>and bold</strong></em></p>";
    let result = html_to_typst(html);
    assert_eq!(result, "#emph[italic #text(weight: \"bold\")[and bold]]");
}

#[test]
fn special_char_escaping() {
    assert_eq!(html_to_typst("<p>#hashtag</p>"), "\\#hashtag");
}

#[test]
fn multiple_special_chars() {
    let result = html_to_typst("<p>Use @mention and $var</p>");
    assert!(result.contains("\\@mention"));
    assert!(result.contains("\\$var"));
}

#[test]
fn every_special_character_is_escaped() {
    assert_eq!(
        escape_typst("\\ # [ ] $ @ * _ ` % ~ < > a&b"),
        "\\\\ \\# \\[ \\] \\$ \\@ \\* \\_ \\` \\% \\~ \\< \\> a&b"
    );
    assert_eq!(html_to_typst("  a#b  "), "a\\#b");
    assert_eq!(escape_typst(""), "");
}

#[test]
fn mixed_content() {
    let html = "<p>Led development of <strong>core platform</strong>. Achieved <em>40% improvement</em>.</p>";
    let result = html_to_typst(html);
    assert!(result.contains("Led development of "));
    assert!(result.contains("#text(weight: \"bold\")[core platform]"));
    assert!(result.contains("#emph[40\\% improvement]"));
}

#[test]
fn unknown_tags_stripped() {
    assert_eq!(html_to_typst("<p><span>text</span></p>"), "text");
}

#[test]
fn list_with_formatting() {
    let html = "<ul><li><strong>Bold</strong> item</li><li>Normal item</li></ul>";
    let result = html_to_typst(html);
    assert!(result.contains("- #text(weight: \"bold\")[Bold] item"));
    assert!(result.contains("- Normal item"));
}

#[test]
fn paragraph_then_list() {
    let html = "<p>Responsibilities:</p><ul><li>Item A</li><li>Item B</li></ul>";
    let result = html_to_typst(html);
    assert!(result.contains("Responsibilities:"));
    assert!(result.contains("- Item A"));
    assert!(result.contains("- Item B"));
}

#[test]
fn tiptap_empty_patterns() {
    assert_eq!(html_to_typst("<p></p>"), "");
    assert_eq!(html_to_typst("<p><br></p>"), "");
}

#[test]
fn what_an_editor_leaves_behind_becomes_nothing() {
    assert_eq!(convert_field("<p></p>"), "");
    assert_eq!(convert_field("<p><br></p>"), "");
    assert_eq!(convert_field("<p>&nbsp;</p>"), "");
    assert_eq!(convert_field(""), "");
    assert_eq!(convert_field("Plain text summary"), "Plain text summary");
    assert_eq!(
        convert_field("<p>Built <strong>great</strong> things</p>"),
        "Built #text(weight: \"bold\")[great] things"
    );
}

#[test]
fn blank_lines_are_cut_down_and_the_ends_trimmed() {
    assert_eq!(clean_output("a\n\n\n\n\nb\n\n\nc\n\n".to_string()), "a\n\nb\n\nc");
    assert_eq!(clean_output("\n\n\n".to_string()), "");
    assert_eq!(clean_output("  a\nb  ".to_string()), "a\nb");
    let once = clean_output(" x\n\n\n\ny \n\n\n".to_string());
    assert_eq!(clean_output(once.clone()), once);
}

#[test]
fn test_sanitize_html_allows_safe_tags() {
    let input = "<p>Hello <strong>world</strong></p>";
    let output = sanitize_html(input);
    assert_eq!(output, "<p>Hello <strong>world</strong></p>");
}

#[test]
fn test_sanitize_html_removes_script() {
    let input = "<p>Hello</p><script>alert('xss')</script>";
    let output = sanitize_html(input);
    assert!(!output.contains("script"));
}

#[test]
fn test_sanitize_html_allows_link_attributes() {
    let input = r#"<a href="https://example.com" title="Example" target="_blank">Link</a>"#;
    let output = sanitize_html(input);
    assert!(output.contains("href"));
    assert!(output.contains("title"));
    assert!(output.contains("target"));
    assert!(output.contains(r#"rel="noopener noreferrer""#));
}

#[test]
fn test_sanitize_html_allows_img_attributes() {
    let input = r#"<img src="photo.jpg" alt="Photo" title="My Photo">"#;
    let output = sanitize_html(input);
    assert!(output.contains("src"));
    assert!(output.contains("alt"));
    assert!(output.contains("title"));
}

#[test]
fn test_sanitize_html_allows_class_and_id() {
    let input = r#"<div id="main" class="container">Content</div>"#;
    let output = sanitize_html(input);
    assert!(output.contains("id"));
    assert!(output.contains("class"));
}

#[test]
fn what_is_not_allowed_is_taken_out() {
    assert_eq!(sanitize_html("<blink>a</blink><style>b{}</style>c"), "ac");
    assert_eq!(
        sanitize_html(r#"<a href="/rel" onclick="x()" rel="me">l</a>"#),
        r#"<a href="/rel" rel="noopener noreferrer">l</a>"#
    );
    assert_eq!(sanitize_html(r#"<img src="a.png" width="3">"#), r#"<img src="a.png">"#);
    assert_eq!(sanitize_html(r#"<a href="javascript:x()">l</a>"#), r#"<a rel="noopener noreferrer">l</a>"#);
}

#[test]
fn a_diagnostic_names_the_line_and_shows_it() {
    let source = "first\n  second line  \nthird";
    assert_eq!(locate(source, 0), (1, "first".to_string()));
    assert_eq!(locate(source, 5), (1, "first".to_string()));
    assert_eq!(locate(source, 6), (2, "second line".to_string()));
    assert_eq!(locate(source, 12), (2, "second line".to_string()));
    assert_eq!(locate(source, 26), (3, "third".to_string()));
    assert_eq!(locate("", 0), (1, "".to_string()));
    assert_eq!(locate("a\n", 2), (2, "".to_string()));

    let placed = Diagnostic {
        path: "/main.typ".to_string(),
        place: Some((2, "second line".to_string())),
        message: "unknown variable".to_string(),
    };
    let bare = Diagnostic { path: "/x.typ".to_string(), place: None, message: "m".to_string() };
    assert_eq!(placed.to_string(), "/main.typ:2: second line: unknown variable");
    assert_eq!(bare.to_string(), "/x.typ: m");
    let e = compile_failure(&vec![placed, bare]);
    assert_eq!(
        e.to_string(),
        "Render failed: Typst compilation failed:\n/main.typ:2: second line: unknown variable\n/x.typ: m"
    );
    let e = pdf_failure(&vec!["a".to_string(), "b".to_string()]);
    assert_eq!(e.to_string(), "Render failed: PDF generation failed:\na\nb");
}

#[test]
fn a_page_that_is_not_there_is_not_found() {
    assert_eq!(find_page(3, 0).unwrap(), 0);
    assert_eq!(find_page(3, 2).unwrap(), 2);
    let e = find_page(3, 3).unwrap_err();
    assert!(matches!(e, RenderError::RenderFailed(_)));
    assert_eq!(e.to_string(), "Render failed: Page 3 not found");
    assert_eq!(find_page(0, 999).unwrap_err().to_string(), "Render failed: Page 999 not found");
}

#[test]
fn the_engine_is_shown_the_driver_and_the_catalogue_only() {
    assert!(matches!(resolve_source("main.typ"), SourceKind::Main));
    assert!(matches!(resolve_source("templates/onyx.typ"), SourceKind::Template(n) if n == "onyx"));
    assert!(matches!(resolve_source("templates/_common.typ"), SourceKind::Template(n) if n == "_common"));
    assert!(matches!(resolve_source("templates/nope.typ"), SourceKind::Missing));
    assert!(matches!(resolve_source("templates/.typ"), SourceKind::Missing));
    assert!(matches!(resolve_source("templates/onyx.typ2"), SourceKind::Missing));
    assert!(matches!(resolve_source("/etc/passwd"), SourceKind::Missing));
    assert!(matches!(resolve_source(""), SourceKind::Missing));
    assert_eq!(template_path("ditto"), "templates/ditto.typ");
}

#[test]
fn fonts_are_known_by_their_extension() {
    for ext in ["ttf", "otf", "ttc", "woff", "woff2", "TTF", "Otf", "WOFF2"] {
        assert!(is_font_extension(ext), "{ext}");
    }
    for ext in ["", "txt", "ttf2", "eot", "svg"] {
        assert!(!is_font_extension(ext), "{ext}");
    }
    assert_eq!(
        font_directories(Platform::MacOs, Some("/h"), None),
        vec!["/System/Library/Fonts", "/Library/Fonts"]
    );
    assert_eq!(
        font_directories(Platform::Linux, Some("/home/u"), None),
        vec!["/usr/share/fonts", "/usr/local/share/fonts", "/home/u/.fonts"]
    );
    assert_eq!(
        font_directories(Platform::Linux, None, None),
        vec!["/usr/share/fonts", "/usr/local/share/fonts"]
    );
    assert_eq!(font_directories(Platform::Windows, None, Some("C:\\Windows")), vec!["C:\\Windows\\Fonts"]);
    assert!(font_directories(Platform::Windows, None, None).is_empty());
    assert!(font_directories(Platform::Other, Some("/h"), Some("w")).is_empty());
}

#[test]
fn today_is_shifted_by_the_hours_that_are_asked_for() {
    assert_eq!(today(0, None), Some((1970, 1, 1)));
    assert_eq!(today(0, Some(-1)), Some((1969, 12, 31)));
    assert_eq!(today(86399, Some(0)), Some((1970, 1, 1)));
    assert_eq!(today(86399, Some(1)), Some((1970, 1, 2)));
    assert_eq!(today(1_700_000_000, Some(24)), Some((2023, 11, 15)));
    assert_eq!(today(0, Some(i64::MAX)), None);
    assert_eq!(today(i64::MAX, None), None);
}

#[test]
fn each_render_error_reads_as_heading_and_diagnostic() {
    assert_eq!(RenderError::TemplateNotFound("x".to_string()).to_string(), "Template not found: x");
    assert_eq!(RenderError::RenderFailed("y".to_string()).to_string(), "Render failed: y");
    assert_eq!(RenderError::InvalidConfig("z".to_string()).to_string(), "Invalid configuration: z");
}

#[test]
fn text_between_quotes_has_its_backslashes_and_quotes_escaped() {
    assert_eq!(escape_quoted(r#"a"b\c"#), r#"a\"b\\c"#);
    assert_eq!(escape_quoted("IBM Plex Serif"), "IBM Plex Serif");
    assert_eq!(escape_quoted("#[x]<y>"), "#[x]<y>");
}
