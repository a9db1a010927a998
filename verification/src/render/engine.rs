//! The renderer's side of the engine: the catalogue of templates and the
//! source that drives the engine for a document.

use vstd::prelude::*;
use crate::json_text::{JsonWriter, ToJson};
use crate::numeral::{decimal, push_decimal};
use crate::render::rich_text::{preprocess_rich_text, RichText};
use crate::render::traits::RenderError;
use crate::schema::metadata::PageFormat;
use crate::schema::resume::ResumeData;
use crate::search::starts_with;
use crate::text::{chars_of, owned, push_str, same_text, string_of};
use crate::utils::html_to_typst::{push_quoted, quoted};

verus! {

/// The templates of the catalogue.
pub const TEMPLATES: [&'static str; 12] = [
    "rhyhorn",
    "azurill",
    "pikachu",
    "nosepass",
    "bronzor",
    "chikorita",
    "ditto",
    "gengar",
    "glalie",
    "kakuna",
    "leafish",
    "onyx",
];

/// The names of the templates, in the order of the catalogue.
pub open spec fn template_names() -> Seq<Seq<char>> {
    seq![
        "rhyhorn"@,
        "azurill"@,
        "pikachu"@,
        "nosepass"@,
        "bronzor"@,
        "chikorita"@,
        "ditto"@,
        "gengar"@,
        "glalie"@,
        "kakuna"@,
        "leafish"@,
        "onyx"@,
    ]
}

/// Whether the catalogue has a template of that name.
pub open spec fn is_template(name: Seq<char>) -> bool {
    exists|i: int| 0 <= i < template_names().len() && #[trigger] template_names()[i] == name
}

/// The names of the templates, in the order of the catalogue.
pub fn templates() -> (r: Vec<&'static str>)
    ensures
        crate::utils::sanitize::strs(r@) == template_names(),
{
    let mut r: Vec<&'static str> = Vec::new();
    r.push("rhyhorn");
    r.push("azurill");
    r.push("pikachu");
    r.push("nosepass");
    r.push("bronzor");
    r.push("chikorita");
    r.push("ditto");
    r.push("gengar");
    r.push("glalie");
    r.push("kakuna");
    r.push("leafish");
    r.push("onyx");
    assert(crate::utils::sanitize::strs(r@) =~= template_names());
    r
}

/// Whether the catalogue has a template of that name.
pub fn has_template(name: &str) -> (r: bool)
    ensures
        r == is_template(name@),
{
    let all = templates();
    let mut i: usize = 0;
    while i < all.len()
        invariant
            i <= all@.len(),
            crate::utils::sanitize::strs(all@) == template_names(),
            forall|k: int| 0 <= k < i ==> template_names()[k] != name@,
        decreases all@.len() - i,
    {
        assert(crate::utils::sanitize::strs(all@)[i as int] == all@[i as int]@);
        if same_text(all[i], name) {
            return true;
        }
        i += 1;
    }
    false
}

/// The colours of a template: background, text and primary.
#[derive(Debug, Clone)]
pub struct TemplateTheme {
    pub background: String,
    pub text: String,
    pub primary: String,
}

/// The colours that a template has by default: background, text, primary.
/// A name that the catalogue lacks has those of `rhyhorn`.
pub open spec fn theme_of(template: Seq<char>) -> (Seq<char>, Seq<char>, Seq<char>) {
    if template == "rhyhorn"@ {
        ("#ffffff"@, "#000000"@, "#65a30d"@)
    } else if template == "azurill"@ {
        ("#ffffff"@, "#1f2937"@, "#d97706"@)
    } else if template == "pikachu"@ {
        ("#ffffff"@, "#1c1917"@, "#ca8a04"@)
    } else if template == "nosepass"@ {
        ("#ffffff"@, "#1f2937"@, "#3b82f6"@)
    } else if template == "bronzor"@ {
        ("#ffffff"@, "#1f2937"@, "#0891b2"@)
    } else if template == "chikorita"@ {
        ("#ffffff"@, "#166534"@, "#16a34a"@)
    } else if template == "ditto"@ {
        ("#ffffff"@, "#1f2937"@, "#0891b2"@)
    } else if template == "gengar"@ {
        ("#ffffff"@, "#1f2937"@, "#67b8c8"@)
    } else if template == "glalie"@ {
        ("#ffffff"@, "#0f172a"@, "#14b8a6"@)
    } else if template == "kakuna"@ {
        ("#ffffff"@, "#422006"@, "#78716c"@)
    } else if template == "leafish"@ {
        ("#ffffff"@, "#1f2937"@, "#9f1239"@)
    } else if template == "onyx"@ {
        ("#ffffff"@, "#111827"@, "#dc2626"@)
    } else {
        ("#ffffff"@, "#000000"@, "#65a30d"@)
    }
}

fn theme(background: &str, text: &str, primary: &str) -> (r: TemplateTheme)
    ensures
        r.background@ == background@,
        r.text@ == text@,
        r.primary@ == primary@,
{
    TemplateTheme { background: owned(background), text: owned(text), primary: owned(primary) }
}

/// The colours that a template has by default.
pub fn get_template_theme(template: &str) -> (r: TemplateTheme)
    ensures
        (r.background@, r.text@, r.primary@) == theme_of(template@),
{
    if same_text(template, "rhyhorn") {
        theme("#ffffff", "#000000", "#65a30d")
    } else if same_text(template, "azurill") {
        theme("#ffffff", "#1f2937", "#d97706")
    } else if same_text(template, "pikachu") {
        theme("#ffffff", "#1c1917", "#ca8a04")
    } else if same_text(template, "nosepass") {
        theme("#ffffff", "#1f2937", "#3b82f6")
    } else if same_text(template, "bronzor") {
        theme("#ffffff", "#1f2937", "#0891b2")
    } else if same_text(template, "chikorita") {
        theme("#ffffff", "#166534", "#16a34a")
    } else if same_text(template, "ditto") {
        theme("#ffffff", "#1f2937", "#0891b2")
    } else if same_text(template, "gengar") {
        theme("#ffffff", "#1f2937", "#67b8c8")
    } else if same_text(template, "glalie") {
        theme("#ffffff", "#0f172a", "#14b8a6")
    } else if same_text(template, "kakuna") {
        theme("#ffffff", "#422006", "#78716c")
    } else if same_text(template, "leafish") {
        theme("#ffffff", "#1f2937", "#9f1239")
    } else if same_text(template, "onyx") {
        theme("#ffffff", "#111827", "#dc2626")
    } else {
        theme("#ffffff", "#000000", "#65a30d")
    }
}

// ---------------------------------------------------------------------------
// The source that drives the engine
// ---------------------------------------------------------------------------

/// The name by which the engine knows the paper.
pub open spec fn paper_name(format: PageFormat) -> Seq<char> {
    match format {
        PageFormat::A4 => "a4"@,
        PageFormat::Letter => "us-letter"@,
    }
}

/// The source that drives the engine: it imports the template, sets the
/// page and the text, decodes the document from the JSON between double
/// quotes, and calls the template with it. The font's family and the JSON
/// are given as they stand between double quotes.
pub open spec fn driver_text(
    template: Seq<char>,
    paper: Seq<char>,
    margin: nat,
    family: Seq<char>,
    size: nat,
    json: Seq<char>,
) -> Seq<char> {
    "#import \"templates/"@ + template + ".typ\": template\n\n// Page configuration\n#set page(\n  paper: \""@
        + paper + "\",\n  margin: "@ + decimal(margin)
        + "pt,\n)\n\n// Typography configuration\n#set text(\n  font: \""@ + family
        + "\",\n  size: "@ + decimal(size)
        + "pt,\n)\n\n// Parse the resume data\n#let data = json.decode(\""@ + json
        + "\")\n\n// Render the template\n#template(data)\n"@
}

/// Writes the source that drives the engine for a template, a page, a
/// font and the JSON of a document.
pub fn assemble_source(
    template: &str,
    format: PageFormat,
    margin: u32,
    family: &str,
    size: u32,
    json: &str,
) -> (r: String)
    ensures
        r@ == driver_text(
            template@,
            paper_name(format),
            margin as nat,
            quoted(family@),
            size as nat,
            quoted(json@),
        ),
{
    let mut out: Vec<char> = Vec::new();
    push_str(&mut out, "#import \"templates/");
    push_str(&mut out, template);
    push_str(
        &mut out,
        ".typ\": template\n\n// Page configuration\n#set page(\n  paper: \"",
    );
    match format {
        PageFormat::A4 => push_str(&mut out, "a4"),
        PageFormat::Letter => push_str(&mut out, "us-letter"),
    }
    push_str(&mut out, "\",\n  margin: ");
    push_decimal(&mut out, margin as u64);
    push_str(&mut out, "pt,\n)\n\n// Typography configuration\n#set text(\n  font: \"");
    push_quoted(&mut out, &chars_of(family));
    push_str(&mut out, "\",\n  size: ");
    push_decimal(&mut out, size as u64);
    push_str(&mut out, "pt,\n)\n\n// Parse the resume data\n#let data = json.decode(\"");
    push_quoted(&mut out, &chars_of(json));
    push_str(&mut out, "\")\n\n// Render the template\n#template(data)\n");
    assert(out@ =~= driver_text(
        template@,
        paper_name(format),
        margin as nat,
        quoted(family@),
        size as nat,
        quoted(json@),
    ));
    string_of(&out)
}

/// What is said of a margin above 100 points.
pub open spec fn margin_message(margin: nat) -> Seq<char> {
    "Margin "@ + decimal(margin) + "pt exceeds maximum of 100pt"@
}

/// What is said of a font smaller than 6 points or larger than 72.
pub open spec fn font_size_message(size: nat) -> Seq<char> {
    "Font size "@ + decimal(size) + "pt is outside the allowed range of 6\u{2013}72pt"@
}

/// Whether the numbers of the presentation are in range.
pub open spec fn config_in_range(resume: ResumeData) -> bool {
    resume.metadata.page.margin <= 100 && 6 <= resume.metadata.typography.font.size <= 72
}

/// Holds the numbers of the presentation against their ranges: the margin
/// first, then the size of the font.
pub fn check_config(resume: &ResumeData) -> (r: Result<(), RenderError>)
    ensures
        r is Ok <==> config_in_range(*resume),
        r matches Err(e) ==> e is InvalidConfig && e.detail() == if resume.metadata.page.margin
            > 100 {
            margin_message(resume.metadata.page.margin as nat)
        } else {
            font_size_message(resume.metadata.typography.font.size as nat)
        },
{
    let margin = resume.metadata.page.margin;
    if margin > 100 {
        let mut out: Vec<char> = Vec::new();
        push_str(&mut out, "Margin ");
        push_decimal(&mut out, margin as u64);
        push_str(&mut out, "pt exceeds maximum of 100pt");
        assert(out@ =~= margin_message(margin as nat));
        return Err(RenderError::InvalidConfig(string_of(&out)));
    }
    let size = resume.metadata.typography.font.size;
    if size < 6 || size > 72 {
        let mut out: Vec<char> = Vec::new();
        push_str(&mut out, "Font size ");
        push_decimal(&mut out, size as u64);
        push_str(&mut out, "pt is outside the allowed range of 6\u{2013}72pt");
        assert(out@ =~= font_size_message(size as nat));
        return Err(RenderError::InvalidConfig(string_of(&out)));
    }
    Ok(())
}

/// The JSON of a document, without any white space. A document of which
/// a string cannot be quoted is a failure of rendering, worded as one of
/// serialisation.
pub fn to_json(resume: &ResumeData) -> (r: Result<String, RenderError>)
    ensures
        match r {
            Ok(json) => resume.writable() && json@ == resume.json(),
            Err(e) => !resume.writable() && e is RenderFailed && starts_with(
                e.detail(),
                "JSON serialization failed: "@,
            ),
        },
{
    match crate::json_text::compact(resume) {
        Ok(json) => Ok(json),
        Err(e) => {
            let mut out: Vec<char> = Vec::new();
            push_str(&mut out, "JSON serialization failed: ");
            let ghost head = out@;
            push_str(&mut out, e.as_str());
            assert(out@.subrange(0, head.len() as int) =~= head);
            Err(RenderError::RenderFailed(string_of(&out)))
        },
    }
}

/// The renderer, with the template that stands in for one that the
/// catalogue lacks.
#[derive(Debug, Clone)]
pub struct TypstRenderer {
    pub default_template: String,
}

impl TypstRenderer {
    /// A renderer that falls back on `rhyhorn`.
    pub fn new() -> (r: TypstRenderer)
        ensures
            r.default_template@ == "rhyhorn"@,
    {
        TypstRenderer { default_template: owned("rhyhorn") }
    }

    /// A renderer that falls back on the given template.
    pub fn with_template(template: &str) -> (r: TypstRenderer)
        ensures
            r.default_template@ == template@,
    {
        TypstRenderer { default_template: owned(template) }
    }

    /// The template that is used for a document: its own, where the
    /// catalogue has it, else the renderer's.
    pub open spec fn chosen_template(self, resume: ResumeData) -> Seq<char> {
        if is_template(resume.metadata.template@) {
            resume.metadata.template@
        } else {
            self.default_template@
        }
    }

    /// Whether `source` drives the engine for a processed copy of the
    /// document.
    pub open spec fn drives(self, resume: ResumeData, processed: ResumeData, source: Seq<char>) -> bool {
        source == driver_text(
            self.chosen_template(resume),
            paper_name(processed.metadata.page.format),
            processed.metadata.page.margin as nat,
            quoted(processed.metadata.typography.font.family@),
            processed.metadata.typography.font.size as nat,
            quoted(processed.json()),
        )
    }

    /// The source that drives the engine for a document. A margin above
    /// 100 points or a font outside 6 to 72 points is refused. Every rich
    /// text of the document goes in as markup; the document goes in as
    /// JSON.
    pub fn generate_source(&self, resume: &ResumeData) -> (r: Result<String, RenderError>)
        ensures
            !config_in_range(*resume) ==> (r matches Err(e) && e is InvalidConfig && e.detail()
                == if resume.metadata.page.margin > 100 {
                margin_message(resume.metadata.page.margin as nat)
            } else {
                font_size_message(resume.metadata.typography.font.size as nat)
            }),
            config_in_range(*resume) ==> exists|processed: ResumeData|
                resume.processed_as(processed) && match r {
                    Ok(source) => processed.writable() && self.drives(
                        *resume,
                        processed,
                        source@,
                    ),
                    Err(e) => !processed.writable() && e is RenderFailed,
                },
    {
        match check_config(resume) {
            Ok(()) => {},
            Err(e) => return Err(e),
        }
        let template = if has_template(resume.metadata.template.as_str()) {
            resume.metadata.template.as_str()
        } else {
            self.default_template.as_str()
        };
        let processed = preprocess_rich_text(resume);
        let json = match to_json(&processed) {
            Ok(json) => json,
            Err(e) => {
                assert(resume.processed_as(processed) && !processed.writable());
                return Err(e);
            },
        };
        let source = assemble_source(
            template,
            processed.metadata.page.format,
            processed.metadata.page.margin,
            processed.metadata.typography.font.family.as_str(),
            processed.metadata.typography.font.size,
            json.as_str(),
        );
        assert(resume.processed_as(processed) && self.drives(*resume, processed, source@));
        Ok(source)
    }
}

impl Default for TypstRenderer {
    fn default() -> (r: TypstRenderer)
        ensures
            r.default_template@ == "rhyhorn"@,
    {
        TypstRenderer::new()
    }
}

impl TypstRenderer {
    /// Rendering to HTML, which the engine does not do: it fails for every
    /// document.
    pub fn render_html(&self, resume: &ResumeData) -> (r: Result<String, RenderError>)
        ensures
            r matches Err(e) && e is RenderFailed && e.detail()
                == "HTML rendering not supported via Typst. Use web-based preview."@,
    {
        Err(crate::render::diagnostics::html_unsupported())
    }
}

/// The size of the paper in hundredths of a point, width first: 595.28 by
/// 841.89 points for A4, 612 by 792 for Letter.
pub fn page_size_hundredths(format: PageFormat) -> (r: (u32, u32))
    ensures
        r == match format {
            PageFormat::A4 => (59528u32, 84189u32),
            PageFormat::Letter => (61200u32, 79200u32),
        },
{
    match format {
        PageFormat::A4 => (59528, 84189),
        PageFormat::Letter => (61200, 79200),
    }
}

} // verus!
