//! Presentation: template, layout, page, colours and type.

use vstd::prelude::*;
use crate::schema::decimal::Decimal;
use crate::text::{copy_texts, owned, texts};

verus! {

/// The template that a document has unless it names another.
pub fn default_template() -> (r: String)
    ensures
        r@ == "rhyhorn"@,
{
    owned("rhyhorn")
}

/// The page margin in points that a document has unless it sets another.
pub fn default_margin() -> (r: u32)
    ensures
        r == 18,
{
    18
}

/// The background colour of a new document.
pub fn default_background() -> (r: String)
    ensures
        r@ == "#ffffff"@,
{
    owned("#ffffff")
}

/// The text colour of a new document.
pub fn default_text() -> (r: String)
    ensures
        r@ == "#000000"@,
{
    owned("#000000")
}

/// The primary colour of a new document.
pub fn default_primary() -> (r: String)
    ensures
        r@ == "#dc2626"@,
{
    owned("#dc2626")
}

/// The font family of a new document.
pub fn default_font_family() -> (r: String)
    ensures
        r@ == "IBM Plex Serif"@,
{
    owned("IBM Plex Serif")
}

/// The font subset of a new document.
pub fn default_subset() -> (r: String)
    ensures
        r@ == "latin"@,
{
    owned("latin")
}

/// The font variants of a new document.
pub fn default_variants() -> (r: Vec<String>)
    ensures
        texts(r@) == seq!["regular"@],
{
    let mut v: Vec<String> = Vec::new();
    v.push(owned("regular"));
    assert(texts(v@) =~= seq!["regular"@]);
    v
}

/// The font size of a new document, in points.
pub fn default_font_size() -> (r: u32)
    ensures
        r == 14,
{
    14
}

/// The names of the sections of each column of each page.
pub open spec fn layout_names(layout: Seq<Vec<Vec<String>>>) -> Seq<Seq<Seq<Seq<char>>>> {
    Seq::new(
        layout.len(),
        |p: int| Seq::new(layout[p]@.len(), |c: int| texts(layout[p]@[c]@)),
    )
}

/// One page of two columns: the main column, then the side column.
pub open spec fn default_layout_names() -> Seq<Seq<Seq<Seq<char>>>> {
    seq![
        seq![
            seq![
                "profiles"@,
                "summary"@,
                "experience"@,
                "education"@,
                "projects"@,
                "volunteer"@,
                "references"@,
            ],
            seq![
                "skills"@,
                "interests"@,
                "certifications"@,
                "awards"@,
                "publications"@,
                "languages"@,
            ],
        ],
    ]
}

/// The layout of a new document: one page of two columns.
pub fn default_layout() -> (r: Vec<Vec<Vec<String>>>)
    ensures
        layout_names(r@) == default_layout_names(),
{
    let mut main: Vec<String> = Vec::new();
    main.push(owned("profiles"));
    main.push(owned("summary"));
    main.push(owned("experience"));
    main.push(owned("education"));
    main.push(owned("projects"));
    main.push(owned("volunteer"));
    main.push(owned("references"));
    let mut side: Vec<String> = Vec::new();
    side.push(owned("skills"));
    side.push(owned("interests"));
    side.push(owned("certifications"));
    side.push(owned("awards"));
    side.push(owned("publications"));
    side.push(owned("languages"));
    let mut page: Vec<Vec<String>> = Vec::new();
    page.push(main);
    page.push(side);
    let mut layout: Vec<Vec<Vec<String>>> = Vec::new();
    layout.push(page);
    proof {
        let names = layout_names(layout@);
        let want = default_layout_names();
        assert(names.len() == 1);
        assert(names[0].len() == 2);
        assert(names[0][0] =~= want[0][0]);
        assert(names[0][1] =~= want[0][1]);
        assert(names[0] =~= want[0]);
        assert(names =~= want);
    }
    layout
}

/// A copy of a layout, name for name.
pub fn copy_layout(layout: &Vec<Vec<Vec<String>>>) -> (r: Vec<Vec<Vec<String>>>)
    ensures
        layout_names(r@) == layout_names(layout@),
{
    let mut out: Vec<Vec<Vec<String>>> = Vec::new();
    let mut p: usize = 0;
    while p < layout.len()
        invariant
            p <= layout@.len(),
            out@.len() == p,
            forall|i: int|
                0 <= i < p ==> layout_names(out@)[i] == #[trigger] layout_names(layout@)[i],
        decreases layout@.len() - p,
    {
        let page = &layout[p];
        let mut columns: Vec<Vec<String>> = Vec::new();
        let mut c: usize = 0;
        while c < page.len()
            invariant
                c <= page@.len(),
                columns@.len() == c,
                forall|i: int| 0 <= i < c ==> texts(columns@[i]@) == texts(#[trigger] page@[i]@),
            decreases page@.len() - c,
        {
            columns.push(copy_texts(&page[c]));
            c += 1;
        }
        let ghost before = out@;
        out.push(columns);
        proof {
            assert(layout_names(out@)[p as int] =~= layout_names(layout@)[p as int]);
            assert forall|i: int| 0 <= i < p implies layout_names(out@)[i] == #[trigger] layout_names(
                layout@,
            )[i] by {
                assert(out@[i] == before[i]);
                assert(layout_names(out@)[i] =~= layout_names(before)[i]);
            }
        }
        p += 1;
    }
    assert(layout_names(out@) =~= layout_names(layout@));
    out
}

/// A style sheet of the subject's own.
#[derive(Debug, Clone)]
pub struct CustomCss {
    pub value: String,
    pub visible: bool,
}

impl Default for CustomCss {
    fn default() -> (r: CustomCss)
        ensures
            r.value@.len() == 0,
            !r.visible,
    {
        CustomCss { value: String::new(), visible: false }
    }
}

/// The paper.
#[derive(Debug, Clone, Copy, PartialEq, Eq, Structural)]
pub enum PageFormat {
    A4,
    Letter,
}

impl Default for PageFormat {
    fn default() -> (r: PageFormat)
        ensures
            r == PageFormat::A4,
    {
        PageFormat::A4
    }
}

/// What is drawn on every page.
#[derive(Debug, Clone, Copy, PartialEq, Eq, Structural)]
pub struct PageOptions {
    pub break_line: bool,
    pub page_numbers: bool,
}

impl Default for PageOptions {
    fn default() -> (r: PageOptions)
        ensures
            r.break_line && r.page_numbers,
    {
        PageOptions { break_line: true, page_numbers: true }
    }
}

/// The page: paper, margin in points, options.
#[derive(Debug, Clone, Copy, PartialEq, Eq, Structural)]
pub struct PageConfig {
    pub margin: u32,
    pub format: PageFormat,
    pub options: PageOptions,
}

impl Default for PageConfig {
    fn default() -> (r: PageConfig)
        ensures
            r.margin == 18,
            r.format == PageFormat::A4,
            r.options.break_line && r.options.page_numbers,
    {
        PageConfig { margin: 18, format: PageFormat::A4, options: PageOptions::default() }
    }
}

/// The colours, each written `#RRGGBB`.
#[derive(Debug, Clone)]
pub struct Theme {
    pub background: String,
    pub text: String,
    pub primary: String,
}

impl Default for Theme {
    fn default() -> (r: Theme)
        ensures
            r.background@ == "#ffffff"@,
            r.text@ == "#000000"@,
            r.primary@ == "#dc2626"@,
    {
        Theme {
            background: default_background(),
            text: default_text(),
            primary: default_primary(),
        }
    }
}

/// The font.
#[derive(Debug, Clone)]
pub struct FontConfig {
    pub family: String,
    pub subset: String,
    pub variants: Vec<String>,
    /// In points.
    pub size: u32,
}

impl FontConfig {
    /// The font that a document has unless it sets another: IBM Plex
    /// Serif, latin, regular, 14 points.
    pub open spec fn is_default(self) -> bool {
        &&& self.family@ == "IBM Plex Serif"@
        &&& self.subset@ == "latin"@
        &&& texts(self.variants@) == seq!["regular"@]
        &&& self.size == 14
    }
}

impl Default for FontConfig {
    fn default() -> (r: FontConfig)
        ensures
            r.is_default(),
    {
        FontConfig {
            family: default_font_family(),
            subset: default_subset(),
            variants: default_variants(),
            size: default_font_size(),
        }
    }
}

/// How text is set.
#[derive(Debug, Clone)]
pub struct Typography {
    pub font: FontConfig,
    pub line_height: Decimal,
    pub hide_icons: bool,
    pub underline_links: bool,
}

impl Default for Typography {
    fn default() -> (r: Typography)
        ensures
            r.font.is_default(),
            r.line_height.text@ == "1.5"@,
            !r.hide_icons,
            r.underline_links,
    {
        Typography {
            font: FontConfig::default(),
            line_height: Decimal::one_and_a_half(),
            hide_icons: false,
            underline_links: true,
        }
    }
}

/// How a document is presented.
#[derive(Debug, Clone)]
pub struct Metadata {
    /// The template's name. One that the catalogue lacks is kept as it is:
    /// the renderer decides what to use in its place.
    pub template: String,
    /// Pages, their columns, and the identifiers of the sections in each.
    pub layout: Vec<Vec<Vec<String>>>,
    pub css: CustomCss,
    pub page: PageConfig,
    pub theme: Theme,
    pub typography: Typography,
    pub notes: String,
}

impl Metadata {
    /// Whether two presentations have the same fields.
    pub open spec fn same(self, other: Metadata) -> bool {
        &&& self.template@ == other.template@
        &&& layout_names(self.layout@) == layout_names(other.layout@)
        &&& self.css.value@ == other.css.value@
        &&& self.css.visible == other.css.visible
        &&& self.page == other.page
        &&& self.theme.background@ == other.theme.background@
        &&& self.theme.text@ == other.theme.text@
        &&& self.theme.primary@ == other.theme.primary@
        &&& self.typography.font.family@ == other.typography.font.family@
        &&& self.typography.font.subset@ == other.typography.font.subset@
        &&& texts(self.typography.font.variants@) == texts(other.typography.font.variants@)
        &&& self.typography.font.size == other.typography.font.size
        &&& self.typography.line_height.text@ == other.typography.line_height.text@
        &&& self.typography.hide_icons == other.typography.hide_icons
        &&& self.typography.underline_links == other.typography.underline_links
        &&& self.notes@ == other.notes@
    }

    /// What a document has where it sets nothing.
    pub open spec fn is_default(self) -> bool {
        &&& self.template@ == "rhyhorn"@
        &&& layout_names(self.layout@) == default_layout_names()
        &&& self.css.value@.len() == 0
        &&& !self.css.visible
        &&& self.page.margin == 18
        &&& self.page.format == PageFormat::A4
        &&& self.page.options.break_line
        &&& self.page.options.page_numbers
        &&& self.theme.background@ == "#ffffff"@
        &&& self.theme.text@ == "#000000"@
        &&& self.theme.primary@ == "#dc2626"@
        &&& self.typography.font.is_default()
        &&& self.typography.line_height.text@ == "1.5"@
        &&& !self.typography.hide_icons
        &&& self.typography.underline_links
        &&& self.notes@.len() == 0
    }

    /// A copy of the presentation.
    pub fn copy(&self) -> (r: Metadata)
        ensures
            r.same(*self),
    {
        Metadata {
            template: self.template.clone(),
            layout: copy_layout(&self.layout),
            css: CustomCss { value: self.css.value.clone(), visible: self.css.visible },
            page: self.page,
            theme: Theme {
                background: self.theme.background.clone(),
                text: self.theme.text.clone(),
                primary: self.theme.primary.clone(),
            },
            typography: Typography {
                font: FontConfig {
                    family: self.typography.font.family.clone(),
                    subset: self.typography.font.subset.clone(),
                    variants: copy_texts(&self.typography.font.variants),
                    size: self.typography.font.size,
                },
                line_height: self.typography.line_height.copy(),
                hide_icons: self.typography.hide_icons,
                underline_links: self.typography.underline_links,
            },
            notes: self.notes.clone(),
        }
    }
}

impl Default for Metadata {
    fn default() -> (r: Metadata)
        ensures
            r.is_default(),
    {
        Metadata {
            template: default_template(),
            layout: default_layout(),
            css: CustomCss::default(),
            page: PageConfig::default(),
            theme: Theme::default(),
            typography: Typography::default(),
            notes: String::new(),
        }
    }
}

} // verus!
