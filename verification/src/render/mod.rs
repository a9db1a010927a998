pub mod diagnostics;
pub mod engine;
pub mod rich_text;
pub mod traits;
pub mod world;

pub use diagnostics::{compile_failure, find_page, locate, pdf_failure, Diagnostic};
pub use engine::{
    assemble_source, get_template_theme, has_template, page_size_hundredths, templates, to_json,
    TemplateTheme, TypstRenderer,
};
pub use rich_text::{convert_field, preprocess_rich_text, RichText};
pub use traits::RenderError;
pub use world::{
    font_directories, is_font_extension, resolve_source, template_path, today, Platform,
    SourceKind,
};
