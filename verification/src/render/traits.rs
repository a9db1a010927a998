//! The errors of rendering.

use vstd::prelude::*;
use crate::text::{push_str, string_of};

verus! {

/// Why a document was not rendered.
#[derive(Debug, Clone)]
pub enum RenderError {
    /// No template of that name.
    TemplateNotFound(String),
    /// The engine failed: on the source, on the PDF, or on a page that the
    /// document does not have.
    RenderFailed(String),
    /// A number of the presentation is out of range.
    InvalidConfig(String),
}

impl RenderError {
    /// The diagnostic that the error carries.
    pub open spec fn detail(self) -> Seq<char> {
        match self {
            RenderError::TemplateNotFound(s) => s@,
            RenderError::RenderFailed(s) => s@,
            RenderError::InvalidConfig(s) => s@,
        }
    }

    /// The words that introduce the diagnostic of each kind.
    pub open spec fn heading(self) -> Seq<char> {
        match self {
            RenderError::TemplateNotFound(_) => "Template not found: "@,
            RenderError::RenderFailed(_) => "Render failed: "@,
            RenderError::InvalidConfig(_) => "Invalid configuration: "@,
        }
    }

    /// The error as text.
    pub fn to_string(&self) -> (r: String)
        ensures
            r@ == self.heading() + self.detail(),
    {
        let mut out: Vec<char> = Vec::new();
        match self {
            RenderError::TemplateNotFound(s) => {
                push_str(&mut out, "Template not found: ");
                push_str(&mut out, s.as_str());
            },
            RenderError::RenderFailed(s) => {
                push_str(&mut out, "Render failed: ");
                push_str(&mut out, s.as_str());
            },
            RenderError::InvalidConfig(s) => {
                push_str(&mut out, "Invalid configuration: ");
                push_str(&mut out, s.as_str());
            },
        }
        assert(out@ =~= self.heading() + self.detail());
        string_of(&out)
    }
}

} // verus!
