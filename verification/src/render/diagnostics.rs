//! What the renderer says when the engine fails.

use vstd::prelude::*;
use crate::numeral::{decimal, push_decimal};
use crate::render::traits::RenderError;
use crate::text::{chars_of, join, join_text, push_str, string_of, texts, trim, trim_chars};

verus! {

/// Where the line starts that holds the character at `offset`: after the
/// last newline before the offset.
pub open spec fn line_begin(s: Seq<char>, offset: int) -> int
    decreases offset,
{
    if offset <= 0 {
        0
    } else if offset <= s.len() && s[offset - 1] == '\n' {
        offset
    } else {
        line_begin(s, offset - 1)
    }
}

/// Where the line ends that is read from `from` on: at the next newline,
/// or at the end of the text.
pub open spec fn line_end(s: Seq<char>, from: int) -> int
    decreases s.len() - from,
{
    if from < 0 || from >= s.len() {
        s.len() as int
    } else if s[from] == '\n' {
        from
    } else {
        line_end(s, from + 1)
    }
}

/// The number of newlines among the first `n` characters.
pub open spec fn newlines_before(s: Seq<char>, n: int) -> nat
    decreases n,
{
    if n <= 0 || n > s.len() {
        0
    } else if s[n - 1] == '\n' {
        newlines_before(s, n - 1) + 1
    } else {
        newlines_before(s, n - 1)
    }
}

/// The line of a source that holds the character at an offset: its number,
/// counted from 1, and its text without the white space at its ends.
pub open spec fn place_of(source: Seq<char>, offset: int) -> (nat, Seq<char>) {
    (
        newlines_before(source, offset) + 1,
        trim(source.subrange(line_begin(source, offset), line_end(source, line_begin(source, offset)))),
    )
}

/// The line of a source that holds the character at an offset. The offset
/// counts characters and does not go past the end of the source.
pub fn locate(source: &str, offset: usize) -> (r: (usize, String))
    requires
        offset <= source@.len(),
        offset < usize::MAX,
    ensures
        r.0 as nat == place_of(source@, offset as int).0,
        r.1@ == place_of(source@, offset as int).1,
{
    let v = chars_of(source);
    let mut lines: usize = 0;
    let mut i: usize = 0;
    while i < offset
        invariant
            i <= offset <= v@.len(),
            offset < usize::MAX,
            lines as nat == newlines_before(v@, i as int),
            lines <= i,
        decreases offset - i,
    {
        if v[i] == '\n' {
            lines += 1;
        }
        i += 1;
    }
    let mut begin: usize = offset;
    while begin > 0 && v[begin - 1] != '\n'
        invariant
            begin <= offset <= v@.len(),
            line_begin(v@, begin as int) == line_begin(v@, offset as int),
        decreases begin,
    {
        begin -= 1;
    }
    let mut end: usize = begin;
    while end < v.len() && v[end] != '\n'
        invariant
            begin <= end <= v@.len(),
            line_end(v@, end as int) == line_end(v@, begin as int),
        decreases v@.len() - end,
    {
        end += 1;
    }
    let mut line: Vec<char> = Vec::new();
    let mut k: usize = begin;
    while k < end
        invariant
            begin <= k <= end <= v@.len(),
            line@ == v@.subrange(begin as int, k as int),
        decreases end - k,
    {
        line.push(v[k]);
        k += 1;
    }
    (lines + 1, string_of(&trim_chars(&line)))
}

/// A diagnostic of the engine.
#[derive(Debug, Clone)]
pub struct Diagnostic {
    /// The virtual path of the source.
    pub path: String,
    /// The number of the line, counted from 1, and the line's text, where
    /// the engine says where.
    pub place: Option<(usize, String)>,
    pub message: String,
}

impl Diagnostic {
    /// The diagnostic on one line: the path, the number of the line and the
    /// line, each followed by a colon and a space, then the message. Without
    /// a place, the path and the message.
    pub open spec fn text(self) -> Seq<char> {
        match self.place {
            Some((number, line)) => self.path@ + ":"@ + decimal(number as nat) + ": "@ + line@
                + ": "@ + self.message@,
            None => self.path@ + ": "@ + self.message@,
        }
    }

    /// The diagnostic as one line: path, line number, the line of the source
    /// and the message.
    pub fn to_string(&self) -> (r: String)
        ensures
            r@ == self.text(),
    {
        let mut out: Vec<char> = Vec::new();
        push_str(&mut out, self.path.as_str());
        match &self.place {
            Some((number, line)) => {
                push_str(&mut out, ":");
                push_decimal(&mut out, *number as u64);
                push_str(&mut out, ": ");
                push_str(&mut out, line.as_str());
                push_str(&mut out, ": ");
                push_str(&mut out, self.message.as_str());
                assert(out@ =~= self.text());
            },
            None => {
                push_str(&mut out, ": ");
                push_str(&mut out, self.message.as_str());
                assert(out@ =~= self.text());
            },
        }
        string_of(&out)
    }
}

/// The text of each diagnostic.
pub open spec fn diagnostic_texts(diagnostics: Seq<Diagnostic>) -> Seq<Seq<char>> {
    Seq::new(diagnostics.len(), |i: int| diagnostics[i].text())
}

/// The failure of the engine on a source: a heading, then one line for
/// each diagnostic.
pub fn compile_failure(diagnostics: &Vec<Diagnostic>) -> (r: RenderError)
    ensures
        r is RenderFailed,
        r.detail() == "Typst compilation failed:\n"@ + join(diagnostic_texts(diagnostics@), "\n"@),
{
    let mut lines: Vec<String> = Vec::new();
    let mut i: usize = 0;
    while i < diagnostics.len()
        invariant
            i <= diagnostics@.len(),
            lines@.len() == i,
            forall|k: int| 0 <= k < i ==> lines@[k]@ == diagnostics@[k].text(),
        decreases diagnostics@.len() - i,
    {
        lines.push(diagnostics[i].to_string());
        i += 1;
    }
    assert(texts(lines@) =~= diagnostic_texts(diagnostics@));
    let mut out: Vec<char> = Vec::new();
    push_str(&mut out, "Typst compilation failed:\n");
    push_str(&mut out, join_text(&lines, "\n").as_str());
    assert(out@ =~= "Typst compilation failed:\n"@ + join(diagnostic_texts(diagnostics@), "\n"@));
    RenderError::RenderFailed(string_of(&out))
}

/// The failure of the engine on the PDF: a heading, then the engine's
/// messages, one to a line.
pub fn pdf_failure(messages: &Vec<String>) -> (r: RenderError)
    ensures
        r is RenderFailed,
        r.detail() == "PDF generation failed:\n"@ + join(texts(messages@), "\n"@),
{
    let mut out: Vec<char> = Vec::new();
    push_str(&mut out, "PDF generation failed:\n");
    push_str(&mut out, join_text(messages, "\n").as_str());
    assert(out@ =~= "PDF generation failed:\n"@ + join(texts(messages@), "\n"@));
    RenderError::RenderFailed(string_of(&out))
}

/// What is said of a page that the document does not have.
pub open spec fn page_message(page: nat) -> Seq<char> {
    "Page "@ + decimal(page) + " not found"@
}

/// The page to show of a document of `count` pages: the one that is asked
/// for, counted from 0, or a failure where the document has no such page.
pub fn find_page(count: usize, page: usize) -> (r: Result<usize, RenderError>)
    ensures
        r is Ok <==> page < count,
        r matches Ok(p) ==> p == page,
        r matches Err(e) ==> e is RenderFailed && e.detail() == page_message(page as nat),
{
    if page < count {
        Ok(page)
    } else {
        let mut out: Vec<char> = Vec::new();
        push_str(&mut out, "Page ");
        push_decimal(&mut out, page as u64);
        push_str(&mut out, " not found");
        assert(out@ =~= page_message(page as nat));
        Err(RenderError::RenderFailed(string_of(&out)))
    }
}

/// What is said of rendering to HTML, which the engine does not do.
pub fn html_unsupported() -> (r: RenderError)
    ensures
        r is RenderFailed,
        r.detail() == "HTML rendering not supported via Typst. Use web-based preview."@,
{
    RenderError::RenderFailed(
        crate::text::owned("HTML rendering not supported via Typst. Use web-based preview."),
    )
}

} // verus!
