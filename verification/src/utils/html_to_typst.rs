//! From the safe subset of HTML to the typesetting engine's markup.
//!
//! The HTML is parsed by `scraper`; the tree that comes back is copied
//! into `HtmlNode`, and the markup is written from that tree.

use vstd::prelude::*;
use crate::search::{expand, has_char, has_char_in, lemma_expand_push};
use crate::text::{
    all_space, chars_of, is_space, is_space_char, push_all, push_str, same_chars, same_text,
    string_of, trim, trim_chars,
};

verus! {

/// A node of a parsed fragment of HTML.
#[derive(Debug)]
pub enum HtmlNode {
    /// Text between tags, with character references resolved.
    Text(String),
    /// An element: its tag in lower case, the address it links to where it
    /// has an `href`, and its children in order.
    Element { tag: String, href: Option<String>, children: Vec<HtmlNode> },
    /// A comment, a doctype or a processing instruction.
    Other,
}

#[verifier::external_type_specification]
#[verifier::external_body]
pub struct ExScraperNode(scraper::Node);

#[verifier::external_type_specification]
#[verifier::external_body]
#[verifier::reject_recursive_types(T)]
pub struct ExNodeRef<'a, T: 'a>(ego_tree::NodeRef<'a, T>);

/// The nodes that `scraper` parses a fragment of HTML into: the children
/// of the root element, each element with the value of the attribute named
/// `attr` where it has one.
pub uninterp spec fn html_fragment(html: Seq<char>, attr: Seq<char>) -> Seq<HtmlNode>;

/// What a node of a parsed tree holds, with the value of the attribute
/// named `attr` on each element.
pub uninterp spec fn node_content(
    node: ego_tree::NodeRef<'_, scraper::Node>,
    attr: Seq<char>,
) -> HtmlNode;

/// Copies a node of `scraper`'s tree out, kind by kind: the text of a text
/// node, the local name of an element with what `Element::attr` gives for
/// `attr` and the element's children in order.
#[verifier::external_body]
fn copy_node(node: ego_tree::NodeRef<'_, scraper::Node>, attr: &str) -> (r: HtmlNode)
    ensures
        r == node_content(node, attr@),
{
    match node.value() {
        scraper::Node::Text(t) => HtmlNode::Text(t.text.to_string()),
        scraper::Node::Element(el) => HtmlNode::Element {
            tag: el.name().to_string(),
            href: el.attr(attr).map(|v| v.to_string()),
            children: node.children().map(|c| copy_node(c, attr)).collect(),
        },
        _ => HtmlNode::Other,
    }
}

/// Calls `scraper::Html::parse_fragment` and copies out the children of
/// the root element. The parser accepts every text, and the tree depends on
/// the text alone.
#[verifier::external_body]
fn parse_fragment(html: &str, attr: &str) -> (r: Vec<HtmlNode>)
    ensures
        r@ == html_fragment(html@, attr@),
{
    let doc = scraper::Html::parse_fragment(html);
    doc.root_element().children().map(|c| copy_node(c, attr)).collect()
}

// ---------------------------------------------------------------------------
// Escaping
// ---------------------------------------------------------------------------

/// The characters that mean something to the engine where text stands.
pub open spec fn is_markup_char(c: char) -> bool {
    c == '\\' || c == '#' || c == '[' || c == ']' || c == '$' || c == '@' || c == '*' || c == '_'
        || c == '`' || c == '%' || c == '~' || c == '<' || c == '>'
}

/// A character as the engine reads it literally: a backslash before each
/// character that means something to the engine.
pub open spec fn escaped_char(c: char) -> Seq<char> {
    if is_markup_char(c) {
        seq!['\\', c]
    } else {
        seq![c]
    }
}

/// Text as the engine reads it literally.
pub open spec fn escaped(s: Seq<char>) -> Seq<char> {
    expand(s, |c: char| escaped_char(c))
}

/// Whether a character has a meaning in markup.
pub fn is_markup(c: char) -> (r: bool)
    ensures
        r == is_markup_char(c),
{
    c == '\\' || c == '#' || c == '[' || c == ']' || c == '$' || c == '@' || c == '*' || c == '_'
        || c == '`' || c == '%' || c == '~' || c == '<' || c == '>'
}

/// Appends `text`, escaped, to `out`.
pub fn push_escaped(out: &mut Vec<char>, text: &Vec<char>)
    ensures
        final(out)@ == old(out)@ + escaped(text@),
{
    let mut i: usize = 0;
    assert(escaped(text@.take(0)) =~= Seq::<char>::empty());
    assert(out@ + Seq::<char>::empty() =~= out@);
    while i < text.len()
        invariant
            i <= text@.len(),
            out@ == old(out)@ + escaped(text@.take(i as int)),
        decreases text@.len() - i,
    {
        let c = text[i];
        proof {
            lemma_expand_push(text@.take(i as int), c, |c: char| escaped_char(c));
            assert(text@.take(i + 1) =~= text@.take(i as int).push(c));
        }
        let ghost before = out@;
        if is_markup(c) {
            out.push('\\');
        }
        out.push(c);
        assert(out@ =~= before + escaped_char(c));
        assert(out@ =~= old(out)@ + (escaped(text@.take(i as int)) + escaped_char(c)));
        i += 1;
    }
    assert(text@.take(text@.len() as int) =~= text@);
}

/// Text as the engine reads it literally.
pub fn escape_typst(text: &str) -> (r: String)
    ensures
        r@ == escaped(text@),
{
    let mut out: Vec<char> = Vec::new();
    push_escaped(&mut out, &chars_of(text));
    assert(Seq::<char>::empty() + escaped(text@) =~= escaped(text@));
    string_of(&out)
}

/// A character as it stands between double quotes in the engine's source:
/// a backslash before a backslash and before a double quote.
pub open spec fn quoted_char(c: char) -> Seq<char> {
    if c == '\\' || c == '"' {
        seq!['\\', c]
    } else {
        seq![c]
    }
}

/// Text as it stands between double quotes in the engine's source.
pub open spec fn quoted(s: Seq<char>) -> Seq<char> {
    expand(s, |c: char| quoted_char(c))
}

/// Appends `text` to `out` as it stands between double quotes.
pub fn push_quoted(out: &mut Vec<char>, text: &Vec<char>)
    ensures
        final(out)@ == old(out)@ + quoted(text@),
{
    let mut i: usize = 0;
    assert(quoted(text@.take(0)) =~= Seq::<char>::empty());
    assert(out@ + Seq::<char>::empty() =~= out@);
    while i < text.len()
        invariant
            i <= text@.len(),
            out@ == old(out)@ + quoted(text@.take(i as int)),
        decreases text@.len() - i,
    {
        let c = text[i];
        proof {
            lemma_expand_push(text@.take(i as int), c, |c: char| quoted_char(c));
            assert(text@.take(i + 1) =~= text@.take(i as int).push(c));
        }
        let ghost before = out@;
        if c == '\\' || c == '"' {
            out.push('\\');
        }
        out.push(c);
        assert(out@ =~= before + quoted_char(c));
        assert(out@ =~= old(out)@ + (quoted(text@.take(i as int)) + quoted_char(c)));
        i += 1;
    }
    assert(text@.take(text@.len() as int) =~= text@);
}

/// Text as it stands between double quotes in the engine's source.
pub fn escape_quoted(text: &str) -> (r: String)
    ensures
        r@ == quoted(text@),
{
    let mut out: Vec<char> = Vec::new();
    push_quoted(&mut out, &chars_of(text));
    assert(Seq::<char>::empty() + quoted(text@) =~= quoted(text@));
    string_of(&out)
}

// ---------------------------------------------------------------------------
// The markup of a tree
// ---------------------------------------------------------------------------

/// What stands for a line break in the markup.
pub open spec fn line_break() -> Seq<char> {
    "#linebreak()"@
}

/// `inner` between an opening and a closing bracket, or nothing where
/// there is nothing to put between them.
pub open spec fn bracketed(open: Seq<char>, inner: Seq<char>) -> Seq<char> {
    if inner.len() > 0 {
        open + inner + seq![']']
    } else {
        Seq::empty()
    }
}

/// A paragraph or a list item on a line of its own: the trimmed text after
/// `lead` and before `tail`. Nothing where the text is empty.
pub open spec fn block(lead: Seq<char>, inner: Seq<char>, tail: Seq<char>) -> Seq<char> {
    if trim(inner).len() > 0 {
        lead + trim(inner) + tail
    } else {
        Seq::empty()
    }
}

/// The markup of a node.
///
/// - Text is escaped; inside a list item, text that is nothing but white
///   space is dropped.
/// - `p`: the trimmed markup of the children and a blank line; nothing
///   where that markup is empty or a lone line break.
/// - `strong` and `b`, `em` and `i`, `u`, `a`: the markup of the children
///   inside the engine's command; nothing where the children give nothing.
/// - `ul` and `ol`: one line for each `li` child, then a blank line.
/// - `br`: a line break.
/// - Any other element: the markup of its children.
pub open spec fn markup(node: HtmlNode, in_list: bool) -> Seq<char>
    decreases node, 0nat,
{
    match node {
        HtmlNode::Text(t) => if in_list && all_space(t@) {
            Seq::empty()
        } else {
            escaped(t@)
        },
        HtmlNode::Element { tag, href, children } => {
            if tag@ == "p"@ {
                let inner = trim(markup_first(children@, children@.len(), false));
                if inner.len() > 0 && inner != line_break() {
                    inner + "\n\n"@
                } else {
                    Seq::empty()
                }
            } else if tag@ == "strong"@ || tag@ == "b"@ {
                bracketed(
                    "#text(weight: \"bold\")["@,
                    markup_first(children@, children@.len(), in_list),
                )
            } else if tag@ == "em"@ || tag@ == "i"@ {
                bracketed("#emph["@, markup_first(children@, children@.len(), in_list))
            } else if tag@ == "u"@ {
                bracketed("#underline["@, markup_first(children@, children@.len(), in_list))
            } else if tag@ == "a"@ {
                bracketed(
                    "#link(\""@ + quoted(crate::text::text_or_empty(href)) + "\")["@,
                    markup_first(children@, children@.len(), in_list),
                )
            } else if tag@ == "ul"@ {
                list_markup(list_first(children@, children@.len(), "- "@))
            } else if tag@ == "ol"@ {
                list_markup(list_first(children@, children@.len(), "+ "@))
            } else if tag@ == "br"@ {
                "#linebreak()\n"@
            } else {
                markup_first(children@, children@.len(), in_list)
            }
        },
        HtmlNode::Other => Seq::empty(),
    }
}

/// The markup of the first `n` nodes, one after the other.
pub open spec fn markup_first(nodes: Seq<HtmlNode>, n: nat, in_list: bool) -> Seq<char>
    decreases nodes, n,
{
    if n == 0 || n > nodes.len() {
        Seq::empty()
    } else {
        markup_first(nodes, (n - 1) as nat, in_list) + markup(nodes[n - 1], in_list)
    }
}

/// The line of a list item: the marker and the trimmed markup of the
/// item's children. Nothing for a node that is no `li`, or an empty one.
pub open spec fn list_line(node: HtmlNode, marker: Seq<char>) -> Seq<char>
    decreases node, 0nat,
{
    match node {
        HtmlNode::Element { tag, href, children } => if tag@ == "li"@ {
            block(marker, markup_first(children@, children@.len(), true), "\n"@)
        } else {
            Seq::empty()
        },
        _ => Seq::empty(),
    }
}

/// The lines of the first `n` children of a list.
pub open spec fn list_first(nodes: Seq<HtmlNode>, n: nat, marker: Seq<char>) -> Seq<char>
    decreases nodes, n,
{
    if n == 0 || n > nodes.len() {
        Seq::empty()
    } else {
        list_first(nodes, (n - 1) as nat, marker) + list_line(nodes[n - 1], marker)
    }
}

/// The lines of a list and the blank line after them, or nothing where
/// the list has no line.
pub open spec fn list_markup(lines: Seq<char>) -> Seq<char> {
    if lines.len() > 0 {
        lines + "\n"@
    } else {
        Seq::empty()
    }
}

/// The markup of a sequence of nodes.
pub open spec fn markup_seq(nodes: Seq<HtmlNode>, in_list: bool) -> Seq<char> {
    markup_first(nodes, nodes.len(), in_list)
}

/// Whether every character is white space.
pub fn all_space_chars(v: &Vec<char>) -> (r: bool)
    ensures
        r == all_space(v@),
{
    let mut i: usize = 0;
    while i < v.len()
        invariant
            i <= v@.len(),
            forall|k: int| 0 <= k < i ==> is_space(#[trigger] v@[k]),
        decreases v@.len() - i,
    {
        if !is_space_char(v[i]) {
            return false;
        }
        i += 1;
    }
    true
}

/// Appends the markup of a node to `out`.
pub fn process_node(node: &HtmlNode, out: &mut Vec<char>, in_list: bool)
    ensures
        final(out)@ == old(out)@ + markup(*node, in_list),
    decreases *node, 0nat,
{
    match node {
        HtmlNode::Text(t) => {
            let text = chars_of(t.as_str());
            if in_list && all_space_chars(&text) {
                assert(out@ =~= old(out)@ + Seq::<char>::empty());
            } else {
                push_escaped(out, &text);
            }
        },
        HtmlNode::Element { tag, href, children } => {
            let name = tag.as_str();
            if same_text(name, "p") {
                let mut inner: Vec<char> = Vec::new();
                process_nodes(children, &mut inner, false);
                assert(inner@ =~= markup_seq(children@, false));
                let t = trim_chars(&inner);
                if t.len() > 0 && !same_chars(&t, &chars_of("#linebreak()")) {
                    push_all(out, &t);
                    push_str(out, "\n\n");
                    assert(out@ =~= old(out)@ + (t@ + "\n\n"@));
                } else {
                    assert(out@ =~= old(out)@ + Seq::<char>::empty());
                }
            } else if same_text(name, "strong") || same_text(name, "b") {
                process_inline(children, out, in_list, "#text(weight: \"bold\")[");
            } else if same_text(name, "em") || same_text(name, "i") {
                process_inline(children, out, in_list, "#emph[");
            } else if same_text(name, "u") {
                process_inline(children, out, in_list, "#underline[");
            } else if same_text(name, "a") {
                let mut open: Vec<char> = Vec::new();
                push_str(&mut open, "#link(\"");
                match href {
                    Some(h) => {
                        push_quoted(&mut open, &chars_of(h.as_str()));
                    },
                    None => {
                        assert(quoted(Seq::<char>::empty()) =~= Seq::<char>::empty());
                        assert(open@ =~= open@ + quoted(Seq::<char>::empty()));
                    },
                }
                push_str(&mut open, "\")[");
                let opening = string_of(&open);
                assert(opening@ =~= "#link(\""@ + quoted(crate::text::text_or_empty(*href))
                    + "\")["@);
                process_inline(children, out, in_list, opening.as_str());
            } else if same_text(name, "ul") {
                process_list(children, out, "- ");
            } else if same_text(name, "ol") {
                process_list(children, out, "+ ");
            } else if same_text(name, "br") {
                push_str(out, "#linebreak()\n");
            } else {
                process_nodes(children, out, in_list);
            }
        },
        HtmlNode::Other => {
            assert(out@ =~= old(out)@ + Seq::<char>::empty());
        },
    }
}

/// Appends the markup of the nodes, one after the other, to `out`.
pub fn process_nodes(nodes: &Vec<HtmlNode>, out: &mut Vec<char>, in_list: bool)
    ensures
        final(out)@ == old(out)@ + markup_seq(nodes@, in_list),
    decreases nodes@, nodes@.len(),
{
    let mut i: usize = 0;
    assert(out@ =~= old(out)@ + markup_first(nodes@, 0, in_list));
    while i < nodes.len()
        invariant
            i <= nodes@.len(),
            out@ == old(out)@ + markup_first(nodes@, i as nat, in_list),
        decreases nodes@.len() - i,
    {
        let ghost before = out@;
        process_node(&nodes[i], out, in_list);
        assert(out@ =~= old(out)@ + markup_first(nodes@, (i + 1) as nat, in_list));
        i += 1;
    }
}

/// Appends the markup of the children inside a command of the engine that
/// starts with `open`, or nothing where the children give nothing.
fn process_inline(children: &Vec<HtmlNode>, out: &mut Vec<char>, in_list: bool, open: &str)
    ensures
        final(out)@ == old(out)@ + bracketed(open@, markup_seq(children@, in_list)),
    decreases children@, children@.len() + 1,
{
    let mut inner: Vec<char> = Vec::new();
    process_nodes(children, &mut inner, in_list);
    assert(inner@ =~= markup_seq(children@, in_list));
    if inner.len() > 0 {
        push_str(out, open);
        push_all(out, &inner);
        out.push(']');
        assert(out@ =~= old(out)@ + (open@ + inner@ + seq![']']));
    } else {
        assert(out@ =~= old(out)@ + Seq::<char>::empty());
    }
}

/// Appends the lines of a list and the blank line after them to `out`.
fn process_list(children: &Vec<HtmlNode>, out: &mut Vec<char>, marker: &str)
    ensures
        final(out)@ == old(out)@ + list_markup(list_first(children@, children@.len(), marker@)),
    decreases children@, children@.len() + 1,
{
    let mut lines: Vec<char> = Vec::new();
    let mut i: usize = 0;
    while i < children.len()
        invariant
            i <= children@.len(),
            lines@ == list_first(children@, i as nat, marker@),
        decreases children@.len() - i,
    {
        let ghost before = lines@;
        let ghost line = list_line(children@[i as int], marker@);
        match &children[i] {
            HtmlNode::Element { tag, href, children: parts } => {
                if same_text(tag.as_str(), "li") {
                    let mut inner: Vec<char> = Vec::new();
                    process_nodes(parts, &mut inner, true);
                    assert(inner@ =~= markup_seq(parts@, true));
                    let t = trim_chars(&inner);
                    assert(line == block(marker@, inner@, "\n"@));
                    if t.len() > 0 {
                        push_str(&mut lines, marker);
                        push_all(&mut lines, &t);
                        push_str(&mut lines, "\n");
                        assert(lines@ =~= before + (marker@ + t@ + "\n"@));
                    } else {
                        assert(lines@ =~= before + Seq::<char>::empty());
                    }
                } else {
                    assert(line =~= Seq::<char>::empty());
                    assert(lines@ =~= before + Seq::<char>::empty());
                }
            },
            _ => {
                assert(line =~= Seq::<char>::empty());
                assert(lines@ =~= before + Seq::<char>::empty());
            },
        }
        assert(lines@ == before + line);
        i += 1;
    }
    if lines.len() > 0 {
        push_all(out, &lines);
        push_str(out, "\n");
        assert(out@ =~= old(out)@ + (lines@ + "\n"@));
    } else {
        assert(out@ =~= old(out)@ + Seq::<char>::empty());
    }
}

// ---------------------------------------------------------------------------
// Cleaning up, and the whole conversion
// ---------------------------------------------------------------------------

/// Whether the text ends with a blank line: with two newlines.
pub open spec fn ends_blank(s: Seq<char>) -> bool {
    s.len() >= 2 && s[s.len() - 1] == '\n' && s[s.len() - 2] == '\n'
}

/// `s` with every run of three or more newlines cut down to two.
pub open spec fn collapsed(s: Seq<char>) -> Seq<char>
    decreases s.len(),
{
    if s.len() == 0 {
        Seq::empty()
    } else {
        let r = collapsed(s.drop_last());
        if s.last() == '\n' && ends_blank(r) {
            r
        } else {
            r.push(s.last())
        }
    }
}

/// Markup as it leaves the converter: no more than one blank line in a
/// row, and no white space at either end.
pub open spec fn cleaned(s: Seq<char>) -> Seq<char> {
    trim(collapsed(s))
}

/// The markup cleaned up: runs of line breaks cut to two, and trimmed.
pub fn clean_chars(v: &Vec<char>) -> (r: Vec<char>)
    ensures
        r@ == cleaned(v@),
{
    let mut out: Vec<char> = Vec::new();
    let mut i: usize = 0;
    while i < v.len()
        invariant
            i <= v@.len(),
            out@ == collapsed(v@.take(i as int)),
        decreases v@.len() - i,
    {
        let c = v[i];
        proof {
            assert(v@.take(i + 1).drop_last() =~= v@.take(i as int));
            assert(v@.take(i + 1).last() == c);
        }
        let n = out.len();
        if c == '\n' && n >= 2 && out[n - 1] == '\n' && out[n - 2] == '\n' {
        } else {
            out.push(c);
        }
        i += 1;
    }
    assert(v@.take(v@.len() as int) =~= v@);
    trim_chars(&out)
}

/// Cuts runs of blank lines down to one and trims the ends.
pub fn clean_output(s: String) -> (r: String)
    ensures
        r@ == cleaned(s@),
{
    string_of(&clean_chars(&chars_of(s.as_str())))
}

/// The markup of a parsed fragment, cleaned up.
pub fn nodes_to_typst(nodes: &Vec<HtmlNode>) -> (r: String)
    ensures
        r@ == cleaned(markup_seq(nodes@, false)),
{
    let mut out: Vec<char> = Vec::new();
    process_nodes(nodes, &mut out, false);
    assert(out@ =~= markup_seq(nodes@, false));
    string_of(&clean_chars(&out))
}

/// The markup that a piece of HTML becomes. Nothing, for text that is
/// nothing but white space. Text without any `<` is not parsed: it is
/// trimmed and escaped. Anything else is parsed as a fragment, and the
/// markup of the tree is cleaned up.
pub open spec fn typst_of(html: Seq<char>) -> Seq<char> {
    let t = trim(html);
    if t.len() == 0 {
        Seq::empty()
    } else if !has_char(t, '<') {
        escaped(t)
    } else {
        cleaned(markup_seq(html_fragment(t, "href"@), false))
    }
}

/// Converts HTML to the engine's markup.
pub fn html_to_typst(html: &str) -> (r: String)
    ensures
        r@ == typst_of(html@),
{
    let t = trim_chars(&chars_of(html));
    if t.len() == 0 {
        return String::new();
    }
    if !has_char_in(&t, '<') {
        let mut out: Vec<char> = Vec::new();
        push_escaped(&mut out, &t);
        assert(out@ =~= escaped(t@));
        return string_of(&out);
    }
    let text = string_of(&t);
    let nodes = parse_fragment(text.as_str(), "href");
    nodes_to_typst(&nodes)
}

} // verus!
