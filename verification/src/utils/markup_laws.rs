//! No tag of the HTML reaches the markup: what holds of `<` and `>` in the
//! markup of a tree.

use vstd::prelude::*;
use crate::render::rich_text::field_markup;
use crate::search::{contains, has_char, occurs_at};
use crate::text::{
    is_space, lead, lemma_lead_bound, lemma_trail_bound, text_or_empty, trim, trim_start,
};
use crate::utils::html_to_typst::{
    block, bracketed, collapsed, ends_blank, escaped, escaped_char, html_fragment, is_markup_char,
    list_first, list_line, markup, markup_first, markup_seq, quoted, quoted_char, typst_of,
    HtmlNode,
};
use crate::utils::sanitize::sanitized;

verus! {

/// Whether a character opens or closes a tag.
pub open spec fn is_bracket(c: char) -> bool {
    c == '<' || c == '>'
}

/// Whether the text holds neither `<` nor `>`.
pub open spec fn has_no_bracket(s: Seq<char>) -> bool {
    forall|i: int| 0 <= i < s.len() ==> !is_bracket(#[trigger] s[i])
}

/// Whether every `<` and every `>` of the text comes after a backslash,
/// so that the engine reads it as a character and nothing in the text
/// reads as a tag.
pub open spec fn brackets_guarded(s: Seq<char>) -> bool {
    forall|i: int| 0 <= i < s.len() && is_bracket(#[trigger] s[i]) ==> i > 0 && s[i - 1] == '\\'
}

/// Whether no link of the node, or below it, has `<` or `>` in its address.
pub open spec fn links_plain(node: HtmlNode) -> bool
    decreases node, 0nat,
{
    match node {
        HtmlNode::Element { tag, href, children } => {
            &&& tag@ == "a"@ ==> has_no_bracket(text_or_empty(href))
            &&& all_links_plain(children@, children@.len())
        },
        _ => true,
    }
}

/// Whether no link of the first `n` nodes, or below them, has `<` or `>`
/// in its address.
pub open spec fn all_links_plain(nodes: Seq<HtmlNode>, n: nat) -> bool
    decreases nodes, n,
{
    if n == 0 || n > nodes.len() {
        true
    } else {
        all_links_plain(nodes, (n - 1) as nat) && links_plain(nodes[n - 1])
    }
}

/// Whether no link of a piece of HTML has `<` or `>` in its address. Text
/// without any `<` has no link.
pub open spec fn links_plain_in(html: Seq<char>) -> bool {
    let t = trim(html);
    has_char(t, '<') ==> all_links_plain(
        html_fragment(t, "href"@),
        html_fragment(t, "href"@).len(),
    )
}

/// Text without `<` and `>` has them guarded.
pub proof fn lemma_plain_is_guarded(s: Seq<char>)
    requires
        has_no_bracket(s),
    ensures
        brackets_guarded(s),
{
}

/// Two texts with guarded brackets, one after the other, have them
/// guarded.
pub proof fn lemma_guarded_concat(a: Seq<char>, b: Seq<char>)
    requires
        brackets_guarded(a),
        brackets_guarded(b),
    ensures
        brackets_guarded(a + b),
{
    let s = a + b;
    assert forall|i: int| 0 <= i < s.len() && is_bracket(#[trigger] s[i]) implies i > 0 && s[i
        - 1] == '\\' by {
        if i < a.len() {
            assert(s[i] == a[i]);
            assert(s[i - 1] == a[i - 1]);
        } else {
            let k = i - a.len();
            assert(s[i] == b[k]);
            assert(k > 0);
            assert(s[i - 1] == b[k - 1]);
        }
    }
}

/// In escaped text every `<` and every `>` comes after a backslash.
pub proof fn lemma_escaped_guards_brackets(s: Seq<char>, i: int)
    requires
        0 <= i < escaped(s).len(),
        escaped(s)[i] == '<' || escaped(s)[i] == '>',
    ensures
        i > 0,
        escaped(s)[i - 1] == '\\',
    decreases s.len(),
{
    if s.len() > 0 {
        let p = s.drop_last();
        let e = escaped(s);
        assert(e == escaped(p) + escaped_char(s.last()));
        if i < escaped(p).len() {
            assert(e[i] == escaped(p)[i]);
            lemma_escaped_guards_brackets(p, i);
            assert(e[i - 1] == escaped(p)[i - 1]);
        } else {
            let c = s.last();
            let k = i - escaped(p).len();
            assert(e[i] == escaped_char(c)[k]);
            if is_markup_char(c) {
                assert(k == 1) by {
                    if k == 0 {
                        assert(escaped_char(c)[0] == '\\');
                    }
                }
                assert(e[i - 1] == escaped_char(c)[0]);
            } else {
                assert(escaped_char(c)[k] == c);
            }
        }
    }
}

/// Escaped text has its brackets guarded.
pub proof fn lemma_escaped_is_guarded(s: Seq<char>)
    ensures
        brackets_guarded(escaped(s)),
{
    let e = escaped(s);
    assert forall|i: int| 0 <= i < e.len() && is_bracket(#[trigger] e[i]) implies i > 0 && e[i
        - 1] == '\\' by {
        lemma_escaped_guards_brackets(s, i);
    }
}

/// Quoting brings neither `<` nor `>` into a text.
pub proof fn lemma_quoted_is_plain(s: Seq<char>)
    requires
        has_no_bracket(s),
    ensures
        has_no_bracket(quoted(s)),
    decreases s.len(),
{
    if s.len() > 0 {
        let p = s.drop_last();
        let q = quoted(s);
        assert(q == quoted(p) + quoted_char(s.last()));
        assert forall|i: int| 0 <= i < p.len() implies !is_bracket(#[trigger] p[i]) by {
            assert(p[i] == s[i]);
        }
        lemma_quoted_is_plain(p);
        assert(!is_bracket(s[s.len() - 1]));
        assert forall|i: int| 0 <= i < q.len() implies !is_bracket(#[trigger] q[i]) by {
            if i < quoted(p).len() {
                assert(q[i] == quoted(p)[i]);
            } else {
                assert(q[i] == quoted_char(s.last())[i - quoted(p).len()]);
            }
        }
    }
}

/// Trimming keeps brackets guarded: a backslash is no white space.
pub proof fn lemma_trim_keeps_guarded(s: Seq<char>)
    requires
        brackets_guarded(s),
    ensures
        brackets_guarded(trim(s)),
{
    lemma_lead_bound(s);
    let k = lead(s) as int;
    let a = trim_start(s);
    lemma_trail_bound(a);
    let t = trim(s);
    assert forall|i: int| 0 <= i < t.len() && is_bracket(#[trigger] t[i]) implies i > 0 && t[i
        - 1] == '\\' by {
        assert(t[i] == a[i]);
        assert(a[i] == s[k + i]);
        assert(is_bracket(s[k + i]));
        assert(s[k + i - 1] == '\\');
        if i == 0 {
            assert(is_space(s[k - 1]));
            assert(!is_space('\\'));
        } else {
            assert(t[i - 1] == s[k + i - 1]);
        }
    }
}

/// Collapsing blank lines keeps the last character of a text.
pub proof fn lemma_collapsed_last(s: Seq<char>)
    requires
        s.len() > 0,
    ensures
        collapsed(s).len() > 0,
        collapsed(s).last() == s.last(),
{
}

/// Collapsing blank lines keeps brackets guarded.
pub proof fn lemma_collapsed_keeps_guarded(s: Seq<char>)
    requires
        brackets_guarded(s),
    ensures
        brackets_guarded(collapsed(s)),
    decreases s.len(),
{
    if s.len() > 0 {
        let p = s.drop_last();
        let c = s.last();
        let r = collapsed(p);
        assert forall|i: int| 0 <= i < p.len() && is_bracket(#[trigger] p[i]) implies i > 0 && p[i
            - 1] == '\\' by {
            assert(p[i] == s[i]);
            assert(p[i - 1] == s[i - 1]);
        }
        lemma_collapsed_keeps_guarded(p);
        if !(c == '\n' && ends_blank(r)) {
            let out = r.push(c);
            assert forall|i: int| 0 <= i < out.len() && is_bracket(#[trigger] out[i]) implies i
                > 0 && out[i - 1] == '\\' by {
                if i < r.len() {
                    assert(out[i] == r[i]);
                    assert(out[i - 1] == r[i - 1]);
                } else {
                    assert(is_bracket(s[s.len() - 1]));
                    assert(p.len() > 0);
                    assert(p.last() == s[s.len() - 2]);
                    lemma_collapsed_last(p);
                    assert(out[i - 1] == r.last());
                }
            }
        }
    }
}

/// Markup between brackets has its brackets guarded where the opening and
/// the markup have.
pub proof fn lemma_bracketed_guarded(open: Seq<char>, inner: Seq<char>)
    requires
        brackets_guarded(open),
        brackets_guarded(inner),
    ensures
        brackets_guarded(bracketed(open, inner)),
{
    if inner.len() > 0 {
        lemma_guarded_concat(open, inner);
        lemma_guarded_concat(open + inner, seq![']']);
    }
}

/// A block has its brackets guarded where its three parts have.
pub proof fn lemma_block_guarded(lead: Seq<char>, inner: Seq<char>, tail: Seq<char>)
    requires
        brackets_guarded(lead),
        brackets_guarded(inner),
        brackets_guarded(tail),
    ensures
        brackets_guarded(block(lead, inner, tail)),
{
    lemma_trim_keeps_guarded(inner);
    if trim(inner).len() > 0 {
        lemma_guarded_concat(lead, trim(inner));
        lemma_guarded_concat(lead + trim(inner), tail);
    }
}

/// The fixed pieces of the markup hold neither `<` nor `>`.
pub proof fn lemma_pieces_are_plain()
    ensures
        brackets_guarded("#text(weight: \"bold\")["@),
        brackets_guarded("#emph["@),
        brackets_guarded("#underline["@),
        brackets_guarded("#link(\""@),
        brackets_guarded("\")["@),
        brackets_guarded("#linebreak()\n"@),
        brackets_guarded("\n\n"@),
        brackets_guarded("\n"@),
        brackets_guarded("- "@),
        brackets_guarded("+ "@),
{
    reveal_strlit("#text(weight: \"bold\")[");
    reveal_strlit("#emph[");
    reveal_strlit("#underline[");
    reveal_strlit("#link(\"");
    reveal_strlit("\")[");
    reveal_strlit("#linebreak()\n");
    reveal_strlit("\n\n");
    reveal_strlit("\n");
    reveal_strlit("- ");
    reveal_strlit("+ ");
}

/// The markup of a node has its brackets guarded, where no link of the
/// node has one in its address.
pub proof fn lemma_markup_guarded(node: HtmlNode, in_list: bool)
    requires
        links_plain(node),
    ensures
        brackets_guarded(markup(node, in_list)),
    decreases node, 0nat,
{
    lemma_pieces_are_plain();
    match node {
        HtmlNode::Text(t) => {
            lemma_escaped_is_guarded(t@);
        },
        HtmlNode::Element { tag, href, children } => {
            let n = children@.len();
            let inner = markup_first(children@, n, in_list);
            lemma_markup_first_guarded(children@, n, in_list);
            lemma_markup_first_guarded(children@, n, false);
            lemma_list_first_guarded(children@, n, "- "@);
            lemma_list_first_guarded(children@, n, "+ "@);
            let para = trim(markup_first(children@, n, false));
            lemma_trim_keeps_guarded(markup_first(children@, n, false));
            lemma_guarded_concat(para, "\n\n"@);
            lemma_bracketed_guarded("#text(weight: \"bold\")["@, inner);
            lemma_bracketed_guarded("#emph["@, inner);
            lemma_bracketed_guarded("#underline["@, inner);
            if tag@ == "a"@ {
                let address = quoted(text_or_empty(href));
                lemma_quoted_is_plain(text_or_empty(href));
                lemma_plain_is_guarded(address);
                lemma_guarded_concat("#link(\""@, address);
                lemma_guarded_concat("#link(\""@ + address, "\")["@);
                lemma_bracketed_guarded("#link(\""@ + address + "\")["@, inner);
            }
            let dashes = list_first(children@, n, "- "@);
            let pluses = list_first(children@, n, "+ "@);
            lemma_guarded_concat(dashes, "\n"@);
            lemma_guarded_concat(pluses, "\n"@);
        },
        HtmlNode::Other => {},
    }
}

/// The markup of the first `n` nodes has its brackets guarded, where no
/// link of them has one in its address.
pub proof fn lemma_markup_first_guarded(nodes: Seq<HtmlNode>, n: nat, in_list: bool)
    requires
        all_links_plain(nodes, n),
    ensures
        brackets_guarded(markup_first(nodes, n, in_list)),
    decreases nodes, n,
{
    if !(n == 0 || n > nodes.len()) {
        lemma_markup_first_guarded(nodes, (n - 1) as nat, in_list);
        lemma_markup_guarded(nodes[n - 1], in_list);
        lemma_guarded_concat(
            markup_first(nodes, (n - 1) as nat, in_list),
            markup(nodes[n - 1], in_list),
        );
    }
}

/// The line of a list item has its brackets guarded, where no link of the
/// item has one in its address.
pub proof fn lemma_list_line_guarded(node: HtmlNode, marker: Seq<char>)
    requires
        links_plain(node),
        brackets_guarded(marker),
    ensures
        brackets_guarded(list_line(node, marker)),
    decreases node, 0nat,
{
    lemma_pieces_are_plain();
    match node {
        HtmlNode::Element { tag, href, children } => {
            lemma_markup_first_guarded(children@, children@.len(), true);
            lemma_block_guarded(marker, markup_first(children@, children@.len(), true), "\n"@);
        },
        _ => {},
    }
}

/// The lines of a list have their brackets guarded, where no link of the
/// list has one in its address.
pub proof fn lemma_list_first_guarded(nodes: Seq<HtmlNode>, n: nat, marker: Seq<char>)
    requires
        all_links_plain(nodes, n),
        brackets_guarded(marker),
    ensures
        brackets_guarded(list_first(nodes, n, marker)),
    decreases nodes, n,
{
    if !(n == 0 || n > nodes.len()) {
        lemma_list_first_guarded(nodes, (n - 1) as nat, marker);
        lemma_list_line_guarded(nodes[n - 1], marker);
        lemma_guarded_concat(
            list_first(nodes, (n - 1) as nat, marker),
            list_line(nodes[n - 1], marker),
        );
    }
}

/// No tag reaches the markup: in the markup of a piece of HTML of which no
/// link has `<` or `>` in its address, every `<` and every `>` comes after
/// a backslash.
///
/// The address of a link goes into the markup between double quotes, as it
/// is: the markup of `<a href="<script>">x</a>` holds `<script>`.
pub proof fn lemma_markup_has_no_tag(html: Seq<char>)
    requires
        links_plain_in(html),
    ensures
        brackets_guarded(typst_of(html)),
{
    let t = trim(html);
    if t.len() == 0 {
    } else if !has_char(t, '<') {
        lemma_escaped_is_guarded(t);
    } else {
        let nodes = html_fragment(t, "href"@);
        lemma_markup_first_guarded(nodes, nodes.len(), false);
        lemma_collapsed_keeps_guarded(markup_seq(nodes, false));
        lemma_trim_keeps_guarded(collapsed(markup_seq(nodes, false)));
    }
}

/// A text whose brackets are guarded holds no `<script>` tag.
pub proof fn lemma_guarded_has_no_script(s: Seq<char>)
    requires
        brackets_guarded(s),
    ensures
        !contains(s, "<script>"@),
{
    reveal_strlit("<script>");
    let tag = "<script>"@;
    assert forall|i: int| !#[trigger] occurs_at(s, tag, i) by {
        if occurs_at(s, tag, i) {
            assert(s.subrange(i, i + 8)[7] == tag[7]);
            assert(s.subrange(i, i + 8)[6] == tag[6]);
            assert(s[i + 7] == '>');
            assert(s[i + 6] == 't');
        }
    }
}

/// Escaped text holds no `<script>` tag.
pub proof fn lemma_escaped_has_no_script(s: Seq<char>)
    ensures
        !contains(escaped(s), "<script>"@),
{
    lemma_escaped_is_guarded(s);
    lemma_guarded_has_no_script(escaped(s));
}

/// The markup of a rich text holds no `<script>` tag, where no link of the
/// text, made safe, has `<` or `>` in its address.
pub proof fn lemma_field_has_no_script(html: Seq<char>)
    requires
        links_plain_in(sanitized(html)),
    ensures
        brackets_guarded(field_markup(html)),
        !contains(field_markup(html), "<script>"@),
{
    if html.len() > 0 {
        lemma_markup_has_no_tag(sanitized(html));
    }
    lemma_guarded_has_no_script(field_markup(html));
}

} // verus!
