//! What holds of the conversion to markup, whatever the input.

use vstd::prelude::*;
use crate::render::rich_text::field_markup;
use crate::search::has_char;
use crate::text::{
    is_space, lead, lemma_lead_bound, lemma_lead_is, lemma_trail_bound, lemma_trail_is,
    lemma_trim_ends, lemma_trim_idempotent, trim, trim_start,
};
use crate::utils::html_to_typst::{
    cleaned, collapsed, ends_blank, escaped, escaped_char, is_markup_char, typst_of,
};
use crate::utils::sanitize::sanitized;

verus! {

/// Whether nowhere in the text three newlines stand in a row.
pub open spec fn no_three_newlines(s: Seq<char>) -> bool {
    forall|i: int|
        0 <= i && i + 2 < s.len() ==> !(#[trigger] s[i] == '\n' && s[i + 1] == '\n' && s[i + 2]
            == '\n')
}

/// Collapsing leaves no three newlines in a row, and no text longer than
/// it was.
pub proof fn lemma_collapsed_has_no_three(s: Seq<char>)
    ensures
        no_three_newlines(collapsed(s)),
        collapsed(s).len() <= s.len(),
    decreases s.len(),
{
    if s.len() > 0 {
        lemma_collapsed_has_no_three(s.drop_last());
        let r = collapsed(s.drop_last());
        let c = collapsed(s);
        if !(s.last() == '\n' && ends_blank(r)) {
            assert forall|i: int| 0 <= i && i + 2 < c.len() implies !(#[trigger] c[i] == '\n'
                && c[i + 1] == '\n' && c[i + 2] == '\n') by {
                if i + 2 < r.len() {
                    assert(c[i] == r[i] && c[i + 1] == r[i + 1] && c[i + 2] == r[i + 2]);
                }
            }
        }
    }
}

/// Text without three newlines in a row is left as it is by collapsing.
pub proof fn lemma_collapsed_fixes(s: Seq<char>)
    requires
        no_three_newlines(s),
    ensures
        collapsed(s) == s,
    decreases s.len(),
{
    if s.len() > 0 {
        let p = s.drop_last();
        assert forall|i: int| 0 <= i && i + 2 < p.len() implies !(#[trigger] p[i] == '\n' && p[i
            + 1] == '\n' && p[i + 2] == '\n') by {
            assert(p[i] == s[i] && p[i + 1] == s[i + 1] && p[i + 2] == s[i + 2]);
        }
        lemma_collapsed_fixes(p);
        if s.last() == '\n' && ends_blank(p) {
            let i = s.len() - 3;
            assert(s[i] == p[i] && s[i + 1] == p[i + 1]);
            assert(s[i] == '\n' && s[i + 1] == '\n' && s[i + 2] == '\n');
        }
        assert(p.push(s.last()) =~= s);
    } else {
        assert(s =~= Seq::<char>::empty());
    }
}

/// Trimming brings no three newlines together.
pub proof fn lemma_trim_keeps_no_three(s: Seq<char>)
    requires
        no_three_newlines(s),
    ensures
        no_three_newlines(trim(s)),
{
    lemma_lead_bound(s);
    let a = trim_start(s);
    lemma_trail_bound(a);
    let t = trim(s);
    let k = lead(s) as int;
    assert forall|i: int| 0 <= i && i + 2 < t.len() implies !(#[trigger] t[i] == '\n' && t[i + 1]
        == '\n' && t[i + 2] == '\n') by {
        assert(t[i] == s[i + k] && t[i + 1] == s[i + k + 1] && t[i + 2] == s[i + k + 2]);
    }
}

/// Cleaning up twice is cleaning up once.
pub proof fn lemma_clean_idempotent(s: Seq<char>)
    ensures
        cleaned(cleaned(s)) == cleaned(s),
{
    lemma_collapsed_has_no_three(s);
    lemma_trim_keeps_no_three(collapsed(s));
    lemma_collapsed_fixes(cleaned(s));
    lemma_trim_idempotent(collapsed(s));
}

/// Whether the text holds a character that means something to the engine.
pub open spec fn has_markup_char(s: Seq<char>) -> bool {
    exists|i: int| 0 <= i < s.len() && is_markup_char(#[trigger] s[i])
}

/// Escaping leaves text without any character that needs it as it is.
pub proof fn lemma_escaped_plain(s: Seq<char>)
    requires
        !has_markup_char(s),
    ensures
        escaped(s) == s,
    decreases s.len(),
{
    if s.len() > 0 {
        let p = s.drop_last();
        assert forall|i: int| 0 <= i < p.len() implies !is_markup_char(#[trigger] p[i]) by {
            assert(p[i] == s[i]);
        }
        lemma_escaped_plain(p);
        assert(!is_markup_char(s[s.len() - 1]));
        assert(p + seq![s.last()] =~= s);
    } else {
        assert(s =~= Seq::<char>::empty());
    }
}

/// Escaped text begins and ends with white space only where the text
/// does.
pub proof fn lemma_escaped_ends(s: Seq<char>)
    requires
        s.len() > 0,
    ensures
        escaped(s).len() > 0,
        is_space(escaped(s)[0]) == is_space(s[0]),
        escaped(s).last() == s.last(),
    decreases s.len(),
{
    let p = s.drop_last();
    let e = escaped(s);
    assert(e == escaped(p) + escaped_char(s.last()));
    if p.len() > 0 {
        lemma_escaped_ends(p);
        assert(e[0] == escaped(p)[0]);
        assert(p[0] == s[0]);
    } else {
        assert(escaped(p) =~= Seq::<char>::empty());
        assert(e =~= escaped_char(s.last()));
    }
}

/// The markup of a rich text has no white space at its ends.
pub proof fn lemma_markup_is_trimmed(html: Seq<char>)
    ensures
        trim(typst_of(html)) == typst_of(html),
{
    let t = trim(html);
    let out = typst_of(html);
    if t.len() == 0 {
        assert(trim(Seq::<char>::empty()) =~= Seq::<char>::empty());
    } else if !has_char(t, '<') {
        lemma_trim_ends(html);
        lemma_escaped_ends(t);
        lemma_lead_is(out, 0);
        lemma_trail_is(out.skip(0), 0);
        assert(out.skip(0) =~= out);
        assert(out.take(out.len() as int) =~= out);
    } else {
        let inner = collapsed(crate::utils::html_to_typst::markup_seq(
            crate::utils::html_to_typst::html_fragment(t, "href"@),
            false,
        ));
        lemma_trim_idempotent(inner);
    }
}

/// Converting twice is converting once, for a rich text whose markup holds
/// no character that means something to the engine and is left as it is
/// when it is made safe.
///
/// Without the two conditions the law does not hold of every text: the
/// markup of `a#b` is `a\#b`, of which the markup is `a\\\#b`.
pub proof fn lemma_convert_idempotent(html: Seq<char>)
    requires
        !has_markup_char(field_markup(html)),
        sanitized(field_markup(html)) == field_markup(html),
    ensures
        field_markup(field_markup(html)) == field_markup(html),
{
    let out = field_markup(html);
    if out.len() > 0 {
        assert(html.len() > 0);
        lemma_markup_is_trimmed(sanitized(html));
        assert(trim(out) == out);
        assert(!has_char(out, '<')) by {
            if has_char(out, '<') {
                let i = choose|i: int| 0 <= i < out.len() && #[trigger] out[i] == '<';
                assert(is_markup_char(out[i]));
            }
        }
        lemma_escaped_plain(out);
    }
}

} // verus!
