//! Date ranges as text.

use vstd::prelude::*;
use crate::text::{chars_of, push_all, push_str, string_of, trim, trim_chars};

verus! {

/// The characters of a string slice that may be absent.
pub open spec fn opt_str(o: Option<&str>) -> Option<Seq<char>> {
    match o {
        Some(s) => Some(s@),
        None => None,
    }
}

/// A date as it counts in a range: trimmed, and absent where nothing but
/// white space was given.
pub open spec fn given_date(o: Option<Seq<char>>) -> Option<Seq<char>> {
    match o {
        Some(s) => if trim(s).len() > 0 {
            Some(trim(s))
        } else {
            None
        },
        None => None,
    }
}

/// A range of dates: `start - end`; `start - Present` where no end is
/// given; the end alone where no start is given; nothing where neither is.
pub open spec fn date_range(start: Option<Seq<char>>, end: Option<Seq<char>>) -> Seq<char> {
    match (given_date(start), given_date(end)) {
        (Some(s), Some(e)) => s + " - "@ + e,
        (Some(s), None) => s + " - Present"@,
        (None, Some(e)) => e,
        (None, None) => Seq::empty(),
    }
}

fn given(o: Option<&str>) -> (r: Option<Vec<char>>)
    ensures
        match r {
            Some(v) => given_date(opt_str(o)) == Some(v@),
            None => given_date(opt_str(o)) is None,
        },
{
    match o {
        Some(s) => {
            let t = trim_chars(&chars_of(s));
            if t.len() > 0 {
                Some(t)
            } else {
                None
            }
        },
        None => None,
    }
}

/// Writes a range of dates.
pub fn format_date_range(start: Option<&str>, end: Option<&str>) -> (r: String)
    ensures
        r@ == date_range(opt_str(start), opt_str(end)),
{
    let s = given(start);
    let e = given(end);
    let mut out: Vec<char> = Vec::new();
    match (s, e) {
        (Some(s), Some(e)) => {
            push_all(&mut out, &s);
            push_str(&mut out, " - ");
            push_all(&mut out, &e);
            assert(out@ =~= s@ + " - "@ + e@);
        },
        (Some(s), None) => {
            push_all(&mut out, &s);
            push_str(&mut out, " - Present");
            assert(out@ =~= s@ + " - Present"@);
        },
        (None, Some(e)) => {
            push_all(&mut out, &e);
            assert(out@ =~= e@);
        },
        (None, None) => {},
    }
    string_of(&out)
}

} // verus!
