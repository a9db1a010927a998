//! Regular expressions, matched by the `regex` crate.

use vstd::prelude::*;

verus! {

/// Whether `regex` finds a match of the pattern somewhere in the text, or
/// nothing where it does not take the pattern.
pub uninterp spec fn regex_match(pattern: Seq<char>, text: Seq<char>) -> Option<bool>;

/// The leftmost match of the pattern that `regex` finds in the text, or
/// nothing where there is none or it does not take the pattern.
pub uninterp spec fn regex_first(pattern: Seq<char>, text: Seq<char>) -> Option<Seq<char>>;

/// Calls `regex::Regex::new` on the pattern and `is_match` on the text.
/// Both depend on their arguments alone.
#[verifier::external_body]
pub(crate) fn is_match(pattern: &str, text: &str) -> (r: Option<bool>)
    ensures
        r == regex_match(pattern@, text@),
{
    match regex::Regex::new(pattern) {
        Ok(re) => Some(re.is_match(text)),
        Err(_) => None,
    }
}

/// Calls `regex::Regex::new` on the pattern and `find` on the text, and
/// copies the match out.
#[verifier::external_body]
pub(crate) fn find_first(pattern: &str, text: &str) -> (r: Option<String>)
    ensures
        crate::text::opt_text(r) == regex_first(pattern@, text@),
{
    match regex::Regex::new(pattern) {
        Ok(re) => re.find(text).map(|m| m.as_str().to_string()),
        Err(_) => None,
    }
}

/// The pattern of an address of the web: `http://` or `https://`, then one
/// character or more, none of them white space, to the end.
pub open spec fn url_pattern() -> Seq<char> {
    "^https?://[^\\s]+$"@
}

/// The pattern of an address of the web inside other text.
pub open spec fn url_inside_pattern() -> Seq<char> {
    "https?://[^\\s]+"@
}

/// The pattern of an e-mail address: a local part, `@`, a domain, a dot and
/// at least two letters.
pub open spec fn email_pattern() -> Seq<char> {
    "^[a-zA-Z0-9._%+-]+@[a-zA-Z0-9.-]+\\.[a-zA-Z]{2,}$"@
}

/// Whether all of the text is an address of the web.
pub open spec fn is_web_address(s: Seq<char>) -> bool {
    regex_match(url_pattern(), s) == Some(true)
}

/// Whether all of the text is an e-mail address.
pub open spec fn is_email_address(s: Seq<char>) -> bool {
    regex_match(email_pattern(), s) == Some(true)
}

/// Whether all of the text is an address of the web.
pub fn matches_url(s: &str) -> (r: bool)
    ensures
        r == is_web_address(s@),
{
    match is_match("^https?://[^\\s]+$", s) {
        Some(m) => m,
        None => false,
    }
}

/// Whether all of the text is an e-mail address.
pub fn matches_email(s: &str) -> (r: bool)
    ensures
        r == is_email_address(s@),
{
    match is_match("^[a-zA-Z0-9._%+-]+@[a-zA-Z0-9.-]+\\.[a-zA-Z]{2,}$", s) {
        Some(m) => m,
        None => false,
    }
}

} // verus!
