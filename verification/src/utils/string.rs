//! Small questions about strings.

use vstd::prelude::*;
use crate::pattern::{
    find_first, is_email_address, is_web_address, matches_email, matches_url, regex_first,
    url_inside_pattern,
};
use crate::text::{
    chars_of, is_space, is_space_char, lowercase, opt_text, push_all, same_chars, string_of,
    to_lowercase, trim, trim_chars,
};

verus! {

/// The upper-case form that Unicode gives a character, which may be more
/// than one character: what `char::to_uppercase` yields for it.
pub uninterp spec fn uppercase_of(c: char) -> Seq<char>;

/// Whether Unicode counts a character as a letter or a number: what
/// `char::is_alphanumeric` says of it.
pub uninterp spec fn is_alphanumeric(c: char) -> bool;

/// Calls `char::to_uppercase` and collects what it yields.
#[verifier::external_body]
pub(crate) fn to_uppercase(c: char) -> (r: Vec<char>)
    ensures
        r@ == uppercase_of(c),
{
    c.to_uppercase().collect()
}

/// Calls `char::is_alphanumeric`.
#[verifier::external_body]
fn alphanumeric(c: char) -> (r: bool)
    ensures
        r == is_alphanumeric(c),
{
    c.is_alphanumeric()
}

/// The initials of the first `n` characters of a name: the upper-case
/// form of each character that starts a word.
pub open spec fn initials_of(name: Seq<char>, n: nat) -> Seq<char>
    decreases n,
{
    if n == 0 || n > name.len() {
        Seq::empty()
    } else {
        let before = initials_of(name, (n - 1) as nat);
        if !is_space(name[n - 1]) && (n == 1 || is_space(name[n - 2])) {
            before + uppercase_of(name[n - 1])
        } else {
            before
        }
    }
}

/// The initials of a name: the first character of each word, in upper
/// case. Words are what white space parts.
pub fn get_initials(name: &str) -> (r: String)
    ensures
        r@ == initials_of(name@, name@.len()),
{
    let v = chars_of(name);
    let mut out: Vec<char> = Vec::new();
    let mut i: usize = 0;
    while i < v.len()
        invariant
            i <= v@.len(),
            out@ == initials_of(v@, i as nat),
        decreases v@.len() - i,
    {
        if !is_space_char(v[i]) && (i == 0 || is_space_char(v[i - 1])) {
            push_all(&mut out, &to_uppercase(v[i]));
        }
        i += 1;
    }
    string_of(&out)
}

/// Whether all of the text is an address of the web.
pub fn is_url(s: &str) -> (r: bool)
    ensures
        r == (s@.len() > 0 && is_web_address(s@)),
{
    !s.is_empty() && matches_url(s)
}

/// The first address of the web that stands in the text.
pub fn extract_url(s: &str) -> (r: Option<String>)
    ensures
        opt_text(r) == regex_first(url_inside_pattern(), s@),
{
    find_first("https?://[^\\s]+", s)
}

/// Whether the text, trimmed, is one of the paragraphs that an editor
/// leaves behind when all is deleted.
pub open spec fn is_editor_residue(t: Seq<char>) -> bool {
    t == "<p></p>"@ || t == "<p><br></p>"@ || t == "<p>&nbsp;</p>"@
}

/// Whether the text is empty: nothing but white space, or what an editor
/// leaves behind when all is deleted.
pub fn is_empty_string(s: &str) -> (r: bool)
    ensures
        r == (trim(s@).len() == 0 || is_editor_residue(trim(s@))),
{
    let t = trim_chars(&chars_of(s));
    t.len() == 0 || same_chars(&t, &chars_of("<p></p>")) || same_chars(
        &t,
        &chars_of("<p><br></p>"),
    ) || same_chars(&t, &chars_of("<p>&nbsp;</p>"))
}

/// Whether a character may stand in a user name.
pub open spec fn is_name_char(c: char) -> bool {
    is_alphanumeric(c) || c == '.' || c == '-'
}

/// The first `n` characters of a text, those of them that may stand in a
/// user name.
pub open spec fn name_chars(s: Seq<char>, n: nat) -> Seq<char>
    decreases n,
{
    if n == 0 || n > s.len() {
        Seq::empty()
    } else if is_name_char(s[n - 1]) {
        name_chars(s, (n - 1) as nat).push(s[n - 1])
    } else {
        name_chars(s, (n - 1) as nat)
    }
}

/// A user name made of a text already in lower case: its letters, digits,
/// dots and hyphens.
pub fn username_of_lowered(lower: &str) -> (r: String)
    ensures
        r@ == name_chars(lower@, lower@.len()),
{
    let v = chars_of(lower);
    let mut out: Vec<char> = Vec::new();
    let mut i: usize = 0;
    while i < v.len()
        invariant
            i <= v@.len(),
            out@ == name_chars(v@, i as nat),
        decreases v@.len() - i,
    {
        let c = v[i];
        if alphanumeric(c) || c == '.' || c == '-' {
            out.push(c);
        }
        i += 1;
    }
    string_of(&out)
}

/// A user name made of a text: in lower case, and only its letters,
/// digits, dots and hyphens.
pub fn process_username(s: &str) -> (r: String)
    ensures
        r@ == name_chars(lowercase(s@), lowercase(s@).len()),
{
    let lower = to_lowercase(s);
    username_of_lowered(lower.as_str())
}

/// Whether the text is an e-mail address.
pub fn is_valid_email(s: &str) -> (r: bool)
    ensures
        r == is_email_address(s@),
{
    matches_email(s)
}

} // verus!
