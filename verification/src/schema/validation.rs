//! The rules that a document must meet, and the errors that say where it
//! does not.

use vstd::prelude::*;
use crate::numeral::{decimal, push_decimal};
use crate::pattern::{is_email_address, is_web_address, matches_email, matches_url};
use crate::text::{chars_of, owned, push_str, string_of};

verus! {

/// A rule that a value does not meet: the rule's code and, for most
/// rules, a message.
#[derive(Debug, Clone)]
pub struct ValidationError {
    pub code: String,
    pub message: Option<String>,
}

/// A rule that a field does not meet: the path of the field, such as
/// `sections.experience.items[3].url.href`, and the rule.
#[derive(Debug, Clone)]
pub struct FieldError {
    pub path: String,
    pub code: String,
    pub message: Option<String>,
}

/// All the rules that a value does not meet, in the order of its fields.
#[derive(Debug, Clone)]
pub struct ValidationErrors {
    pub errors: Vec<FieldError>,
}

/// A rule, as the code and the message of its error.
pub enum Rule {
    Url,
    Email,
    HexColor,
    Range,
}

impl Rule {
    /// The short name of the rule.
    pub open spec fn code(self) -> Seq<char> {
        match self {
            Rule::Url => "invalid_url"@,
            Rule::Email => "invalid_email"@,
            Rule::HexColor => "invalid_hex_color"@,
            Rule::Range => "range"@,
        }
    }

    /// The message of the rule, where it has one.
    pub open spec fn message(self) -> Option<Seq<char>> {
        match self {
            Rule::Url => Some("Must be a valid HTTP(S) URL"@),
            Rule::Email => Some("Must be a valid email address"@),
            Rule::HexColor => Some("Must be a valid hex color (#RRGGBB)"@),
            Rule::Range => None,
        }
    }

    /// The error of a value that does not meet the rule.
    pub fn error(&self) -> (e: ValidationError)
        ensures
            e.code@ == self.code(),
            crate::text::opt_text(e.message) == self.message(),
    {
        match self {
            Rule::Url => ValidationError {
                code: owned("invalid_url"),
                message: Some(owned("Must be a valid HTTP(S) URL")),
            },
            Rule::Email => ValidationError {
                code: owned("invalid_email"),
                message: Some(owned("Must be a valid email address")),
            },
            Rule::HexColor => ValidationError {
                code: owned("invalid_hex_color"),
                message: Some(owned("Must be a valid hex color (#RRGGBB)")),
            },
            Rule::Range => ValidationError { code: owned("range"), message: None },
        }
    }
}

/// A link's address is in order when it is empty or an address of the web.
pub open spec fn url_in_order(url: Seq<char>) -> bool {
    url.len() == 0 || is_web_address(url)
}

/// An e-mail address is in order when it is empty or an e-mail address.
pub open spec fn email_in_order(email: Seq<char>) -> bool {
    email.len() == 0 || is_email_address(email)
}

/// Whether a character is a hexadecimal digit.
pub open spec fn is_hex_digit(c: char) -> bool {
    ('0' <= c <= '9') || ('a' <= c <= 'f') || ('A' <= c <= 'F')
}

/// Six hexadecimal digits.
pub open spec fn is_six_hex(s: Seq<char>) -> bool {
    s.len() == 6 && forall|i: int| 0 <= i < 6 ==> is_hex_digit(#[trigger] s[i])
}

/// A colour is in order when it is empty or six hexadecimal digits, with
/// or without a `#` before them.
pub open spec fn color_in_order(color: Seq<char>) -> bool {
    color.len() == 0 || is_six_hex(color) || (color.len() == 7 && color[0] == '#' && is_six_hex(
        color.skip(1),
    ))
}

/// Holds an address of the web against its rule: it is in order when it is
/// empty or an address.
pub fn validate_optional_url(url: &str) -> (r: Result<(), ValidationError>)
    ensures
        r is Ok <==> url_in_order(url@),
        r matches Err(e) ==> e.code@ == Rule::Url.code() && crate::text::opt_text(e.message)
            == Rule::Url.message(),
{
    if url.is_empty() || matches_url(url) {
        Ok(())
    } else {
        Err(Rule::Url.error())
    }
}

/// Holds an e-mail address against its rule: it is in order when it is
/// empty or an address.
pub fn validate_optional_email(email: &str) -> (r: Result<(), ValidationError>)
    ensures
        r is Ok <==> email_in_order(email@),
        r matches Err(e) ==> e.code@ == Rule::Email.code() && crate::text::opt_text(e.message)
            == Rule::Email.message(),
{
    if email.is_empty() || matches_email(email) {
        Ok(())
    } else {
        Err(Rule::Email.error())
    }
}

fn hex_digit(c: char) -> (r: bool)
    ensures
        r == is_hex_digit(c),
{
    ('0' <= c && c <= '9') || ('a' <= c && c <= 'f') || ('A' <= c && c <= 'F')
}

fn six_hex_from(v: &Vec<char>, start: usize) -> (r: bool)
    requires
        start <= v@.len(),
    ensures
        r == is_six_hex(v@.skip(start as int)),
{
    if v.len() - start != 6 {
        return false;
    }
    let mut i: usize = 0;
    while i < 6
        invariant
            i <= 6,
            start + 6 == v.len(),
            forall|k: int| 0 <= k < i ==> is_hex_digit(#[trigger] v@.skip(start as int)[k]),
        decreases 6 - i,
    {
        if !hex_digit(v[start + i]) {
            assert(!is_hex_digit(v@.skip(start as int)[i as int]));
            return false;
        }
        i += 1;
    }
    true
}

/// Holds a colour against its rule.
pub fn validate_hex_color(color: &str) -> (r: Result<(), ValidationError>)
    ensures
        r is Ok <==> color_in_order(color@),
        r matches Err(e) ==> e.code@ == Rule::HexColor.code() && crate::text::opt_text(e.message)
            == Rule::HexColor.message(),
{
    let v = chars_of(color);
    assert(v@.skip(0) =~= v@);
    if v.len() == 0 || six_hex_from(&v, 0) || (v.len() == 7 && v[0] == '#' && six_hex_from(&v, 1)) {
        Ok(())
    } else {
        Err(Rule::HexColor.error())
    }
}

// ---------------------------------------------------------------------------
// Paths
// ---------------------------------------------------------------------------

/// The path of a field of the value at `path`.
pub open spec fn field_path(path: Seq<char>, field: Seq<char>) -> Seq<char> {
    if path.len() == 0 {
        field
    } else {
        path + seq!['.'] + field
    }
}

/// The path of the item at `index` of the list at `path`.
pub open spec fn item_path(path: Seq<char>, index: nat) -> Seq<char> {
    path + seq!['['] + decimal(index) + seq![']']
}

/// The path of a field below a path: the two joined by a dot, or the field
/// alone below the empty path.
pub fn join_path(path: &str, field: &str) -> (r: String)
    ensures
        r@ == field_path(path@, field@),
{
    let mut out: Vec<char> = Vec::new();
    if path.is_empty() {
        push_str(&mut out, field);
        assert(out@ =~= field@);
    } else {
        push_str(&mut out, path);
        out.push('.');
        push_str(&mut out, field);
        assert(out@ =~= path@ + seq!['.'] + field@);
    }
    string_of(&out)
}

/// The path of the item at an index of a list.
pub fn index_path(path: &str, index: usize) -> (r: String)
    ensures
        r@ == item_path(path@, index as nat),
{
    let mut out: Vec<char> = Vec::new();
    push_str(&mut out, path);
    out.push('[');
    push_decimal(&mut out, index as u64);
    out.push(']');
    assert(out@ =~= path@ + seq!['['] + decimal(index as nat) + seq![']']);
    string_of(&out)
}

// ---------------------------------------------------------------------------
// Violations
// ---------------------------------------------------------------------------

/// A rule that a field does not meet, in the abstract: the field's path,
/// the rule's code, and the rule's message where it has one.
pub type Violation = (Seq<char>, Seq<char>, Option<Seq<char>>);

/// What a field error says.
pub open spec fn said(e: FieldError) -> Violation {
    (e.path@, e.code@, crate::text::opt_text(e.message))
}

/// What each of some field errors says.
pub open spec fn all_said(errors: Seq<FieldError>) -> Seq<Violation> {
    Seq::new(errors.len(), |i: int| said(errors[i]))
}

/// The violation of a field, where it does not meet the rule.
pub open spec fn violation_if(broken: bool, path: Seq<char>, rule: Rule) -> Seq<Violation> {
    if broken {
        seq![(path, rule.code(), rule.message())]
    } else {
        Seq::empty()
    }
}

/// Records that the field at `path` does not meet the rule.
pub fn report(errors: &mut Vec<FieldError>, path: String, rule: Rule)
    ensures
        all_said(final(errors)@) == all_said(old(errors)@) + seq![
            (path@, rule.code(), rule.message()),
        ],
        forall|i: int|
            0 <= i < old(errors)@.len() ==> final(errors)@[i] == old(errors)@[i],
        final(errors)@.len() == old(errors)@.len() + 1,
{
    let e = rule.error();
    errors.push(FieldError { path, code: e.code, message: e.message });
    assert(all_said(errors@) =~= all_said(old(errors)@) + seq![
        (path@, rule.code(), rule.message()),
    ]);
}

/// A value that can be held against the rules.
pub trait Validate {
    /// The rules that the value does not meet, in the order of its fields,
    /// when the value stands at `path`.
    spec fn violations(&self, path: Seq<char>) -> Seq<Violation>;

    /// Whether the value meets every rule.
    spec fn in_order(&self) -> bool;

    /// A value has no violation, wherever it stands, exactly when it meets
    /// every rule.
    proof fn lemma_in_order(&self, path: Seq<char>)
        ensures
            self.violations(path).len() == 0 <==> self.in_order(),
    ;

    /// Records, after the errors already found, each rule that the value
    /// does not meet.
    fn check(&self, path: &str, errors: &mut Vec<FieldError>)
        ensures
            all_said(final(errors)@) == all_said(old(errors)@) + self.violations(path@),
    ;

    /// Holds the value against the rules: `Ok` when it meets them all,
    /// else every rule that it does not meet.
    fn validate(&self) -> (r: Result<(), ValidationErrors>)
        ensures
            r is Ok <==> self.in_order(),
            r is Ok <==> self.violations(Seq::empty()).len() == 0,
            r matches Err(e) ==> all_said(e.errors@) == self.violations(Seq::empty()),
    {
        proof {
            self.lemma_in_order(Seq::empty());
        }
        let mut errors: Vec<FieldError> = Vec::new();
        assert(all_said(errors@) =~= Seq::<Violation>::empty());
        proof {
            reveal_strlit("");
            assert(""@ =~= Seq::<char>::empty());
        }
        self.check("", &mut errors);
        assert(all_said(errors@) =~= self.violations(Seq::empty()));
        if errors.len() == 0 {
            Ok(())
        } else {
            Err(ValidationErrors { errors })
        }
    }
}

/// The rules that the first `n` values of a list do not meet, each value at
/// the path of its place in the list.
pub open spec fn list_violations<T: Validate>(items: Seq<T>, path: Seq<char>, n: nat) -> Seq<
    Violation,
>
    decreases n,
{
    if n == 0 || n > items.len() {
        Seq::empty()
    } else {
        list_violations(items, path, (n - 1) as nat) + items[n - 1].violations(
            item_path(path, (n - 1) as nat),
        )
    }
}

/// Whether each value meets every rule.
pub open spec fn all_in_order<T: Validate>(items: Seq<T>) -> bool {
    forall|i: int| 0 <= i < items.len() ==> (#[trigger] items[i]).in_order()
}

/// The first values of a list have no violation exactly when each of them
/// meets every rule.
pub proof fn lemma_list_in_order<T: Validate>(items: Seq<T>, path: Seq<char>, n: nat)
    requires
        n <= items.len(),
    ensures
        list_violations(items, path, n).len() == 0 <==> all_in_order(items.take(n as int)),
    decreases n,
{
    if n > 0 {
        lemma_list_in_order(items, path, (n - 1) as nat);
        items[n - 1].lemma_in_order(item_path(path, (n - 1) as nat));
        let now = items.take(n as int);
        let before = items.take(n - 1);
        if all_in_order(now) {
            assert forall|i: int| 0 <= i < before.len() implies (#[trigger] before[i]).in_order() by {
                assert(before[i] == now[i]);
            }
            assert(now[n - 1].in_order());
        }
        if all_in_order(before) && items[n - 1].in_order() {
            assert forall|i: int| 0 <= i < now.len() implies (#[trigger] now[i]).in_order() by {
                if i < n - 1 {
                    assert(now[i] == before[i]);
                }
            }
        }
        if !items[n - 1].in_order() {
            assert(now[n - 1] == items[n - 1]);
        }
    }
}

/// Holds each value of a list against the rules, in order.
pub fn check_list<T: Validate>(items: &Vec<T>, path: &str, errors: &mut Vec<FieldError>)
    ensures
        all_said(final(errors)@) == all_said(old(errors)@) + list_violations(
            items@,
            path@,
            items@.len() as nat,
        ),
{
    let mut i: usize = 0;
    assert(all_said(errors@) =~= all_said(old(errors)@) + list_violations(items@, path@, 0));
    while i < items.len()
        invariant
            i <= items@.len(),
            all_said(errors@) == all_said(old(errors)@) + list_violations(
                items@,
                path@,
                i as nat,
            ),
        decreases items@.len() - i,
    {
        let ghost before = all_said(errors@);
        let at = index_path(path, i);
        items[i].check(at.as_str(), errors);
        assert(all_said(errors@) =~= all_said(old(errors)@) + list_violations(
            items@,
            path@,
            (i + 1) as nat,
        ));
        i += 1;
    }
}

// ---------------------------------------------------------------------------
// The rules of each part of a document
// ---------------------------------------------------------------------------

impl Validate for crate::schema::shared::Url {
    /// The address is empty or an address of the web.
    open spec fn violations(&self, path: Seq<char>) -> Seq<Violation> {
        violation_if(!url_in_order(self.href@), field_path(path, "href"@), Rule::Url)
    }

    open spec fn in_order(&self) -> bool {
        url_in_order(self.href@)
    }

    proof fn lemma_in_order(&self, path: Seq<char>) {
    }

    fn check(&self, path: &str, errors: &mut Vec<FieldError>) {
        if validate_optional_url(self.href.as_str()).is_err() {
            report(errors, join_path(path, "href"), Rule::Url);
        } else {
            assert(all_said(errors@) =~= all_said(old(errors)@) + Seq::<Violation>::empty());
        }
    }
}

/// The violations of a number of columns: it is from 1 to 5.
pub open spec fn columns_violations(columns: u8, path: Seq<char>) -> Seq<Violation> {
    violation_if(!(1 <= columns <= 5), field_path(path, "columns"@), Rule::Range)
}

/// The violations of a level: it is from 0 to 5.
pub open spec fn level_violations(level: u8, path: Seq<char>) -> Seq<Violation> {
    violation_if(level > 5, field_path(path, "level"@), Rule::Range)
}

/// Records an error where the number of columns is not from 1 to 5.
pub fn check_columns(columns: u8, path: &str, errors: &mut Vec<FieldError>)
    ensures
        all_said(final(errors)@) == all_said(old(errors)@) + columns_violations(columns, path@),
{
    if columns < 1 || columns > 5 {
        report(errors, join_path(path, "columns"), Rule::Range);
    } else {
        assert(all_said(errors@) =~= all_said(old(errors)@) + Seq::<Violation>::empty());
    }
}

/// Records an error where the level is above 5.
pub fn check_level(level: u8, path: &str, errors: &mut Vec<FieldError>)
    ensures
        all_said(final(errors)@) == all_said(old(errors)@) + level_violations(level, path@),
{
    if level > 5 {
        report(errors, join_path(path, "level"), Rule::Range);
    } else {
        assert(all_said(errors@) =~= all_said(old(errors)@) + Seq::<Violation>::empty());
    }
}

/// The violations of a colour of the theme.
pub open spec fn color_violations(color: Seq<char>, path: Seq<char>) -> Seq<Violation> {
    violation_if(!color_in_order(color), path, Rule::HexColor)
}

/// Records an error where the colour is not in order.
pub fn check_color(color: &str, path: String, errors: &mut Vec<FieldError>)
    ensures
        all_said(final(errors)@) == all_said(old(errors)@) + color_violations(color@, path@),
{
    if validate_hex_color(color).is_err() {
        report(errors, path, Rule::HexColor);
    } else {
        assert(all_said(errors@) =~= all_said(old(errors)@) + Seq::<Violation>::empty());
    }
}

} // verus!
