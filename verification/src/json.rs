//! JSON values: read from bytes by `serde_json`, then taken apart here.

use vstd::prelude::*;
use crate::numeral::{all_digits, numeral_value, parse_decimal_text};
use crate::parser::traits::ParseError;
use crate::schema::decimal::Decimal;
use crate::schema::metadata::layout_names;
use crate::text::{opt_text, push_str, same_text, string_of, texts};

verus! {

/// A JSON value. A number is held as the text that writes it; the members
/// of an object are held in the order in which the reader hands them out.
#[derive(Debug)]
pub enum Json {
    Null,
    Bool(bool),
    Number(String),
    Text(String),
    Array(Vec<Json>),
    Object(Vec<(String, Json)>),
}

#[verifier::external_type_specification]
#[verifier::external_body]
pub struct ExValue(serde_json::Value);

#[verifier::external_type_specification]
#[verifier::external_body]
pub struct ExJsonError(serde_json::Error);

/// What `serde_json` reads from the bytes: the value, or nothing where the
/// bytes are not one JSON text.
pub uninterp spec fn json_reading(bytes: Seq<u8>) -> Option<Json>;

/// What a `serde_json::Value` holds.
pub uninterp spec fn value_content(v: serde_json::Value) -> Json;

/// Calls `serde_json::from_slice` for a `Value`. It succeeds exactly on the
/// bytes that are one JSON text, and the value depends on the bytes alone.
#[verifier::external_body]
fn read_value(bytes: &[u8]) -> (r: Result<serde_json::Value, serde_json::Error>)
    ensures
        match r {
            Ok(v) => json_reading(bytes@) == Some(value_content(v)),
            Err(_) => json_reading(bytes@) is None,
        },
{
    serde_json::from_slice(bytes)
}

/// Copies a `serde_json::Value` out, variant by variant: a number as the
/// text that `Number` displays, an object's members as its map hands them
/// out.
#[verifier::external_body]
fn content_of(v: &serde_json::Value) -> (r: Json)
    ensures
        r == value_content(*v),
{
    match v {
        serde_json::Value::Null => Json::Null,
        serde_json::Value::Bool(b) => Json::Bool(*b),
        serde_json::Value::Number(n) => Json::Number(n.to_string()),
        serde_json::Value::String(s) => Json::Text(s.clone()),
        serde_json::Value::Array(a) => Json::Array(a.iter().map(content_of).collect()),
        serde_json::Value::Object(m) => Json::Object(
            m.iter().map(|(k, x)| (k.clone(), content_of(x))).collect(),
        ),
    }
}

/// Calls `to_string` on a `serde_json::Error`: the reader's own words, of
/// which nothing is claimed.
#[verifier::external_body]
pub(crate) fn error_text(e: &serde_json::Error) -> (r: String) {
    e.to_string()
}

/// Reads one JSON text.
pub fn read_json(bytes: &[u8]) -> (r: Result<Json, ParseError>)
    ensures
        match r {
            Ok(j) => json_reading(bytes@) == Some(j),
            Err(e) => json_reading(bytes@) is None && e is ReadError,
        },
{
    match read_value(bytes) {
        Ok(v) => Ok(content_of(&v)),
        Err(e) => Err(ParseError::ReadError(error_text(&e))),
    }
}

// ---------------------------------------------------------------------------
// Members of an object
// ---------------------------------------------------------------------------

/// The value of the first member with the key.
pub open spec fn find_member(m: Seq<(String, Json)>, key: Seq<char>) -> Option<Json>
    decreases m.len(),
{
    if m.len() == 0 {
        None
    } else if m[0].0@ == key {
        Some(m[0].1)
    } else {
        find_member(m.drop_first(), key)
    }
}

/// The member of an object under a key. Other values have no members.
pub open spec fn member(j: Json, key: Seq<char>) -> Option<Json> {
    match j {
        Json::Object(m) => find_member(m@, key),
        _ => None,
    }
}

/// The member under a key, where it is there and is not `null`.
pub open spec fn given(j: Json, key: Seq<char>) -> Option<Json> {
    match member(j, key) {
        Some(Json::Null) => None,
        other => other,
    }
}

/// The member of an object under a key.
pub fn get_member<'a>(j: &'a Json, key: &str) -> (r: Option<&'a Json>)
    ensures
        match r {
            Some(x) => member(*j, key@) == Some(*x),
            None => member(*j, key@) is None,
        },
{
    match j {
        Json::Object(m) => {
            let mut i: usize = 0;
            assert(m@.skip(0) =~= m@);
            while i < m.len()
                invariant
                    i <= m@.len(),
                    member(*j, key@) == find_member(m@, key@),
                    find_member(m@, key@) == find_member(m@.skip(i as int), key@),
                decreases m@.len() - i,
            {
                proof {
                    let rest = m@.skip(i as int);
                    assert(rest.len() > 0);
                    assert(rest.drop_first() =~= m@.skip(i + 1));
                    assert(rest[0] == m@[i as int]);
                    assert(find_member(rest, key@) == if rest[0].0@ == key@ {
                        Some(rest[0].1)
                    } else {
                        find_member(rest.drop_first(), key@)
                    });
                }
                if same_text(m[i].0.as_str(), key) {
                    return Some(&m[i].1);
                }
                i += 1;
            }
            None
        },
        _ => None,
    }
}

/// The member under a key, where it is there and is not `null`.
pub fn get_given<'a>(j: &'a Json, key: &str) -> (r: Option<&'a Json>)
    ensures
        match r {
            Some(x) => given(*j, key@) == Some(*x),
            None => given(*j, key@) is None,
        },
{
    match get_member(j, key) {
        Some(Json::Null) => None,
        other => other,
    }
}

/// The error for a member that is not of the kind that its key asks for:
/// the key between backquotes, then what it must be.
pub fn wrong_kind(key: &str, wanted: &str) -> (r: ParseError)
    ensures
        r is ValidationError,
        r.detail() == "`"@ + key@ + "` must be "@ + wanted@,
{
    let mut out: Vec<char> = Vec::new();
    push_str(&mut out, "`");
    push_str(&mut out, key);
    push_str(&mut out, "` must be ");
    push_str(&mut out, wanted);
    ParseError::ValidationError(string_of(&out))
}

// ---------------------------------------------------------------------------
// Optional members of each kind
// ---------------------------------------------------------------------------

/// Whether the member is a text, or is not given.
pub open spec fn text_ok(j: Json, key: Seq<char>) -> bool {
    match given(j, key) {
        None => true,
        Some(Json::Text(_)) => true,
        _ => false,
    }
}

/// The text under a key, where a text is given there.
pub open spec fn text_at(j: Json, key: Seq<char>) -> Option<Seq<char>> {
    match given(j, key) {
        Some(Json::Text(s)) => Some(s@),
        _ => None,
    }
}

/// Reads the text under a key. A member that is not given reads as
/// nothing; one that is given and is no text is refused.
pub fn read_text(j: &Json, key: &str) -> (r: Result<Option<String>, ParseError>)
    ensures
        r is Ok <==> text_ok(*j, key@),
        r matches Ok(o) ==> opt_text(o) == text_at(*j, key@),
        r matches Err(e) ==> e is ValidationError,
{
    match get_given(j, key) {
        None => Ok(None),
        Some(Json::Text(s)) => Ok(Some(s.clone())),
        Some(_) => Err(wrong_kind(key, "a string")),
    }
}

/// Whether the member is `true` or `false`, or is not given.
pub open spec fn bool_ok(j: Json, key: Seq<char>) -> bool {
    match given(j, key) {
        None => true,
        Some(Json::Bool(_)) => true,
        _ => false,
    }
}

/// The truth value under a key, where one is given there.
pub open spec fn bool_at(j: Json, key: Seq<char>) -> Option<bool> {
    match given(j, key) {
        Some(Json::Bool(b)) => Some(b),
        _ => None,
    }
}

/// Reads the truth value under a key. A member that is not given reads as
/// nothing; one that is given and is neither `true` nor `false` is refused.
pub fn read_bool(j: &Json, key: &str) -> (r: Result<Option<bool>, ParseError>)
    ensures
        r is Ok <==> bool_ok(*j, key@),
        r matches Ok(o) ==> o == bool_at(*j, key@),
        r matches Err(e) ==> e is ValidationError,
{
    match get_given(j, key) {
        None => Ok(None),
        Some(Json::Bool(b)) => Ok(Some(*b)),
        Some(_) => Err(wrong_kind(key, "true or false")),
    }
}

/// Whether a text writes a whole number from 0 to `limit`.
pub open spec fn is_count(s: Seq<char>, limit: nat) -> bool {
    s.len() > 0 && all_digits(s) && numeral_value(s) <= limit
}

/// Whether the member is a whole number from 0 to `limit`, or is not given.
pub open spec fn count_ok(j: Json, key: Seq<char>, limit: nat) -> bool {
    match given(j, key) {
        None => true,
        Some(Json::Number(s)) => is_count(s@, limit),
        _ => false,
    }
}

/// The whole number under a key, where a number is given there.
pub open spec fn count_at(j: Json, key: Seq<char>) -> Option<nat> {
    match given(j, key) {
        Some(Json::Number(s)) => Some(numeral_value(s@)),
        _ => None,
    }
}

/// Reads the whole number under a key, which may go up to `limit`. A
/// member that is not given reads as nothing; one that is given and is no
/// such number is refused.
pub fn read_count(j: &Json, key: &str, limit: u64) -> (r: Result<Option<u64>, ParseError>)
    ensures
        r is Ok <==> count_ok(*j, key@, limit as nat),
        r matches Ok(o) ==> (o is Some <==> count_at(*j, key@) is Some),
        r matches Ok(Some(n)) ==> count_at(*j, key@) == Some(n as nat) && n <= limit,
        r matches Err(e) ==> e is ValidationError,
{
    match get_given(j, key) {
        None => Ok(None),
        Some(Json::Number(s)) => match parse_decimal_text(s.as_str(), limit) {
            Some(n) => Ok(Some(n)),
            None => Err(wrong_kind(key, "a whole number in range")),
        },
        Some(_) => Err(wrong_kind(key, "a number")),
    }
}

/// Whether the member is a number, or is not given.
pub open spec fn number_ok(j: Json, key: Seq<char>) -> bool {
    match given(j, key) {
        None => true,
        Some(Json::Number(_)) => true,
        _ => false,
    }
}

/// The text that writes the number under the key.
pub open spec fn number_at(j: Json, key: Seq<char>) -> Option<Seq<char>> {
    match given(j, key) {
        Some(Json::Number(s)) => Some(s@),
        _ => None,
    }
}

/// The text that writes a number which may be absent.
pub open spec fn opt_decimal(o: Option<Decimal>) -> Option<Seq<char>> {
    match o {
        Some(d) => Some(d.text@),
        None => None,
    }
}

/// Reads the number under a key, kept as it is written. A member that is
/// not given reads as nothing; one that is given and is no number is
/// refused.
pub fn read_number(j: &Json, key: &str) -> (r: Result<Option<Decimal>, ParseError>)
    ensures
        r is Ok <==> number_ok(*j, key@),
        r matches Ok(o) ==> opt_decimal(o) == number_at(*j, key@),
        r matches Err(e) ==> e is ValidationError,
{
    match get_given(j, key) {
        None => Ok(None),
        Some(Json::Number(s)) => Ok(Some(Decimal { text: s.clone() })),
        Some(_) => Err(wrong_kind(key, "a number")),
    }
}

/// A small count that may be absent, as a number.
pub open spec fn small_count(o: Option<u8>) -> Option<nat> {
    match o {
        Some(n) => Some(n as nat),
        None => None,
    }
}

/// A count that may be absent, as a number.
pub open spec fn size_count(o: Option<u32>) -> Option<nat> {
    match o {
        Some(n) => Some(n as nat),
        None => None,
    }
}

/// Reads a whole number from 0 to 255.
pub fn read_small(j: &Json, key: &str) -> (r: Result<Option<u8>, ParseError>)
    ensures
        r is Ok <==> count_ok(*j, key@, 255),
        r matches Ok(o) ==> small_count(o) == count_at(*j, key@),
        r matches Err(e) ==> e is ValidationError,
{
    match read_count(j, key, 255) {
        Ok(Some(n)) => Ok(Some(n as u8)),
        Ok(None) => Ok(None),
        Err(e) => Err(e),
    }
}

/// Reads a whole number from 0 to 4294967295.
pub fn read_size(j: &Json, key: &str) -> (r: Result<Option<u32>, ParseError>)
    ensures
        r is Ok <==> count_ok(*j, key@, 4294967295),
        r matches Ok(o) ==> size_count(o) == count_at(*j, key@),
        r matches Err(e) ==> e is ValidationError,
{
    match read_count(j, key, 4294967295) {
        Ok(Some(n)) => Ok(Some(n as u32)),
        Ok(None) => Ok(None),
        Err(e) => Err(e),
    }
}

/// Whether every value of the sequence is a text.
pub open spec fn all_text(a: Seq<Json>) -> bool {
    forall|i: int| 0 <= i < a.len() ==> #[trigger] a[i] is Text
}

/// The text that a value is, or the empty text for any other value.
pub open spec fn text_of(j: Json) -> Seq<char> {
    match j {
        Json::Text(s) => s@,
        _ => Seq::empty(),
    }
}

/// The texts of a sequence of values.
pub open spec fn text_items(a: Seq<Json>) -> Seq<Seq<char>> {
    Seq::new(a.len(), |i: int| text_of(a[i]))
}

/// Whether the value is an array of texts.
pub open spec fn is_text_list(j: Json) -> bool {
    match j {
        Json::Array(a) => all_text(a@),
        _ => false,
    }
}

/// The texts of an array, or none for any other value.
pub open spec fn text_list_of(j: Json) -> Seq<Seq<char>> {
    match j {
        Json::Array(a) => text_items(a@),
        _ => Seq::empty(),
    }
}

/// The texts of an array of texts.
pub fn text_list(j: &Json, key: &str) -> (r: Result<Vec<String>, ParseError>)
    ensures
        r is Ok <==> is_text_list(*j),
        r matches Ok(v) ==> texts(v@) == text_list_of(*j),
        r matches Err(e) ==> e is ValidationError,
{
    match j {
        Json::Array(a) => {
            let mut out: Vec<String> = Vec::new();
            let mut i: usize = 0;
            while i < a.len()
                invariant
                    i <= a@.len(),
                    out@.len() == i,
                    is_text_list(*j) == all_text(a@),
                    text_list_of(*j) == text_items(a@),
                    forall|k: int| 0 <= k < i ==> #[trigger] a@[k] is Text,
                    forall|k: int| 0 <= k < i ==> out@[k]@ == text_of(a@[k]),
                decreases a@.len() - i,
            {
                match &a[i] {
                    Json::Text(s) => {
                        out.push(s.clone());
                    },
                    _ => {
                        assert(!(a@[i as int] is Text));
                        return Err(wrong_kind(key, "a list of strings"));
                    },
                }
                i += 1;
            }
            assert(texts(out@) =~= text_items(a@));
            Ok(out)
        },
        _ => Err(wrong_kind(key, "a list of strings")),
    }
}

/// Whether the member is an array of texts, or is not given.
pub open spec fn texts_ok(j: Json, key: Seq<char>) -> bool {
    match given(j, key) {
        None => true,
        Some(x) => is_text_list(x),
    }
}

/// The texts under a key, where anything is given there.
pub open spec fn texts_at(j: Json, key: Seq<char>) -> Option<Seq<Seq<char>>> {
    match given(j, key) {
        None => None,
        Some(x) => Some(text_list_of(x)),
    }
}

/// The texts of a list of strings that may be absent.
pub open spec fn opt_texts(o: Option<Vec<String>>) -> Option<Seq<Seq<char>>> {
    match o {
        Some(v) => Some(texts(v@)),
        None => None,
    }
}

/// Reads the list of texts under a key. A member that is not given reads
/// as nothing; one that is given and is no array of texts is refused.
pub fn read_texts(j: &Json, key: &str) -> (r: Result<Option<Vec<String>>, ParseError>)
    ensures
        r is Ok <==> texts_ok(*j, key@),
        r matches Ok(o) ==> opt_texts(o) == texts_at(*j, key@),
        r matches Err(e) ==> e is ValidationError,
{
    match get_given(j, key) {
        None => Ok(None),
        Some(x) => match text_list(x, key) {
            Ok(v) => Ok(Some(v)),
            Err(e) => Err(e),
        },
    }
}

/// Whether the member is an array of texts, or is not there at all.
pub open spec fn texts_or_none_ok(j: Json, key: Seq<char>) -> bool {
    match member(j, key) {
        None => true,
        Some(x) => is_text_list(x),
    }
}

/// The texts under the key, or none where the member is not there.
pub open spec fn texts_or_none_at(j: Json, key: Seq<char>) -> Seq<Seq<char>> {
    match member(j, key) {
        None => Seq::empty(),
        Some(x) => text_list_of(x),
    }
}

/// Reads the list of texts under a key, which is empty where the member is
/// not there. A member of another kind, `null` too, is refused.
pub fn read_texts_or_none(j: &Json, key: &str) -> (r: Result<Vec<String>, ParseError>)
    ensures
        r is Ok <==> texts_or_none_ok(*j, key@),
        r matches Ok(v) ==> texts(v@) == texts_or_none_at(*j, key@),
        r matches Err(e) ==> e is ValidationError,
{
    match get_member(j, key) {
        None => {
            let v: Vec<String> = Vec::new();
            assert(texts(v@) =~= Seq::<Seq<char>>::empty());
            Ok(v)
        },
        Some(x) => text_list(x, key),
    }
}

/// Whether the value is an object.
pub fn is_object(j: &Json) -> (r: bool)
    ensures
        r == (*j is Object),
{
    match j {
        Json::Object(_) => true,
        _ => false,
    }
}

// ---------------------------------------------------------------------------
// Layouts: pages of columns of names
// ---------------------------------------------------------------------------

/// Whether every value of the sequence is an array of texts.
pub open spec fn all_text_lists(a: Seq<Json>) -> bool {
    forall|i: int| 0 <= i < a.len() ==> is_text_list(#[trigger] a[i])
}

/// Whether the value is an array of arrays of texts.
pub open spec fn is_page(j: Json) -> bool {
    match j {
        Json::Array(a) => all_text_lists(a@),
        _ => false,
    }
}

/// The columns of a page, each with its names.
pub open spec fn page_of(j: Json) -> Seq<Seq<Seq<char>>> {
    match j {
        Json::Array(a) => Seq::new(a@.len(), |i: int| text_list_of(a@[i])),
        _ => Seq::empty(),
    }
}

/// Whether every value of the sequence is a page.
pub open spec fn all_pages(a: Seq<Json>) -> bool {
    forall|i: int| 0 <= i < a.len() ==> is_page(#[trigger] a[i])
}

/// Whether the value is an array of pages.
pub open spec fn is_layout(j: Json) -> bool {
    match j {
        Json::Array(a) => all_pages(a@),
        _ => false,
    }
}

/// The pages of a layout, each with its columns.
pub open spec fn layout_of(j: Json) -> Seq<Seq<Seq<Seq<char>>>> {
    match j {
        Json::Array(a) => Seq::new(a@.len(), |i: int| page_of(a@[i])),
        _ => Seq::empty(),
    }
}

/// The names that the columns of a page hold.
pub open spec fn page_names(page: Seq<Vec<String>>) -> Seq<Seq<Seq<char>>> {
    Seq::new(page.len(), |c: int| texts(page[c]@))
}

fn read_page(j: &Json, key: &str) -> (r: Result<Vec<Vec<String>>, ParseError>)
    ensures
        r is Ok <==> is_page(*j),
        r matches Ok(v) ==> page_names(v@) == page_of(*j),
        r matches Err(e) ==> e is ValidationError,
{
    match j {
        Json::Array(a) => {
            let mut out: Vec<Vec<String>> = Vec::new();
            let mut i: usize = 0;
            while i < a.len()
                invariant
                    i <= a@.len(),
                    out@.len() == i,
                    *j == Json::Array(*a),
                    forall|k: int| 0 <= k < i ==> is_text_list(#[trigger] a@[k]),
                    forall|k: int| 0 <= k < i ==> texts(out@[k]@) == text_list_of(a@[k]),
                decreases a@.len() - i,
            {
                match text_list(&a[i], key) {
                    Ok(v) => {
                        out.push(v);
                    },
                    Err(e) => {
                        assert(!is_text_list(a@[i as int]));
                        return Err(e);
                    },
                }
                i += 1;
            }
            assert(page_names(out@) =~= page_of(*j));
            Ok(out)
        },
        _ => Err(wrong_kind(key, "a list of lists of strings")),
    }
}

fn read_layout_value(j: &Json, key: &str) -> (r: Result<Vec<Vec<Vec<String>>>, ParseError>)
    ensures
        r is Ok <==> is_layout(*j),
        r matches Ok(v) ==> layout_names(v@) == layout_of(*j),
        r matches Err(e) ==> e is ValidationError,
{
    match j {
        Json::Array(a) => {
            let mut out: Vec<Vec<Vec<String>>> = Vec::new();
            let mut i: usize = 0;
            while i < a.len()
                invariant
                    i <= a@.len(),
                    out@.len() == i,
                    *j == Json::Array(*a),
                    forall|k: int| 0 <= k < i ==> is_page(#[trigger] a@[k]),
                    forall|k: int| 0 <= k < i ==> page_names(out@[k]@) == page_of(a@[k]),
                decreases a@.len() - i,
            {
                match read_page(&a[i], key) {
                    Ok(v) => {
                        out.push(v);
                    },
                    Err(e) => {
                        assert(!is_page(a@[i as int]));
                        return Err(e);
                    },
                }
                i += 1;
            }
            proof {
                assert forall|k: int| 0 <= k < out@.len() implies layout_names(out@)[k]
                    == layout_of(*j)[k] by {
                    assert(layout_names(out@)[k] =~= page_names(out@[k]@));
                }
                assert(layout_names(out@) =~= layout_of(*j));
            }
            Ok(out)
        },
        _ => Err(wrong_kind(key, "a list of pages")),
    }
}

/// Whether the member is a layout, or is not given.
pub open spec fn layout_ok(j: Json, key: Seq<char>) -> bool {
    match given(j, key) {
        None => true,
        Some(x) => is_layout(x),
    }
}

/// The layout under a key, where anything is given there.
pub open spec fn layout_at(j: Json, key: Seq<char>) -> Option<Seq<Seq<Seq<Seq<char>>>>> {
    match given(j, key) {
        None => None,
        Some(x) => Some(layout_of(x)),
    }
}

/// The names of a layout that may be absent.
pub open spec fn opt_layout_names(o: Option<Vec<Vec<Vec<String>>>>) -> Option<
    Seq<Seq<Seq<Seq<char>>>>,
> {
    match o {
        Some(v) => Some(layout_names(v@)),
        None => None,
    }
}

/// Reads the layout under a key. A member that is not given reads as
/// nothing; one that is given and is no array of pages is refused.
pub fn read_layout(j: &Json, key: &str) -> (r: Result<Option<Vec<Vec<Vec<String>>>>, ParseError>)
    ensures
        r is Ok <==> layout_ok(*j, key@),
        r matches Ok(o) ==> opt_layout_names(o) == layout_at(*j, key@),
        r matches Err(e) ==> e is ValidationError,
{
    match get_given(j, key) {
        None => Ok(None),
        Some(x) => match read_layout_value(x, key) {
            Ok(v) => Ok(Some(v)),
            Err(e) => Err(e),
        },
    }
}

// ---------------------------------------------------------------------------
// Members that must be there, and members with a default
// ---------------------------------------------------------------------------

/// Whether the member is there and is a text.
pub open spec fn strict_text_ok(j: Json, key: Seq<char>) -> bool {
    member(j, key) matches Some(Json::Text(_))
}

/// The text under a key that must hold one.
pub open spec fn strict_text_at(j: Json, key: Seq<char>) -> Seq<char> {
    match member(j, key) {
        Some(Json::Text(s)) => s@,
        _ => Seq::empty(),
    }
}

/// Reads the text under a key that must hold one: a member that is not
/// there, or is no text, is refused.
pub fn read_required_text(j: &Json, key: &str) -> (r: Result<String, ParseError>)
    ensures
        r is Ok <==> strict_text_ok(*j, key@),
        r matches Ok(s) ==> s@ == strict_text_at(*j, key@),
        r matches Err(e) ==> e is ValidationError,
{
    match get_member(j, key) {
        Some(Json::Text(s)) => Ok(s.clone()),
        _ => Err(wrong_kind(key, "there, and a string")),
    }
}

/// Whether the member is a text, or is not there.
pub open spec fn text_or_ok(j: Json, key: Seq<char>) -> bool {
    match member(j, key) {
        None => true,
        Some(Json::Text(_)) => true,
        _ => false,
    }
}

/// The text under the key, or the default where the member is not there.
pub open spec fn text_or_at(j: Json, key: Seq<char>, default: Seq<char>) -> Seq<char> {
    match member(j, key) {
        Some(Json::Text(s)) => s@,
        _ => default,
    }
}

/// Reads the text under a key, or the default where the member is not
/// there. A member of another kind, `null` too, is refused.
pub fn read_text_or(j: &Json, key: &str, default: &str) -> (r: Result<String, ParseError>)
    ensures
        r is Ok <==> text_or_ok(*j, key@),
        r matches Ok(s) ==> s@ == text_or_at(*j, key@, default@),
        r matches Err(e) ==> e is ValidationError,
{
    match get_member(j, key) {
        None => Ok(crate::text::owned(default)),
        Some(Json::Text(s)) => Ok(s.clone()),
        Some(_) => Err(wrong_kind(key, "a string")),
    }
}

/// Whether the member is `true` or `false`, or is not there.
pub open spec fn bool_or_ok(j: Json, key: Seq<char>) -> bool {
    match member(j, key) {
        None => true,
        Some(Json::Bool(_)) => true,
        _ => false,
    }
}

/// The truth value under a key, or the default.
pub open spec fn bool_or_at(j: Json, key: Seq<char>, default: bool) -> bool {
    match member(j, key) {
        Some(Json::Bool(b)) => b,
        _ => default,
    }
}

/// Reads the truth value under a key, or the default where the member is
/// not there. A member of another kind, `null` too, is refused.
pub fn read_bool_or(j: &Json, key: &str, default: bool) -> (r: Result<bool, ParseError>)
    ensures
        r is Ok <==> bool_or_ok(*j, key@),
        r matches Ok(b) ==> b == bool_or_at(*j, key@, default),
        r matches Err(e) ==> e is ValidationError,
{
    match get_member(j, key) {
        None => Ok(default),
        Some(Json::Bool(b)) => Ok(*b),
        Some(_) => Err(wrong_kind(key, "true or false")),
    }
}

/// Whether the member is a whole number from 0 to `limit`, or is not
/// there.
pub open spec fn count_or_ok(j: Json, key: Seq<char>, limit: nat) -> bool {
    match member(j, key) {
        None => true,
        Some(Json::Number(s)) => is_count(s@, limit),
        _ => false,
    }
}

/// The whole number under a key, or the default.
pub open spec fn count_or_at(j: Json, key: Seq<char>, default: nat) -> nat {
    match member(j, key) {
        Some(Json::Number(s)) => numeral_value(s@),
        _ => default,
    }
}

/// Reads the whole number under a key, which may go up to `limit`, or the
/// default where the member is not there. A member of another kind, `null`
/// too, is refused.
pub fn read_count_or(j: &Json, key: &str, limit: u64, default: u64) -> (r: Result<u64, ParseError>)
    requires
        default <= limit,
    ensures
        r is Ok <==> count_or_ok(*j, key@, limit as nat),
        r matches Ok(n) ==> n as nat == count_or_at(*j, key@, default as nat) && n <= limit,
        r matches Err(e) ==> e is ValidationError,
{
    match get_member(j, key) {
        None => Ok(default),
        Some(Json::Number(s)) => match parse_decimal_text(s.as_str(), limit) {
            Some(n) => Ok(n),
            None => Err(wrong_kind(key, "a whole number in range")),
        },
        Some(_) => Err(wrong_kind(key, "a number")),
    }
}

/// Reads a whole number from 0 to 255, or the default.
pub fn read_small_or(j: &Json, key: &str, default: u8) -> (r: Result<u8, ParseError>)
    ensures
        r is Ok <==> count_or_ok(*j, key@, 255),
        r matches Ok(n) ==> n as nat == count_or_at(*j, key@, default as nat),
        r matches Err(e) ==> e is ValidationError,
{
    match read_count_or(j, key, 255, default as u64) {
        Ok(n) => Ok(n as u8),
        Err(e) => Err(e),
    }
}

/// Reads a whole number from 0 to 4294967295, or the default.
pub fn read_size_or(j: &Json, key: &str, default: u32) -> (r: Result<u32, ParseError>)
    ensures
        r is Ok <==> count_or_ok(*j, key@, 4294967295),
        r matches Ok(n) ==> n as nat == count_or_at(*j, key@, default as nat),
        r matches Err(e) ==> e is ValidationError,
{
    match read_count_or(j, key, 4294967295, default as u64) {
        Ok(n) => Ok(n as u32),
        Err(e) => Err(e),
    }
}

/// Whether the member is a number, or is not there.
pub open spec fn number_or_ok(j: Json, key: Seq<char>) -> bool {
    match member(j, key) {
        None => true,
        Some(Json::Number(_)) => true,
        _ => false,
    }
}

/// The number under a key as it is written, or the default.
pub open spec fn number_or_at(j: Json, key: Seq<char>, default: Seq<char>) -> Seq<char> {
    match member(j, key) {
        Some(Json::Number(s)) => s@,
        _ => default,
    }
}

/// Reads the number under a key, kept as it is written, or the default
/// where the member is not there. A member of another kind, `null` too, is
/// refused.
pub fn read_number_or(j: &Json, key: &str, default: &str) -> (r: Result<Decimal, ParseError>)
    ensures
        r is Ok <==> number_or_ok(*j, key@),
        r matches Ok(d) ==> d.text@ == number_or_at(*j, key@, default@),
        r matches Err(e) ==> e is ValidationError,
{
    match get_member(j, key) {
        None => Ok(Decimal { text: crate::text::owned(default) }),
        Some(Json::Number(s)) => Ok(Decimal { text: s.clone() }),
        Some(_) => Err(wrong_kind(key, "a number")),
    }
}

/// Whether the member is a layout, or is not there.
pub open spec fn layout_or_ok(j: Json, key: Seq<char>) -> bool {
    match member(j, key) {
        None => true,
        Some(x) => is_layout(x),
    }
}

/// The layout under a key, or the default.
pub open spec fn layout_or_at(
    j: Json,
    key: Seq<char>,
    default: Seq<Seq<Seq<Seq<char>>>>,
) -> Seq<Seq<Seq<Seq<char>>>> {
    match member(j, key) {
        None => default,
        Some(x) => layout_of(x),
    }
}

/// Reads the layout under a key, or the layout of a new document where the
/// member is not there. A member of another kind, `null` too, is refused.
pub fn read_layout_or_default(j: &Json, key: &str) -> (r: Result<Vec<Vec<Vec<String>>>, ParseError>)
    ensures
        r is Ok <==> layout_or_ok(*j, key@),
        r matches Ok(v) ==> layout_names(v@) == layout_or_at(
            *j,
            key@,
            crate::schema::metadata::default_layout_names(),
        ),
        r matches Err(e) ==> e is ValidationError,
{
    match get_member(j, key) {
        None => Ok(crate::schema::metadata::default_layout()),
        Some(x) => read_layout_value(x, key),
    }
}

/// The texts under the key, or the default where the member is not there.
pub open spec fn texts_or_at(j: Json, key: Seq<char>, default: Seq<Seq<char>>) -> Seq<Seq<char>> {
    match member(j, key) {
        None => default,
        Some(x) => text_list_of(x),
    }
}

} // verus!
