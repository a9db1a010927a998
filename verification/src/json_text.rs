//! Writing JSON: the framing is written here, strings are quoted by
//! `serde_json`.

use vstd::prelude::*;
use crate::numeral::{decimal, is_number_literal, push_decimal};
use crate::schema::decimal::Decimal;
use crate::text::push_str;

verus! {

/// A text as `serde_json` writes it: between double quotes, with what
/// needs it escaped. Nothing for a text that it does not write.
pub uninterp spec fn json_quoted(s: Seq<char>) -> Option<Seq<char>>;

/// Calls `serde_json::to_string` on a string slice. Whether it writes the
/// text, and what it writes, depends on the characters alone.
#[verifier::external_body]
fn quote(s: &str) -> (r: Result<String, serde_json::Error>)
    ensures
        match r {
            Ok(t) => json_quoted(s@) == Some(t@),
            Err(_) => json_quoted(s@) is None,
        },
{
    serde_json::to_string(s)
}

/// Whether `serde_json` writes the text.
pub open spec fn quotable(s: Seq<char>) -> bool {
    json_quoted(s) is Some
}

/// A text as `serde_json` writes it, where it writes it.
pub open spec fn json_string(s: Seq<char>) -> Seq<char> {
    match json_quoted(s) {
        Some(t) => t,
        None => Seq::empty(),
    }
}

/// JSON as it is being written: the text so far, and the error that
/// stopped the writing, if one did. After an error nothing is claimed of
/// the text.
pub struct JsonWriter {
    pub out: Vec<char>,
    pub error: Option<serde_json::Error>,
}

impl JsonWriter {
    /// A writer that has written nothing.
    pub fn new() -> (w: JsonWriter)
        ensures
            w.out@.len() == 0,
            w.error is None,
    {
        JsonWriter { out: Vec::new(), error: None }
    }

    /// Whether `self` is the writer `before` after `text` was written to
    /// it: with the text at its end where no error has occurred, and in
    /// error where it was in error before.
    pub open spec fn wrote(self, before: JsonWriter, text: Seq<char>) -> bool {
        &&& before.error is Some ==> self.error is Some
        &&& self.error is None ==> before.error is None && self.out@ == before.out@ + text
    }

    /// Writes text as it is.
    pub fn raw(&mut self, text: &str)
        ensures
            final(self).wrote(*old(self), text@),
            final(self).error == old(self).error,
    {
        push_str(&mut self.out, text);
    }

    /// Writes a string, quoted. A string that cannot be quoted stops the
    /// writing.
    pub fn string(&mut self, s: &str)
        ensures
            final(self).wrote(*old(self), json_string(s@)),
            final(self).error is None <==> old(self).error is None && quotable(s@),
    {
        if self.error.is_none() {
            match quote(s) {
                Ok(t) => {
                    push_str(&mut self.out, t.as_str());
                },
                Err(e) => {
                    self.error = Some(e);
                },
            }
        }
    }

    /// Writes `true` or `false`.
    pub fn boolean(&mut self, b: bool)
        ensures
            final(self).wrote(*old(self), bool_json(b)),
            final(self).error == old(self).error,
    {
        if b {
            push_str(&mut self.out, "true");
        } else {
            push_str(&mut self.out, "false");
        }
    }

    /// Writes a whole number.
    pub fn number(&mut self, n: u64)
        ensures
            final(self).wrote(*old(self), decimal(n as nat)),
            final(self).error == old(self).error,
    {
        push_decimal(&mut self.out, n);
    }

    /// Writes a number that is kept as text, or `null` where the text
    /// writes no number.
    pub fn decimal(&mut self, d: &Decimal)
        ensures
            final(self).wrote(*old(self), decimal_json(*d)),
            final(self).error == old(self).error,
    {
        if d.is_valid() {
            push_str(&mut self.out, d.text.as_str());
        } else {
            push_str(&mut self.out, "null");
        }
    }
}

/// Writing one text and then another is writing the two in a row.
pub proof fn lemma_wrote_then(
    start: JsonWriter,
    mid: JsonWriter,
    end: JsonWriter,
    first: Seq<char>,
    second: Seq<char>,
)
    requires
        mid.wrote(start, first),
        end.wrote(mid, second),
    ensures
        end.wrote(start, first + second),
{
    if end.error is None {
        assert(end.out@ =~= start.out@ + (first + second));
    }
}

/// What was written so far, with more after it.
pub open spec fn after(text: Option<Seq<char>>, more: Seq<char>) -> Seq<char> {
    match text {
        None => more,
        Some(t) => t + more,
    }
}

impl JsonWriter {
    /// Whether the writer has written `text` since it was `start`; that
    /// nothing was written yet is said by no text.
    pub open spec fn at(self, start: JsonWriter, text: Option<Seq<char>>) -> bool {
        match text {
            None => self == start,
            Some(t) => self.wrote(start, t),
        }
    }

    /// Writes a key and the string that is its value.
    pub(crate) fn string_field(
        &mut self,
        start: Ghost<JsonWriter>,
        text: Ghost<Option<Seq<char>>>,
        key: &str,
        s: &str,
    ) -> (r: Ghost<Option<Seq<char>>>)
        requires
            old(self).at(start@, text@),
        ensures
            r@ == Some(after(text@, key@) + json_string(s@)),
            final(self).at(start@, r@),
            final(self).error is None <==> old(self).error is None && quotable(s@),
    {
        let ghost first = *self;
        self.raw(key);
        let ghost mid = *self;
        self.string(s);
        proof {
            lemma_field(start@, first, mid, *self, text@, key@, json_string(s@));
        }
        Ghost(Some(after(text@, key@) + json_string(s@)))
    }

    /// Writes a key and the flag that is its value.
    pub(crate) fn bool_field(
        &mut self,
        start: Ghost<JsonWriter>,
        text: Ghost<Option<Seq<char>>>,
        key: &str,
        b: bool,
    ) -> (r: Ghost<Option<Seq<char>>>)
        requires
            old(self).at(start@, text@),
        ensures
            r@ == Some(after(text@, key@) + bool_json(b)),
            final(self).at(start@, r@),
            final(self).error == old(self).error,
    {
        let ghost first = *self;
        self.raw(key);
        let ghost mid = *self;
        self.boolean(b);
        proof {
            lemma_field(start@, first, mid, *self, text@, key@, bool_json(b));
        }
        Ghost(Some(after(text@, key@) + bool_json(b)))
    }

    /// Writes a key and the whole number that is its value.
    pub(crate) fn number_field(
        &mut self,
        start: Ghost<JsonWriter>,
        text: Ghost<Option<Seq<char>>>,
        key: &str,
        n: u64,
    ) -> (r: Ghost<Option<Seq<char>>>)
        requires
            old(self).at(start@, text@),
        ensures
            r@ == Some(after(text@, key@) + decimal(n as nat)),
            final(self).at(start@, r@),
            final(self).error == old(self).error,
    {
        let ghost first = *self;
        self.raw(key);
        let ghost mid = *self;
        self.number(n);
        proof {
            lemma_field(start@, first, mid, *self, text@, key@, decimal(n as nat));
        }
        Ghost(Some(after(text@, key@) + decimal(n as nat)))
    }

    /// Writes a key and the number, kept as text, that is its value.
    pub(crate) fn decimal_field(
        &mut self,
        start: Ghost<JsonWriter>,
        text: Ghost<Option<Seq<char>>>,
        key: &str,
        d: &Decimal,
    ) -> (r: Ghost<Option<Seq<char>>>)
        requires
            old(self).at(start@, text@),
        ensures
            r@ == Some(after(text@, key@) + decimal_json(*d)),
            final(self).at(start@, r@),
            final(self).error == old(self).error,
    {
        let ghost first = *self;
        self.raw(key);
        let ghost mid = *self;
        self.decimal(d);
        proof {
            lemma_field(start@, first, mid, *self, text@, key@, decimal_json(*d));
        }
        Ghost(Some(after(text@, key@) + decimal_json(*d)))
    }

    /// Writes a key and its value.
    pub(crate) fn value_field<T: ToJson>(
        &mut self,
        start: Ghost<JsonWriter>,
        text: Ghost<Option<Seq<char>>>,
        key: &str,
        value: &T,
    ) -> (r: Ghost<Option<Seq<char>>>)
        requires
            old(self).at(start@, text@),
        ensures
            r@ == Some(after(text@, key@) + value.json()),
            final(self).at(start@, r@),
            final(self).error is None <==> old(self).error is None && value.writable(),
    {
        let ghost first = *self;
        self.raw(key);
        let ghost mid = *self;
        value.write(self);
        proof {
            lemma_field(start@, first, mid, *self, text@, key@, value.json());
        }
        Ghost(Some(after(text@, key@) + value.json()))
    }

    /// Writes what closes an object.
    pub(crate) fn close(&mut self, start: Ghost<JsonWriter>, text: Ghost<Option<Seq<char>>>, end: &str)
        requires
            old(self).at(start@, text@),
        ensures
            final(self).wrote(start@, after(text@, end@)),
            final(self).error == old(self).error,
    {
        let ghost first = *self;
        self.raw(end);
        proof {
            match text@ {
                None => {},
                Some(t) => {
                    lemma_wrote_then(start@, first, *self, t, end@);
                },
            }
        }
    }
}

/// A key and a value, written after what was written so far.
pub proof fn lemma_field(
    start: JsonWriter,
    first: JsonWriter,
    mid: JsonWriter,
    end: JsonWriter,
    text: Option<Seq<char>>,
    key: Seq<char>,
    value: Seq<char>,
)
    requires
        first.at(start, text),
        mid.wrote(first, key),
        end.wrote(mid, value),
    ensures
        end.wrote(start, after(text, key) + value),
{
    match text {
        None => {
            lemma_wrote_then(start, mid, end, key, value);
        },
        Some(t) => {
            lemma_wrote_then(start, first, mid, t, key);
            lemma_wrote_then(start, mid, end, t + key, value);
        },
    }
}

/// A truth value as JSON.
pub open spec fn bool_json(b: bool) -> Seq<char> {
    if b {
        "true"@
    } else {
        "false"@
    }
}

/// A number as JSON: its own text where that is a number of JSON, else
/// `null`.
pub open spec fn decimal_json(d: Decimal) -> Seq<char> {
    if is_number_literal(d.text@) {
        d.text@
    } else {
        "null"@
    }
}

/// A value that is written as JSON.
pub trait ToJson {
    /// The JSON of the value, without any white space.
    spec fn json(&self) -> Seq<char>;

    /// Whether the value can be written: whether each of its strings can
    /// be quoted.
    spec fn writable(&self) -> bool;

    /// Writes the value. The writing goes on without error exactly where
    /// it was without error before and the value can be written.
    fn write(&self, w: &mut JsonWriter)
        ensures
            final(w).wrote(*old(w), self.json()),
            final(w).error is None <==> old(w).error is None && self.writable(),
    ;
}

impl ToJson for String {
    open spec fn json(&self) -> Seq<char> {
        json_string(self@)
    }

    open spec fn writable(&self) -> bool {
        quotable(self@)
    }

    fn write(&self, w: &mut JsonWriter) {
        w.string(self.as_str());
    }
}

/// The JSON of the first `n` values, with a comma between each two.
pub open spec fn list_json<T: ToJson>(items: Seq<T>, n: nat) -> Seq<char>
    decreases n,
{
    if n == 0 || n > items.len() {
        Seq::empty()
    } else if n == 1 {
        items[0].json()
    } else {
        list_json(items, (n - 1) as nat) + ","@ + items[n - 1].json()
    }
}

/// Whether each of the first `n` values can be written.
pub open spec fn list_writable<T: ToJson>(items: Seq<T>, n: nat) -> bool {
    forall|i: int| 0 <= i < n && i < items.len() ==> (#[trigger] items[i]).writable()
}

impl<T: ToJson> ToJson for Vec<T> {
    /// An array of the values, in order.
    open spec fn json(&self) -> Seq<char> {
        "["@ + list_json(self@, self@.len() as nat) + "]"@
    }

    open spec fn writable(&self) -> bool {
        list_writable(self@, self@.len() as nat)
    }

    fn write(&self, w: &mut JsonWriter) {
        w.raw("[");
        let ghost start = *w;
        let mut i: usize = 0;
        assert(w.out@ =~= start.out@ + list_json(self@, 0));
        while i < self.len()
            invariant
                i <= self@.len(),
                w.wrote(start, list_json(self@, i as nat)),
                w.error is None <==> start.error is None && list_writable(self@, i as nat),
            decreases self@.len() - i,
        {
            let ghost before = *w;
            if i > 0 {
                w.raw(",");
            }
            let ghost mid = *w;
            self[i].write(w);
            proof {
                if w.error is None {
                    if i > 0 {
                        assert(w.out@ =~= start.out@ + (list_json(self@, i as nat) + ","@
                            + self@[i as int].json()));
                    } else {
                        assert(w.out@ =~= start.out@ + self@[0].json());
                    }
                }
            }
            i += 1;
        }
        let ghost listed = *w;
        w.raw("]");
        proof {
            if w.error is None {
                assert(w.out@ =~= old(w).out@ + ("["@ + list_json(self@, self@.len() as nat)
                    + "]"@));
            }
        }
    }
}

/// A JSON text as `serde_json` lays it out for reading: one member or
/// element to a line, indented by two spaces for each level. Nothing for a
/// text that is not JSON.
pub uninterp spec fn json_pretty(json: Seq<char>) -> Option<Seq<char>>;

/// Calls `serde_json::from_str` for a `Value` and `to_string_pretty` on
/// the value. What comes back depends on the text alone.
#[verifier::external_body]
fn reformat(json: &str) -> (r: Result<String, serde_json::Error>)
    ensures
        match r {
            Ok(t) => json_pretty(json@) == Some(t@),
            Err(_) => json_pretty(json@) is None,
        },
{
    let value: serde_json::Value = serde_json::from_str(json)?;
    serde_json::to_string_pretty(&value)
}

/// Lays a JSON text out for reading.
pub fn pretty(json: &str) -> (r: Result<String, String>)
    ensures
        match r {
            Ok(t) => json_pretty(json@) == Some(t@),
            Err(_) => json_pretty(json@) is None,
        },
{
    match reformat(json) {
        Ok(t) => Ok(t),
        Err(e) => Err(crate::json::error_text(&e)),
    }
}

/// The JSON of a value, without any white space. It is written exactly
/// where the value can be written: where each of its strings can be
/// quoted.
pub fn compact<T: ToJson>(value: &T) -> (r: Result<String, String>)
    ensures
        match r {
            Ok(json) => value.writable() && json@ == value.json(),
            Err(_) => !value.writable(),
        },
{
    let mut w = JsonWriter::new();
    value.write(&mut w);
    match &w.error {
        None => {
            assert(w.out@ =~= value.json());
            Ok(crate::text::string_of(&w.out))
        },
        Some(e) => Err(crate::json::error_text(e)),
    }
}

} // verus!
