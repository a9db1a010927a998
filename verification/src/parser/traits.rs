//! What the adapters share: their errors and their three stages.

use vstd::prelude::*;
use crate::schema::items::{all_alike, Content};
use crate::schema::resume::ResumeData;
use crate::schema::validation::Validate;
use crate::text::{push_str, string_of};

verus! {

/// Why an adapter gave no document. Each kind carries a diagnostic in
/// free text.
#[derive(Debug, Clone)]
pub enum ParseError {
    /// The bytes are not what the format's envelope is made of.
    ReadError(String),
    /// The envelope was read, but its structure is not the format's.
    ValidationError(String),
    /// The structure is the format's, but it cannot be mapped.
    ConversionError(String),
}

impl ParseError {
    /// The diagnostic that the error carries.
    pub open spec fn detail(self) -> Seq<char> {
        match self {
            ParseError::ReadError(s) => s@,
            ParseError::ValidationError(s) => s@,
            ParseError::ConversionError(s) => s@,
        }
    }

    /// The words that introduce the diagnostic of each kind.
    pub open spec fn heading(self) -> Seq<char> {
        match self {
            ParseError::ReadError(_) => "Failed to read file: "@,
            ParseError::ValidationError(_) => "Invalid format: "@,
            ParseError::ConversionError(_) => "Conversion failed: "@,
        }
    }

    /// The error as one line of text.
    pub fn to_string(&self) -> (r: String)
        ensures
            r@ == self.heading() + self.detail(),
    {
        let mut out: Vec<char> = Vec::new();
        match self {
            ParseError::ReadError(s) => {
                push_str(&mut out, "Failed to read file: ");
                push_str(&mut out, s.as_str());
            },
            ParseError::ValidationError(s) => {
                push_str(&mut out, "Invalid format: ");
                push_str(&mut out, s.as_str());
            },
            ParseError::ConversionError(s) => {
                push_str(&mut out, "Conversion failed: ");
                push_str(&mut out, s.as_str());
            },
        }
        assert(out@ =~= self.heading() + self.detail());
        string_of(&out)
    }
}

/// An adapter: from the bytes of a foreign format to a document, in three
/// stages. Each stage says on which inputs it succeeds and what it then
/// hands on; `parse` runs the three in turn and stops at the first that
/// fails.
pub trait Parser {
    /// What is read from the bytes.
    type RawData;

    /// The envelope with its structure checked.
    type ValidatedData;

    /// Whether the bytes can be read.
    spec fn readable(input: Seq<u8>) -> bool;

    /// Whether `raw` is what is read from the bytes.
    spec fn read_as(input: Seq<u8>, raw: Self::RawData) -> bool;

    /// Whether what was read has the format's structure.
    spec fn valid(raw: Self::RawData) -> bool;

    /// Whether `data` is what was read, with its structure checked.
    spec fn validated_as(raw: Self::RawData, data: Self::ValidatedData) -> bool;

    /// Whether the checked data can be mapped to a document.
    spec fn convertible(data: Self::ValidatedData) -> bool;

    /// Whether `doc` is the document that the checked data maps to.
    spec fn converted_as(data: Self::ValidatedData, doc: ResumeData) -> bool;

    /// Stage 1: reads the bytes.
    fn read(&self, input: &[u8]) -> (r: Result<Self::RawData, ParseError>)
        ensures
            r is Ok <==> Self::readable(input@),
            r matches Ok(raw) ==> Self::read_as(input@, raw),
    ;

    /// Stage 2: checks the structure.
    fn validate(&self, data: Self::RawData) -> (r: Result<Self::ValidatedData, ParseError>)
        ensures
            r is Ok <==> Self::valid(data),
            r matches Ok(checked) ==> Self::validated_as(data, checked),
    ;

    /// Stage 3: maps to a document.
    fn convert(&self, data: Self::ValidatedData) -> (r: Result<ResumeData, ParseError>)
        ensures
            r is Ok <==> Self::convertible(data),
            r matches Ok(doc) ==> Self::converted_as(data, doc),
    ;

    /// The three stages in turn.
    fn parse(&self, input: &[u8]) -> (r: Result<ResumeData, ParseError>)
        ensures
            r is Ok ==> Self::readable(input@),
            !Self::readable(input@) ==> r is Err,
            r matches Ok(doc) ==> exists|raw: Self::RawData, data: Self::ValidatedData|
                Self::read_as(input@, raw) && Self::valid(raw) && Self::validated_as(raw, data)
                    && Self::convertible(data) && Self::converted_as(data, doc),
            r is Err && Self::readable(input@) ==> exists|raw: Self::RawData|
                Self::read_as(input@, raw) && (!Self::valid(raw) || exists|
                    data: Self::ValidatedData,
                |
                    Self::validated_as(raw, data) && !Self::convertible(data)),
    {
        let raw = match self.read(input) {
            Ok(raw) => raw,
            Err(e) => return Err(e),
        };
        let ghost seen = raw;
        let data = match self.validate(raw) {
            Ok(data) => data,
            Err(e) => return Err(e),
        };
        let ghost checked = data;
        match self.convert(data) {
            Ok(doc) => {
                assert(Self::read_as(input@, seen) && Self::valid(seen) && Self::validated_as(
                    seen,
                    checked,
                ) && Self::convertible(checked) && Self::converted_as(checked, doc));
                Ok(doc)
            },
            Err(e) => {
                assert(Self::validated_as(seen, checked) && !Self::convertible(checked));
                Err(e)
            },
        }
    }
}

/// An entry of a foreign format that becomes an item of kind `T`.
pub trait Entry<T: Content + Validate>: Sized {
    /// Whether `item` is what the entry becomes. All of the item is fixed by
    /// the entry but an identifier that is drawn when the item is made.
    spec fn becomes(self, item: T) -> bool;

    fn convert(&self) -> (item: T)
        ensures
            self.becomes(item),
    ;

    /// What an entry becomes is the same every time, but for identifiers.
    proof fn lemma_becomes_alike(self, a: T, b: T)
        requires
            self.becomes(a),
            self.becomes(b),
        ensures
            a.alike(b),
    ;
}

/// Whether the items are those that the entries become, one for one and
/// in order.
pub open spec fn each_becomes<A: Entry<B>, B: Content + Validate>(src: Seq<A>, items: Seq<B>) -> bool {
    &&& items.len() == src.len()
    &&& forall|i: int| 0 <= i < src.len() ==> src[i].becomes(#[trigger] items[i])
}

/// The items that the same entries become are the same every time, but
/// for identifiers.
pub proof fn lemma_each_alike<A: Entry<B>, B: Content + Validate>(src: Seq<A>, a: Seq<B>, b: Seq<B>)
    requires
        each_becomes(src, a),
        each_becomes(src, b),
    ensures
        all_alike(a, b),
{
    assert forall|i: int| 0 <= i < a.len() implies (#[trigger] a[i]).alike(b[i]) by {
        src[i].lemma_becomes_alike(a[i], b[i]);
    }
}

/// One item for each entry, in order.
pub fn convert_all<A: Entry<B>, B: Content + Validate>(src: &Vec<A>) -> (items: Vec<B>)
    ensures
        each_becomes(src@, items@),
{
    let mut items: Vec<B> = Vec::new();
    let mut i: usize = 0;
    while i < src.len()
        invariant
            i <= src@.len(),
            items@.len() == i,
            forall|k: int| 0 <= k < i ==> src@[k].becomes(#[trigger] items@[k]),
        decreases src@.len() - i,
    {
        items.push(src[i].convert());
        i += 1;
    }
    items
}

} // verus!
