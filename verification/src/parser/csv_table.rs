//! Tables in CSV: read by the `csv` crate, then looked up by header here.

use vstd::prelude::*;
use crate::parser::traits::ParseError;
use crate::search::{replace, starts_with};
use crate::text::{lowercase, push_str, same_text, string_of, texts, to_lowercase};

verus! {

#[verifier::external_type_specification]
#[verifier::external_body]
pub struct ExCsvError(csv::Error);

/// What `csv` gives for the headers of a text, or nothing where it reports
/// an error. `headed` says whether the first row is taken for the header,
/// `flexible` whether rows may differ in length.
pub uninterp spec fn csv_headers(text: Seq<char>, headed: bool, flexible: bool) -> Option<
    Seq<Seq<char>>,
>;

/// The records that `csv` reads from a text, in order: the fields of each,
/// or nothing for a record on which it reports an error.
pub uninterp spec fn csv_records(text: Seq<char>, headed: bool, flexible: bool) -> Seq<
    Option<Seq<Seq<char>>>,
>;

/// The header row of a table with flexible rows.
pub open spec fn csv_header(text: Seq<char>, flexible: bool) -> Option<Seq<Seq<char>>> {
    csv_headers(text, true, flexible)
}

/// The rows after the header row of a table.
pub open spec fn csv_rows(text: Seq<char>, flexible: bool) -> Seq<Option<Seq<Seq<char>>>> {
    csv_records(text, true, flexible)
}

/// The fields of a row that may be in error.
pub open spec fn row_fields(r: Result<Vec<String>, csv::Error>) -> Option<Seq<Seq<char>>> {
    match r {
        Ok(v) => Some(texts(v@)),
        Err(_) => None,
    }
}

/// Calls `csv::Reader::headers` on a reader over the bytes of the text,
/// built with the two settings. What it gives depends on the text and the
/// settings alone.
#[verifier::external_body]
fn read_headers(text: &str, headed: bool, flexible: bool) -> (r: Result<Vec<String>, csv::Error>)
    ensures
        row_fields(r) == csv_headers(text@, headed, flexible),
{
    let mut reader = csv::ReaderBuilder::new().has_headers(headed).flexible(flexible).from_reader(
        text.as_bytes(),
    );
    reader.headers().map(|h| h.iter().map(|f| f.to_string()).collect())
}

/// Calls `csv::Reader::records` on a reader over the bytes of the text,
/// built with the two settings, and hands out each record's fields as
/// strings. The records depend on the text and the settings alone.
#[verifier::external_body]
fn read_records(text: &str, headed: bool, flexible: bool) -> (r: Vec<
    Result<Vec<String>, csv::Error>,
>)
    ensures
        r@.len() == csv_records(text@, headed, flexible).len(),
        forall|i: int| 0 <= i < r@.len() ==> row_fields(#[trigger] r@[i]) == csv_records(
            text@,
            headed,
            flexible,
        )[i],
{
    let mut reader = csv::ReaderBuilder::new().has_headers(headed).flexible(flexible).from_reader(
        text.as_bytes(),
    );
    reader.records().map(|r| r.map(|rec| rec.iter().map(|f| f.to_string()).collect())).collect()
}

/// Calls `to_string` on a `csv::Error`: the reader's own words, of which
/// nothing is claimed.
#[verifier::external_body]
fn csv_error_text(e: &csv::Error) -> (r: String) {
    e.to_string()
}

/// The error of reading: what was being done, then the words of the
/// outside error.
fn read_failure(what: &str, e: &csv::Error) -> (r: ParseError)
    ensures
        r is ReadError,
        starts_with(r.detail(), what@),
{
    let mut out: Vec<char> = Vec::new();
    push_str(&mut out, what);
    let ghost head = out@;
    push_str(&mut out, csv_error_text(e).as_str());
    assert(out@.subrange(0, head.len() as int) =~= head);
    ParseError::ReadError(string_of(&out))
}

// ---------------------------------------------------------------------------
// Headers and fields
// ---------------------------------------------------------------------------

/// A header as it is looked up: in lower case, with `_` for each space.
pub open spec fn normal_header(h: Seq<char>) -> Seq<char> {
    replace(lowercase(h), " "@, "_"@)
}

/// The headers of a table in their normal form, in order.
pub open spec fn normal_headers(h: Seq<Seq<char>>) -> Seq<Seq<char>> {
    Seq::new(h.len(), |i: int| normal_header(h[i]))
}

/// A header already in lower case, with `_` for each space.
pub fn underscored(lower: &str) -> (r: String)
    ensures
        r@ == replace(lower@, " "@, "_"@),
{
    crate::search::replace_text(lower, " ", "_")
}

/// The headers of a table in their normal form: in lower case, with an
/// underscore for each space.
pub fn normalise_headers(headers: &Vec<String>) -> (r: Vec<String>)
    ensures
        texts(r@) == normal_headers(texts(headers@)),
{
    let mut out: Vec<String> = Vec::new();
    let mut i: usize = 0;
    while i < headers.len()
        invariant
            i <= headers@.len(),
            out@.len() == i,
            forall|k: int| 0 <= k < i ==> out@[k]@ == normal_header(headers@[k]@),
        decreases headers@.len() - i,
    {
        let lower = to_lowercase(headers[i].as_str());
        out.push(underscored(lower.as_str()));
        i += 1;
    }
    assert(texts(out@) =~= normal_headers(texts(headers@)));
    out
}

/// The field of a row under a header: the field at the last place, among
/// the first `n`, where the header stands and the row has a field.
pub open spec fn field_among(
    headers: Seq<Seq<char>>,
    row: Seq<Seq<char>>,
    name: Seq<char>,
    n: nat,
) -> Option<Seq<char>>
    decreases n,
{
    if n == 0 {
        None
    } else if n <= headers.len() && n <= row.len() && headers[n - 1] == name {
        Some(row[n - 1])
    } else {
        field_among(headers, row, name, (n - 1) as nat)
    }
}

/// The field of a row under a header, where the row has one.
pub open spec fn field(headers: Seq<Seq<char>>, row: Seq<Seq<char>>, name: Seq<char>) -> Option<
    Seq<char>,
> {
    field_among(
        headers,
        row,
        name,
        if headers.len() <= row.len() {
            headers.len()
        } else {
            row.len()
        },
    )
}

/// The field of a row under a header, where the table has the header and
/// the row is long enough.
pub fn get_field<'a>(headers: &Vec<String>, row: &'a Vec<String>, name: &str) -> (r: Option<
    &'a String,
>)
    ensures
        match r {
            Some(s) => field(texts(headers@), texts(row@), name@) == Some(s@),
            None => field(texts(headers@), texts(row@), name@) is None,
        },
{
    let mut n: usize = if headers.len() <= row.len() {
        headers.len()
    } else {
        row.len()
    };
    while n > 0
        invariant
            n <= headers@.len(),
            n <= row@.len(),
            field(texts(headers@), texts(row@), name@) == field_among(
                texts(headers@),
                texts(row@),
                name@,
                n as nat,
            ),
        decreases n,
    {
        if same_text(headers[n - 1].as_str(), name) {
            return Some(&row[n - 1]);
        }
        n -= 1;
    }
    None
}

/// The field under a header, or nothing where the row has none.
pub open spec fn field_or_empty(
    headers: Seq<Seq<char>>,
    row: Seq<Seq<char>>,
    name: Seq<char>,
) -> Seq<char> {
    match field(headers, row, name) {
        Some(s) => s,
        None => Seq::empty(),
    }
}

/// The field under a header, where the row has one that is not empty.
pub open spec fn filled_field(
    headers: Seq<Seq<char>>,
    row: Seq<Seq<char>>,
    name: Seq<char>,
) -> Option<Seq<char>> {
    match field(headers, row, name) {
        Some(s) => if s.len() > 0 {
            Some(s)
        } else {
            None
        },
        None => None,
    }
}

/// The field of a row under a header, or the empty text.
pub fn get_or_empty(headers: &Vec<String>, row: &Vec<String>, name: &str) -> (r: String)
    ensures
        r@ == field_or_empty(texts(headers@), texts(row@), name@),
{
    match get_field(headers, row, name) {
        Some(s) => s.clone(),
        None => String::new(),
    }
}

/// The field of a row under a header, where it is there and not empty.
pub fn get_filled(headers: &Vec<String>, row: &Vec<String>, name: &str) -> (r: Option<String>)
    ensures
        crate::text::opt_text(r) == filled_field(texts(headers@), texts(row@), name@),
{
    match get_field(headers, row, name) {
        Some(s) => if s.as_str().is_empty() {
            None
        } else {
            Some(s.clone())
        },
        None => None,
    }
}

// ---------------------------------------------------------------------------
// Tables of records
// ---------------------------------------------------------------------------

/// A record that is read from one row of a table.
pub trait Record: Sized {
    /// Whether the row gives a record. A row that gives none is passed
    /// over.
    spec fn kept(headers: Seq<Seq<char>>, row: Seq<Seq<char>>) -> bool;

    /// Whether the record is what the row gives.
    spec fn reads(self, headers: Seq<Seq<char>>, row: Seq<Seq<char>>) -> bool;

    fn from_row(headers: &Vec<String>, row: &Vec<String>) -> (r: Option<Self>)
        ensures
            r is Some <==> Self::kept(texts(headers@), texts(row@)),
            r matches Some(x) ==> x.reads(texts(headers@), texts(row@)),
    ;
}

/// Whether every row was read without error.
pub open spec fn all_read(rows: Seq<Option<Seq<Seq<char>>>>) -> bool {
    forall|i: int| 0 <= i < rows.len() ==> #[trigger] rows[i] is Some
}

/// The rows, among the first `n`, that give a record.
pub open spec fn kept_rows<T: Record>(
    headers: Seq<Seq<char>>,
    rows: Seq<Option<Seq<Seq<char>>>>,
    n: nat,
) -> Seq<Seq<Seq<char>>>
    decreases n,
{
    if n == 0 || n > rows.len() {
        Seq::empty()
    } else {
        let before = kept_rows::<T>(headers, rows, (n - 1) as nat);
        match rows[n - 1] {
            Some(row) => if T::kept(headers, row) {
                before.push(row)
            } else {
                before
            },
            None => before,
        }
    }
}

/// Whether the records are what the rows give, one for one and in order.
pub open spec fn records_read<T: Record>(
    headers: Seq<Seq<char>>,
    rows: Seq<Seq<Seq<char>>>,
    records: Seq<T>,
) -> bool {
    &&& records.len() == rows.len()
    &&& forall|i: int| 0 <= i < rows.len() ==> (#[trigger] records[i]).reads(headers, rows[i])
}

/// Whether `r` is what reading a table of records from a text gives: a
/// read error where the header or a row cannot be read; else one record,
/// in order, for each row that gives one, looked up under the headers in
/// their normal form.
pub open spec fn table_read<T: Record>(text: Seq<char>, r: Result<Vec<T>, ParseError>) -> bool {
    match csv_header(text, true) {
        None => r matches Err(e) && e is ReadError,
        Some(h) => {
            let rows = csv_rows(text, true);
            if all_read(rows) {
                r matches Ok(v) && records_read(
                    normal_headers(h),
                    kept_rows::<T>(normal_headers(h), rows, rows.len()),
                    v@,
                )
            } else {
                r matches Err(e) && e is ReadError
            }
        },
    }
}

/// Reads a table of records.
pub fn read_table<T: Record>(text: &str) -> (r: Result<Vec<T>, ParseError>)
    ensures
        table_read(text@, r),
{
    let headers = match read_headers(text, true, true) {
        Ok(h) => normalise_headers(&h),
        Err(e) => return Err(read_failure("Failed to read CSV headers: ", &e)),
    };
    let rows = read_records(text, true, true);
    let ghost model = csv_rows(text@, true);
    let mut out: Vec<T> = Vec::new();
    let mut i: usize = 0;
    while i < rows.len()
        invariant
            i <= rows@.len(),
            rows@.len() == model.len(),
            model == csv_rows(text@, true),
            csv_header(text@, true) is Some,
            forall|k: int| 0 <= k < rows@.len() ==> row_fields(#[trigger] rows@[k]) == model[k],
            forall|k: int| 0 <= k < i ==> #[trigger] model[k] is Some,
            records_read(texts(headers@), kept_rows::<T>(texts(headers@), model, i as nat), out@),
        decreases rows@.len() - i,
    {
        match &rows[i] {
            Ok(row) => {
                assert(model[i as int] == Some(texts(row@)));
                match T::from_row(&headers, row) {
                    Some(x) => {
                        out.push(x);
                    },
                    None => {},
                }
            },
            Err(e) => {
                assert(model[i as int] is None);
                return Err(read_failure("Failed to read CSV record: ", e));
            },
        }
        i += 1;
    }
    Ok(out)
}

/// Whether `r` is what reading the first record of a table gives: a read
/// error where the header or the first row cannot be read; nothing where
/// there is no row; else what the first row gives.
pub open spec fn first_read<T: Record>(text: Seq<char>, r: Result<Option<T>, ParseError>) -> bool {
    match csv_header(text, true) {
        None => r matches Err(e) && e is ReadError,
        Some(h) => {
            let rows = csv_rows(text, true);
            if rows.len() == 0 {
                r matches Ok(None)
            } else {
                match rows[0] {
                    None => r matches Err(e) && e is ReadError,
                    Some(row) => r matches Ok(o) && (o is Some <==> T::kept(
                        normal_headers(h),
                        row,
                    )) && (o matches Some(x) ==> x.reads(normal_headers(h), row)),
                }
            }
        },
    }
}

/// Reads the first record of a table. Rows after the first are not looked
/// at.
pub fn read_first<T: Record>(text: &str) -> (r: Result<Option<T>, ParseError>)
    ensures
        first_read(text@, r),
{
    let headers = match read_headers(text, true, true) {
        Ok(h) => normalise_headers(&h),
        Err(e) => return Err(read_failure("Failed to read CSV headers: ", &e)),
    };
    let rows = read_records(text, true, true);
    if rows.len() == 0 {
        return Ok(None);
    }
    match &rows[0] {
        Ok(row) => Ok(T::from_row(&headers, row)),
        Err(e) => Err(read_failure("Failed to read CSV record: ", e)),
    }
}

/// Whether the header and every row of a table can be read.
pub open spec fn rows_readable(text: Seq<char>) -> bool {
    csv_header(text, true) is Some && all_read(csv_rows(text, true))
}

/// Whether the records are what the table gives.
pub open spec fn table_gives<T: Record>(text: Seq<char>, records: Seq<T>) -> bool {
    match csv_header(text, true) {
        None => false,
        Some(h) => records_read(
            normal_headers(h),
            kept_rows::<T>(normal_headers(h), csv_rows(text, true), csv_rows(text, true).len()),
            records,
        ),
    }
}

/// Whether the header and the first row of a table, where it has one, can
/// be read.
pub open spec fn first_readable(text: Seq<char>) -> bool {
    csv_header(text, true) is Some && (csv_rows(text, true).len() > 0 ==> csv_rows(text, true)[0]
        is Some)
}

/// Whether the record is what the first row of the table gives.
pub open spec fn first_gives<T: Record>(text: Seq<char>, record: Option<T>) -> bool {
    first_read::<T>(text, Ok(record))
}

} // verus!
