//! ZIP archives, read by the `zip` crate.

use vstd::prelude::*;
use crate::parser::traits::ParseError;
use crate::search::starts_with;
use crate::text::{push_str, string_of};

verus! {

#[verifier::external_type_specification]
#[verifier::external_body]
pub struct ExZipError(zip::result::ZipError);

/// The number of entries of the archive that the bytes are, or nothing
/// where `zip` cannot open them as an archive.
pub uninterp spec fn zip_count(bytes: Seq<u8>) -> Option<nat>;

/// The name of an entry of the archive and whether it is a directory, or
/// nothing where `zip` cannot get at the entry.
pub uninterp spec fn zip_entry(bytes: Seq<u8>, index: nat) -> Option<(Seq<char>, bool)>;

/// What an entry of the archive holds, as text, or nothing where `zip`
/// cannot read it or it is not UTF-8.
pub uninterp spec fn zip_text(bytes: Seq<u8>, index: nat) -> Option<Seq<char>>;

/// Calls `zip::ZipArchive::new` on the bytes and `len` on the archive.
#[verifier::external_body]
fn count_entries(bytes: &[u8]) -> (r: Result<usize, zip::result::ZipError>)
    ensures
        match r {
            Ok(n) => zip_count(bytes@) == Some(n as nat),
            Err(_) => zip_count(bytes@) is None,
        },
{
    zip::ZipArchive::new(std::io::Cursor::new(bytes)).map(|a| a.len())
}

/// Opens the archive and calls `ZipArchive::by_index`, then `name` and
/// `is_dir` on the entry. An index past the last entry is an error of the
/// archive's, as any other.
#[verifier::external_body]
fn entry_header(bytes: &[u8], index: usize) -> (r: Result<(String, bool), zip::result::ZipError>)
    ensures
        match r {
            Ok(h) => zip_entry(bytes@, index as nat) == Some((h.0@, h.1)),
            Err(_) => zip_entry(bytes@, index as nat) is None,
        },
{
    let mut archive = zip::ZipArchive::new(std::io::Cursor::new(bytes))?;
    let file = archive.by_index(index)?;
    let name = file.name()?.to_string();
    Ok((name, file.is_dir()))
}

/// Opens the archive, calls `ZipArchive::by_index` and reads the entry to
/// its end as a string. An error of the reading comes back as the
/// archive's error for it.
#[verifier::external_body]
fn entry_text(bytes: &[u8], index: usize) -> (r: Result<String, zip::result::ZipError>)
    ensures
        match r {
            Ok(s) => zip_text(bytes@, index as nat) == Some(s@),
            Err(_) => zip_text(bytes@, index as nat) is None,
        },
{
    let mut archive = zip::ZipArchive::new(std::io::Cursor::new(bytes))?;
    let mut file = archive.by_index(index)?;
    let mut text = String::new();
    std::io::Read::read_to_string(&mut file, &mut text)?;
    Ok(text)
}

/// Calls `to_string` on a `ZipError`: the archive's own words, of which
/// nothing is claimed.
#[verifier::external_body]
fn zip_error_text(e: &zip::result::ZipError) -> (r: String) {
    e.to_string()
}

/// The error of reading: what was being done, then the words of the
/// outside error.
fn read_failure(what: &str, e: &zip::result::ZipError) -> (r: ParseError)
    ensures
        r is ReadError,
        starts_with(r.detail(), what@),
{
    let mut out: Vec<char> = Vec::new();
    push_str(&mut out, what);
    let ghost head = out@;
    push_str(&mut out, zip_error_text(e).as_str());
    assert(out@.subrange(0, head.len() as int) =~= head);
    ParseError::ReadError(string_of(&out))
}

/// The number of entries of an archive.
pub fn archive_len(bytes: &[u8]) -> (r: Result<usize, ParseError>)
    ensures
        match r {
            Ok(n) => zip_count(bytes@) == Some(n as nat),
            Err(e) => zip_count(bytes@) is None && e is ReadError,
        },
{
    match count_entries(bytes) {
        Ok(n) => Ok(n),
        Err(e) => Err(read_failure("Failed to open ZIP archive: ", &e)),
    }
}

/// The name of an entry and whether it is a directory.
pub fn archive_entry(bytes: &[u8], index: usize) -> (r: Result<(String, bool), ParseError>)
    ensures
        match r {
            Ok(h) => zip_entry(bytes@, index as nat) == Some((h.0@, h.1)),
            Err(e) => zip_entry(bytes@, index as nat) is None && e is ReadError,
        },
{
    match entry_header(bytes, index) {
        Ok(h) => Ok(h),
        Err(e) => Err(read_failure("Failed to read ZIP entry: ", &e)),
    }
}

/// What an entry holds, as text.
pub fn archive_text(bytes: &[u8], index: usize) -> (r: Result<String, ParseError>)
    ensures
        match r {
            Ok(s) => zip_text(bytes@, index as nat) == Some(s@),
            Err(e) => zip_text(bytes@, index as nat) is None && e is ReadError,
        },
{
    match entry_text(bytes, index) {
        Ok(s) => Ok(s),
        Err(e) => Err(read_failure("Failed to read file: ", &e)),
    }
}

} // verus!
