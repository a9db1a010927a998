//! Identifiers of items: short, collision-resistant, lower-case.

use vstd::prelude::*;

verus! {

/// Whether a character may stand in an identifier.
pub open spec fn is_id_char(c: char) -> bool {
    ('0' <= c <= '9') || ('a' <= c <= 'z')
}

/// The shape of an identifier: 2 to 32 characters, a lower-case letter
/// first, then lower-case letters and digits.
pub open spec fn id_shaped(s: Seq<char>) -> bool {
    &&& 2 <= s.len() <= 32
    &&& 'a' <= s[0] <= 'z'
    &&& forall|i: int| 1 <= i < s.len() ==> is_id_char(#[trigger] s[i])
}

/// Calls `cuid2::create_id`. The identifier is drawn at random, so nothing
/// is said of which one comes back: only its shape, which every identifier
/// of that generator has (a random lower-case letter, then at most 23
/// base-36 digits of a hash, at least one).
#[verifier::external_body]
pub fn create_id() -> (id: String)
    ensures
        id_shaped(id@),
        id@.len() <= 24,
{
    cuid2::create_id()
}

/// Calls `cuid2::is_cuid2`, which tests the bytes of the text for the shape
/// of an identifier.
#[verifier::external_body]
pub fn is_valid_id(id: &str) -> (r: bool)
    ensures
        r == id_shaped(id@),
{
    cuid2::is_cuid2(id)
}

} // verus!
