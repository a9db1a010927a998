//! Quantities that a document carries but never computes with.

use vstd::prelude::*;
use crate::numeral::{is_number_literal, is_number_text};
use crate::text::owned;

verus! {

/// A number kept as the text that writes it, such as `1.5`.
#[derive(Debug, Clone)]
pub struct Decimal {
    pub text: String,
}

impl Decimal {
    /// The text writes a number.
    pub open spec fn wf(self) -> bool {
        is_number_literal(self.text@)
    }

    /// The number that `text` writes, if it writes one.
    pub fn parse(text: &str) -> (r: Option<Decimal>)
        ensures
            r is Some <==> is_number_literal(text@),
            r matches Some(d) ==> d.text@ == text@,
    {
        if is_number_text(text) {
            Some(Decimal { text: owned(text) })
        } else {
            None
        }
    }

    /// Whether the text writes a number.
    pub fn is_valid(&self) -> (r: bool)
        ensures
            r == self.wf(),
    {
        is_number_text(self.text.as_str())
    }

    /// The number 1, written `1.0`.
    pub fn one() -> (r: Decimal)
        ensures
            r.text@ == "1.0"@,
            r.wf(),
    {
        let r = Decimal { text: owned("1.0") };
        proof {
            reveal_strlit("1.0");
            lemma_one_is_number();
            assert(r.text@ =~= seq!['1', '.', '0']);
        }
        r
    }

    /// The number one and a half, written `1.5`.
    pub fn one_and_a_half() -> (r: Decimal)
        ensures
            r.text@ == "1.5"@,
            r.wf(),
    {
        let r = Decimal { text: owned("1.5") };
        proof {
            reveal_strlit("1.5");
            lemma_one_is_number();
            assert(r.text@ =~= seq!['1', '.', '5']);
        }
        r
    }

    /// A copy of the number.
    pub fn copy(&self) -> (r: Decimal)
        ensures
            r.text@ == self.text@,
    {
        Decimal { text: self.text.clone() }
    }
}

proof fn lemma_one_is_number()
    ensures
        is_number_literal(seq!['1', '.', '0']),
        is_number_literal(seq!['1', '.', '5']),
{
    reveal_with_fuel(crate::numeral::digits_end, 4);
}

} // verus!
