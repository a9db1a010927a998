//! Decimal numerals: writing a number as text and reading it back.

use vstd::prelude::*;
use crate::text::chars_of;

verus! {

/// The character of a digit.
pub open spec fn digit_char(d: nat) -> char {
    if d == 0 {
        '0'
    } else if d == 1 {
        '1'
    } else if d == 2 {
        '2'
    } else if d == 3 {
        '3'
    } else if d == 4 {
        '4'
    } else if d == 5 {
        '5'
    } else if d == 6 {
        '6'
    } else if d == 7 {
        '7'
    } else if d == 8 {
        '8'
    } else {
        '9'
    }
}

/// Whether a character is one of the ten digits.
pub open spec fn is_digit(c: char) -> bool {
    '0' <= c <= '9'
}

/// The number that a digit stands for.
pub open spec fn digit_value(c: char) -> nat {
    (c as u32 - '0' as u32) as nat
}

/// The decimal numeral of `n`, without sign or leading zeros.
pub open spec fn decimal(n: nat) -> Seq<char>
    decreases n,
{
    if n < 10 {
        seq![digit_char(n)]
    } else {
        decimal(n / 10).push(digit_char(n % 10))
    }
}

/// Whether a text holds digits only.
pub open spec fn all_digits(s: Seq<char>) -> bool {
    forall|i: int| 0 <= i < s.len() ==> is_digit(#[trigger] s[i])
}

/// The number that a run of decimal digits denotes (0 for the empty run).
pub open spec fn numeral_value(s: Seq<char>) -> nat
    decreases s.len(),
{
    if s.len() == 0 {
        0
    } else {
        numeral_value(s.drop_last()) * 10 + digit_value(s.last())
    }
}

fn digit_of(d: u64) -> (c: char)
    requires
        d < 10,
    ensures
        c == digit_char(d as nat),
{
    if d == 0 {
        '0'
    } else if d == 1 {
        '1'
    } else if d == 2 {
        '2'
    } else if d == 3 {
        '3'
    } else if d == 4 {
        '4'
    } else if d == 5 {
        '5'
    } else if d == 6 {
        '6'
    } else if d == 7 {
        '7'
    } else if d == 8 {
        '8'
    } else {
        '9'
    }
}

/// Appends the decimal numeral of `n` to `out`.
pub fn push_decimal(out: &mut Vec<char>, n: u64)
    ensures
        final(out)@ == old(out)@ + decimal(n as nat),
    decreases n,
{
    if n < 10 {
        out.push(digit_of(n));
        assert(out@ =~= old(out)@ + decimal(n as nat));
    } else {
        push_decimal(out, n / 10);
        out.push(digit_of(n % 10));
        assert(out@ =~= old(out)@ + decimal(n as nat));
    }
}

proof fn lemma_value_grows(s: Seq<char>, k: int)
    requires
        0 <= k <= s.len(),
    ensures
        numeral_value(s.take(k)) <= numeral_value(s),
    decreases s.len() - k,
{
    if k < s.len() {
        lemma_value_grows(s, k + 1);
        assert(s.take(k + 1).drop_last() =~= s.take(k));
    } else {
        assert(s.take(k) =~= s);
    }
}

/// Reads a run of decimal digits as a number no greater than `limit`.
pub fn parse_decimal(v: &Vec<char>, limit: u64) -> (r: Option<u64>)
    ensures
        r is Some <==> v@.len() > 0 && all_digits(v@) && numeral_value(v@) <= limit,
        r matches Some(n) ==> n as nat == numeral_value(v@),
{
    if v.len() == 0 {
        return None;
    }
    let mut acc: u64 = 0;
    let mut i: usize = 0;
    while i < v.len()
        invariant
            i <= v.len(),
            all_digits(v@.take(i as int)),
            acc as nat == numeral_value(v@.take(i as int)),
            acc <= limit,
        decreases v.len() - i,
    {
        let c = v[i];
        if !('0' <= c && c <= '9') {
            return None;
        }
        let d: u64 = (c as u32 - '0' as u32) as u64;
        proof {
            assert(v@.take(i + 1).drop_last() =~= v@.take(i as int));
            assert(v@.take(i + 1).last() == c);
            lemma_value_grows(v@, i + 1);
        }
        if d > limit || acc > (limit - d) / 10 {
            return None;
        }
        acc = acc * 10 + d;
        proof {
            assert forall|j: int| 0 <= j < i + 1 implies is_digit(
                #[trigger] v@.take(i + 1)[j],
            ) by {
                if j < i {
                    assert(v@.take(i as int)[j] == v@.take(i + 1)[j]);
                }
            }
        }
        i += 1;
    }
    assert(v@.take(v.len() as int) =~= v@);
    Some(acc)
}

/// Reads a decimal numeral no greater than `limit`.
pub fn parse_decimal_text(s: &str, limit: u64) -> (r: Option<u64>)
    ensures
        r is Some <==> s@.len() > 0 && all_digits(s@) && numeral_value(s@) <= limit,
        r matches Some(n) ==> n as nat == numeral_value(s@),
{
    let v = chars_of(s);
    parse_decimal(&v, limit)
}

/// The index after the digits that stand in `s` from index `i` on.
pub open spec fn digits_end(s: Seq<char>, i: int) -> int
    decreases s.len() - i,
{
    if 0 <= i < s.len() && is_digit(s[i]) {
        digits_end(s, i + 1)
    } else {
        i
    }
}

/// Whether `s` is a number as JSON writes one: an optional minus sign; a
/// zero, or digits that do not start with zero; then, each optional, a
/// point with digits after it, and an exponent.
pub open spec fn is_number_literal(s: Seq<char>) -> bool {
    let a: int = if s.len() > 0 && s[0] == '-' {
        1
    } else {
        0
    };
    let b = digits_end(s, a);
    let has_fraction = b < s.len() && s[b] == '.';
    let c = if has_fraction {
        digits_end(s, b + 1)
    } else {
        b
    };
    let has_exponent = c < s.len() && (s[c] == 'e' || s[c] == 'E');
    let e: int = if has_exponent && c + 1 < s.len() && (s[c + 1] == '+' || s[c + 1] == '-') {
        c + 2
    } else {
        c + 1
    };
    let d = if has_exponent {
        digits_end(s, e)
    } else {
        c
    };
    &&& b > a
    &&& (s[a] == '0' ==> b == a + 1)
    &&& (has_fraction ==> c > b + 1)
    &&& (has_exponent ==> d > e)
    &&& d == s.len()
}

fn skip_digits(v: &Vec<char>, i: usize) -> (r: usize)
    requires
        i <= v.len(),
    ensures
        r as int == digits_end(v@, i as int),
        i <= r <= v.len(),
{
    let mut k: usize = i;
    while k < v.len() && '0' <= v[k] && v[k] <= '9'
        invariant
            i <= k <= v.len(),
            digits_end(v@, k as int) == digits_end(v@, i as int),
        decreases v.len() - k,
    {
        k += 1;
    }
    k
}

/// Whether `s` is a number as JSON writes one.
pub fn is_number_text(s: &str) -> (r: bool)
    ensures
        r == is_number_literal(s@),
{
    let v = chars_of(s);
    let n = v.len();
    let a: usize = if n > 0 && v[0] == '-' {
        1
    } else {
        0
    };
    let b = skip_digits(&v, a);
    if b == a {
        return false;
    }
    if v[a] == '0' && b != a + 1 {
        return false;
    }
    let has_fraction = b < n && v[b] == '.';
    let c = if has_fraction {
        skip_digits(&v, b + 1)
    } else {
        b
    };
    if has_fraction && c == b + 1 {
        return false;
    }
    let has_exponent = c < n && (v[c] == 'e' || v[c] == 'E');
    if !has_exponent {
        return c == n;
    }
    let e: usize = if c + 1 < n && (v[c + 1] == '+' || v[c + 1] == '-') {
        c + 2
    } else {
        c + 1
    };
    let d = skip_digits(&v, e);
    d > e && d == n
}

} // verus!
