//! Colours written in hexadecimal.

use vstd::prelude::*;
use crate::numeral::{decimal, push_decimal};
use crate::schema::decimal::Decimal;
use crate::schema::validation::is_hex_digit;
use crate::text::{chars_of, owned, push_str, string_of, trim, trim_chars};

verus! {

/// The value of a hexadecimal digit.
pub open spec fn hex_value(c: char) -> int {
    if '0' <= c <= '9' {
        c as u32 - '0' as u32
    } else if 'a' <= c <= 'f' {
        c as u32 - 'a' as u32 + 10
    } else {
        c as u32 - 'A' as u32 + 10
    }
}

/// The number that two characters write in hexadecimal: two digits, or a
/// plus sign and one digit.
pub open spec fn hex_pair(a: char, b: char) -> Option<u8> {
    if is_hex_digit(a) && is_hex_digit(b) {
        Some((16 * hex_value(a) + hex_value(b)) as u8)
    } else if a == '+' && is_hex_digit(b) {
        Some(hex_value(b) as u8)
    } else {
        None
    }
}

/// The colour without the white space around it and without one `#`
/// before it.
pub open spec fn color_body(hex: Seq<char>) -> Seq<char> {
    let t = trim(hex);
    if t.len() > 0 && t[0] == '#' {
        t.skip(1)
    } else {
        t
    }
}

/// The red, green and blue of a colour of six hexadecimal digits, with or
/// without a `#` before them and white space around them. Nothing for any
/// other text.
pub open spec fn rgb_of(hex: Seq<char>) -> Option<(u8, u8, u8)> {
    let body = color_body(hex);
    if body.len() != 6 {
        None
    } else {
        match (hex_pair(body[0], body[1]), hex_pair(body[2], body[3]), hex_pair(body[4], body[5])) {
            (Some(r), Some(g), Some(b)) => Some((r, g, b)),
            _ => None,
        }
    }
}

fn digit_value(c: char) -> (r: Option<u8>)
    ensures
        r is Some <==> is_hex_digit(c),
        r matches Some(v) ==> v as int == hex_value(c) && v < 16,
{
    if '0' <= c && c <= '9' {
        Some((c as u32 - '0' as u32) as u8)
    } else if 'a' <= c && c <= 'f' {
        Some((c as u32 - 'a' as u32 + 10) as u8)
    } else if 'A' <= c && c <= 'F' {
        Some((c as u32 - 'A' as u32 + 10) as u8)
    } else {
        None
    }
}

fn pair_value(a: char, b: char) -> (r: Option<u8>)
    ensures
        r == hex_pair(a, b),
{
    match digit_value(b) {
        None => None,
        Some(low) => match digit_value(a) {
            Some(high) => Some(16 * high + low),
            None => if a == '+' {
                Some(low)
            } else {
                None
            },
        },
    }
}

/// The red, green and blue of a colour.
pub fn hex_to_rgb(hex: &str) -> (r: Option<(u8, u8, u8)>)
    ensures
        r == rgb_of(hex@),
{
    let t = trim_chars(&chars_of(hex));
    let start: usize = if t.len() > 0 && t[0] == '#' {
        1
    } else {
        0
    };
    if t.len() - start != 6 {
        return None;
    }
    proof {
        let body = color_body(hex@);
        assert(body =~= t@.skip(start as int));
        assert(forall|k: int| 0 <= k < 6 ==> body[k] == t@[start + k]);
    }
    let r = pair_value(t[start], t[start + 1]);
    let g = pair_value(t[start + 2], t[start + 3]);
    let b = pair_value(t[start + 4], t[start + 5]);
    match (r, g, b) {
        (Some(r), Some(g), Some(b)) => Some((r, g, b)),
        _ => None,
    }
}

/// A colour as CSS writes it: `rgb(r, g, b)`, or `rgba(r, g, b, a)` where
/// an alpha is given. Text that is no colour in hexadecimal stays as it
/// is.
pub open spec fn rgb_text(hex: Seq<char>, alpha: Option<Seq<char>>) -> Seq<char> {
    match rgb_of(hex) {
        Some((r, g, b)) => match alpha {
            Some(a) => "rgba("@ + decimal(r as nat) + ", "@ + decimal(g as nat) + ", "@ + decimal(
                b as nat,
            ) + ", "@ + a + ")"@,
            None => "rgb("@ + decimal(r as nat) + ", "@ + decimal(g as nat) + ", "@ + decimal(
                b as nat,
            ) + ")"@,
        },
        None => hex,
    }
}

/// A colour as CSS writes it.
pub fn hex_to_rgb_string(hex: &str, alpha: Option<&Decimal>) -> (r: String)
    ensures
        r@ == rgb_text(
            hex@,
            match alpha {
                Some(a) => Some(a.text@),
                None => None,
            },
        ),
{
    match hex_to_rgb(hex) {
        Some((r, g, b)) => {
            let mut out: Vec<char> = Vec::new();
            match alpha {
                Some(a) => {
                    push_str(&mut out, "rgba(");
                    push_decimal(&mut out, r as u64);
                    push_str(&mut out, ", ");
                    push_decimal(&mut out, g as u64);
                    push_str(&mut out, ", ");
                    push_decimal(&mut out, b as u64);
                    push_str(&mut out, ", ");
                    push_str(&mut out, a.text.as_str());
                    push_str(&mut out, ")");
                    assert(out@ =~= "rgba("@ + decimal(r as nat) + ", "@ + decimal(g as nat)
                        + ", "@ + decimal(b as nat) + ", "@ + a.text@ + ")"@);
                },
                None => {
                    push_str(&mut out, "rgb(");
                    push_decimal(&mut out, r as u64);
                    push_str(&mut out, ", ");
                    push_decimal(&mut out, g as u64);
                    push_str(&mut out, ", ");
                    push_decimal(&mut out, b as u64);
                    push_str(&mut out, ")");
                    assert(out@ =~= "rgb("@ + decimal(r as nat) + ", "@ + decimal(g as nat)
                        + ", "@ + decimal(b as nat) + ")"@);
                },
            }
            string_of(&out)
        },
        None => owned(hex),
    }
}

} // verus!
