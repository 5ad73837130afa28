//! The accent colour of the gradient border: an optional override from
//! the host environment, a built-in fallback, and the RGBA hex parse
//! through the `hex_color` crate.

use vstd::prelude::*;
use crate::strutil::concat_str;

verus! {

/// A hexadecimal digit, case-insensitive.
pub open spec fn is_hex_digit(c: char) -> bool {
    (48 <= c as int && c as int <= 57) || (97 <= c as int && c as int <= 102) || (65 <= c as int
        && c as int <= 70)
}

/// The value of a hexadecimal digit.
pub open spec fn hex_val(c: char) -> int {
    if 48 <= c as int && c as int <= 57 {
        c as int - 48
    } else if 97 <= c as int && c as int <= 102 {
        c as int - 87
    } else {
        c as int - 55
    }
}

/// The byte written at `i` as two hexadecimal digits.
pub open spec fn hex_byte_at(s: Seq<char>, i: int) -> u8 {
    (16 * hex_val(s[i]) + hex_val(s[i + 1])) as u8
}

/// A full `#RRGGBBAA` code.
pub open spec fn valid_rgba_long(s: Seq<char>) -> bool {
    s.len() == 9 && s[0] == '#' && (forall|i: int| 1 <= i < 9 ==> is_hex_digit(#[trigger] s[i]))
}

/// The channels of a full `#RRGGBBAA` code.
pub open spec fn rgba_long_of(s: Seq<char>) -> (u8, u8, u8, u8) {
    (hex_byte_at(s, 1), hex_byte_at(s, 3), hex_byte_at(s, 5), hex_byte_at(s, 7))
}

/// A shorthand `#RGBA` code.
pub open spec fn valid_rgba_short(s: Seq<char>) -> bool {
    s.len() == 5 && s[0] == '#' && (forall|i: int| 1 <= i < 5 ==> is_hex_digit(#[trigger] s[i]))
}

/// The channels of a shorthand `#RGBA` code: each digit is doubled.
pub open spec fn rgba_short_of(s: Seq<char>) -> (u8, u8, u8, u8) {
    (
        (hex_val(s[1]) * 17) as u8,
        (hex_val(s[2]) * 17) as u8,
        (hex_val(s[3]) * 17) as u8,
        (hex_val(s[4]) * 17) as u8,
    )
}

/// Relies on `hex_color::HexColor::parse_rgba`: a case-insensitive
/// `#RGBA` or `#RRGGBBAA` code parses to its four channel bytes (a
/// shorthand digit doubled). Nothing is claimed of other inputs.
#[verifier::external_body]
fn parse_rgba_channels(s: &str) -> (r: Option<(u8, u8, u8, u8)>)
    ensures
        valid_rgba_long(s@) ==> r == Some(rgba_long_of(s@)),
        valid_rgba_short(s@) ==> r == Some(rgba_short_of(s@)),
{
    match hex_color::HexColor::parse_rgba(s) {
        Ok(c) => Some((c.r, c.g, c.b, c.a)),
        Err(_) => None,
    }
}

/// The RGBA channels of an accent colour: the host-supplied override
/// when present, the built-in fallback otherwise, prefixed with `#`
/// and parsed as a hex code; a valid code yields exactly its channels.
pub fn accent_rgba(override_value: Option<String>, fallback: &str) -> (r: Option<(u8, u8, u8, u8)>)
    ensures
        ({
            let chosen = match override_value {
                Some(v) => v@,
                None => fallback@,
            };
            let full = "#"@ + chosen;
            &&& (valid_rgba_long(full) ==> r == Some(rgba_long_of(full)))
            &&& (valid_rgba_short(full) ==> r == Some(rgba_short_of(full)))
        }),
{
    let chosen = match override_value {
        Some(v) => v,
        None => fallback.to_owned(),
    };
    let full = concat_str("#", chosen.as_str());
    parse_rgba_channels(full.as_str())
}

} // verus!
