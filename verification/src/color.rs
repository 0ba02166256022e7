//! Colors and the `#RRGGBB` hexadecimal color notation.

use vstd::prelude::*;

use crate::error::Error;
use vstd::string::StrSliceExecFns;

verus! {

/// An sRGB color with 8-bit channels.
#[derive(Debug, Clone, Copy, PartialEq, Eq, Structural)]
pub struct Rgb {
    pub red: u8,
    pub green: u8,
    pub blue: u8,
}

/// Pure black, the default text color.
pub open spec fn spec_black() -> Rgb {
    Rgb { red: 0, green: 0, blue: 0 }
}

/// Pure black, the default text color.
pub fn black() -> (c: Rgb)
    ensures
        c == spec_black(),
{
    Rgb { red: 0, green: 0, blue: 0 }
}

/// The gray used for footer body text.
pub open spec fn spec_gray() -> Rgb {
    Rgb { red: 128, green: 128, blue: 128 }
}

/// The gray used for footer body text.
pub fn gray() -> (c: Rgb)
    ensures
        c == spec_gray(),
{
    Rgb { red: 128, green: 128, blue: 128 }
}

/// The light gray used for footer tables.
pub open spec fn spec_light_gray() -> Rgb {
    Rgb { red: 192, green: 192, blue: 192 }
}

/// The light gray used for footer tables.
pub fn light_gray() -> (c: Rgb)
    ensures
        c == spec_light_gray(),
{
    Rgb { red: 192, green: 192, blue: 192 }
}

/// `c` is an ASCII hexadecimal digit, in either case.
pub open spec fn is_hex_digit(c: char) -> bool {
    ('0' <= c && c <= '9') || ('a' <= c && c <= 'f') || ('A' <= c && c <= 'F')
}

/// The numeric value of a hexadecimal digit (0 for other characters).
pub open spec fn hex_digit_val(c: char) -> int {
    if '0' <= c && c <= '9' {
        c as int - '0' as int
    } else if 'a' <= c && c <= 'f' {
        c as int - 'a' as int + 10
    } else if 'A' <= c && c <= 'F' {
        c as int - 'A' as int + 10
    } else {
        0
    }
}

/// `s` has the exact form `#RRGGBB`.
pub open spec fn valid_hex_color(s: Seq<char>) -> bool {
    &&& s.len() == 7
    &&& s[0] == '#'
    &&& forall|i: int| 1 <= i < 7 ==> is_hex_digit(#[trigger] s[i])
}

/// The channel value written at positions `i`, `i + 1` of `s`.
pub open spec fn hex_byte(s: Seq<char>, i: int) -> int {
    16 * hex_digit_val(s[i]) + hex_digit_val(s[i + 1])
}

/// The color denoted by a valid `#RRGGBB` string.
pub open spec fn spec_parse_hex_color(s: Seq<char>) -> Rgb {
    Rgb {
        red: hex_byte(s, 1) as u8,
        green: hex_byte(s, 3) as u8,
        blue: hex_byte(s, 5) as u8,
    }
}

/// The value of one hexadecimal digit, or `None` for any other character.
fn hex_val(c: char) -> (r: Option<u8>)
    ensures
        match r {
            Some(v) => is_hex_digit(c) && v == hex_digit_val(c) && v < 16,
            None => !is_hex_digit(c),
        },
{
    let u: u32 = c as u32;
    if u >= '0' as u32 && u <= '9' as u32 {
        Some((u - '0' as u32) as u8)
    } else if u >= 'a' as u32 && u <= 'f' as u32 {
        Some((u - 'a' as u32 + 10) as u8)
    } else if u >= 'A' as u32 && u <= 'F' as u32 {
        Some((u - 'A' as u32 + 10) as u8)
    } else {
        None
    }
}

/// Parse a `#RRGGBB` color string into its channels.
///
/// Returns `InvalidColorFormat` if and only if the string is not exactly
/// seven characters of the form `#` followed by six hexadecimal digits.
pub fn parse_hex_color(s: &str) -> (r: Result<Rgb, Error>)
    ensures
        match r {
            Ok(c) => valid_hex_color(s@) && c == spec_parse_hex_color(s@),
            Err(e) => e == Error::InvalidColorFormat && !valid_hex_color(s@),
        },
{
    if s.unicode_len() != 7 {
        return Err(Error::InvalidColorFormat);
    }
    if s.get_char(0) != '#' {
        return Err(Error::InvalidColorFormat);
    }
    let d1 = match hex_val(s.get_char(1)) {
        Some(v) => v,
        None => {
            return Err(Error::InvalidColorFormat);
        },
    };
    let d2 = match hex_val(s.get_char(2)) {
        Some(v) => v,
        None => {
            return Err(Error::InvalidColorFormat);
        },
    };
    let d3 = match hex_val(s.get_char(3)) {
        Some(v) => v,
        None => {
            return Err(Error::InvalidColorFormat);
        },
    };
    let d4 = match hex_val(s.get_char(4)) {
        Some(v) => v,
        None => {
            return Err(Error::InvalidColorFormat);
        },
    };
    let d5 = match hex_val(s.get_char(5)) {
        Some(v) => v,
        None => {
            return Err(Error::InvalidColorFormat);
        },
    };
    let d6 = match hex_val(s.get_char(6)) {
        Some(v) => v,
        None => {
            return Err(Error::InvalidColorFormat);
        },
    };
    Ok(Rgb { red: 16 * d1 + d2, green: 16 * d3 + d4, blue: 16 * d5 + d6 })
}

} // verus!
