//! Colours as four 8-bit channels, and their hexadecimal notation.
//!
//! A colour is written as 3, 4, 6 or 8 hexadecimal digits, with or without a
//! leading `#`: `RGB`, `RGBA`, `RRGGBB` or `RRGGBBAA`. In the short forms each
//! digit stands for the same digit twice. Without alpha digits the colour is
//! opaque.

use vstd::prelude::*;
use crate::text::chars_of;

verus! {

/// A colour with red, green, blue and alpha channels.
#[derive(Clone, Copy, Debug, PartialEq, Eq, Structural)]
pub struct Color {
    pub red: u8,
    pub green: u8,
    pub blue: u8,
    pub alpha: u8,
}

/// The character that may stand in front of the digits.
pub const HEX_MARK: char = '#';

/// Value of the hexadecimal digit `c`, `None` where `c` is no such digit.
pub open spec fn spec_hex_digit(c: char) -> Option<u8> {
    let code = c as u32;
    if 0x30 <= code <= 0x39 {
        Some((code - 0x30) as u8)
    } else if 0x41 <= code <= 0x46 {
        Some((code - 0x41 + 10) as u8)
    } else if 0x61 <= code <= 0x66 {
        Some((code - 0x61 + 10) as u8)
    } else {
        None
    }
}

/// Value of the hexadecimal digit `c`, `None` where `c` is no such digit.
#[verifier::when_used_as_spec(spec_hex_digit)]
pub fn hex_digit(c: char) -> (value: Option<u8>)
    ensures
        value == spec_hex_digit(c),
        value matches Some(v) ==> v < 16,
{
    let code = c as u32;
    if 0x30 <= code && code <= 0x39 {
        Some((code - 0x30) as u8)
    } else if 0x41 <= code && code <= 0x46 {
        Some((code - 0x41 + 10) as u8)
    } else if 0x61 <= code && code <= 0x66 {
        Some((code - 0x61 + 10) as u8)
    } else {
        None
    }
}

/// The digits of a colour text: the text without its leading mark.
pub open spec fn digits_of(text: Seq<char>) -> Seq<char> {
    if text.len() > 0 && text[0] == HEX_MARK {
        text.skip(1)
    } else {
        text
    }
}

/// Whether every character of `digits` is a hexadecimal digit.
pub open spec fn all_hex(digits: Seq<char>) -> bool {
    forall|i: int| 0 <= i < digits.len() ==> hex_digit(#[trigger] digits[i]) is Some
}

/// Value of the digit at position `i`.
pub open spec fn nibble(digits: Seq<char>, i: int) -> int {
    hex_digit(digits[i]).unwrap() as int
}

/// Channel value written by the single digit at position `i`.
pub open spec fn short_channel(digits: Seq<char>, i: int) -> u8 {
    (17 * nibble(digits, i)) as u8
}

/// Channel value written by the two digits at positions `i` and `i + 1`.
pub open spec fn long_channel(digits: Seq<char>, i: int) -> u8 {
    (16 * nibble(digits, i) + nibble(digits, i + 1)) as u8
}

/// The colour that `text` writes in hexadecimal notation, `None` where
/// `text` is not in that notation.
pub open spec fn spec_parse_hex(text: Seq<char>) -> Option<Color> {
    let digits = digits_of(text);
    if !all_hex(digits) {
        None
    } else if digits.len() == 3 {
        Some(
            Color {
                red: short_channel(digits, 0),
                green: short_channel(digits, 1),
                blue: short_channel(digits, 2),
                alpha: 255,
            },
        )
    } else if digits.len() == 4 {
        Some(
            Color {
                red: short_channel(digits, 0),
                green: short_channel(digits, 1),
                blue: short_channel(digits, 2),
                alpha: short_channel(digits, 3),
            },
        )
    } else if digits.len() == 6 {
        Some(
            Color {
                red: long_channel(digits, 0),
                green: long_channel(digits, 2),
                blue: long_channel(digits, 4),
                alpha: 255,
            },
        )
    } else if digits.len() == 8 {
        Some(
            Color {
                red: long_channel(digits, 0),
                green: long_channel(digits, 2),
                blue: long_channel(digits, 4),
                alpha: long_channel(digits, 6),
            },
        )
    } else {
        None
    }
}

/// The colour that `text` writes, white where it writes none.
pub open spec fn spec_parse_hex_or_white(text: Seq<char>) -> Color {
    match spec_parse_hex(text) {
        Some(color) => color,
        None => Color::white(),
    }
}

impl Color {
    /// Opaque white, the colour that stands in for a text that writes none.
    pub open spec fn spec_white() -> Color {
        Color { red: 255, green: 255, blue: 255, alpha: 255 }
    }

    /// Opaque white.
    #[verifier::when_used_as_spec(spec_white)]
    pub fn white() -> (color: Color)
        ensures
            color == Color::spec_white(),
    {
        Color { red: 255, green: 255, blue: 255, alpha: 255 }
    }

    /// Reads a colour in hexadecimal notation.
    pub fn parse_hex(text: &str) -> (parsed: Option<Color>)
        ensures
            parsed == spec_parse_hex(text@),
    {
        let chars = chars_of(text);
        let start: usize = if chars.len() > 0 && chars[0] == HEX_MARK {
            1
        } else {
            0
        };
        let ghost digits = digits_of(text@);
        assert(digits.len() == chars@.len() - start);
        assert(forall|i: int| 0 <= i < digits.len() ==> digits[i] == chars@[start + i]);
        let mut values: Vec<u8> = Vec::new();
        let mut at: usize = start;
        while at < chars.len()
            invariant
                start <= at <= chars@.len(),
                digits == digits_of(text@),
                digits.len() == chars@.len() - start,
                forall|i: int| 0 <= i < digits.len() ==> digits[i] == chars@[start + i],
                values@.len() == at - start,
                forall|i: int|
                    0 <= i < values@.len() ==> hex_digit(#[trigger] digits[i]) == Some(values@[i]),
            decreases chars@.len() - at,
        {
            match hex_digit(chars[at]) {
                Some(value) => {
                    values.push(value);
                },
                None => {
                    assert(hex_digit(digits[at - start]) is None);
                    return None;
                },
            }
            at += 1;
        }
        assert(all_hex(digits));
        assert(forall|i: int| 0 <= i < values@.len() ==> values@[i] == nibble(digits, i) && values@[i] < 16);
        if values.len() == 3 {
            Some(
                Color {
                    red: 17 * values[0],
                    green: 17 * values[1],
                    blue: 17 * values[2],
                    alpha: 255,
                },
            )
        } else if values.len() == 4 {
            Some(
                Color {
                    red: 17 * values[0],
                    green: 17 * values[1],
                    blue: 17 * values[2],
                    alpha: 17 * values[3],
                },
            )
        } else if values.len() == 6 {
            Some(
                Color {
                    red: 16 * values[0] + values[1],
                    green: 16 * values[2] + values[3],
                    blue: 16 * values[4] + values[5],
                    alpha: 255,
                },
            )
        } else if values.len() == 8 {
            Some(
                Color {
                    red: 16 * values[0] + values[1],
                    green: 16 * values[2] + values[3],
                    blue: 16 * values[4] + values[5],
                    alpha: 16 * values[6] + values[7],
                },
            )
        } else {
            None
        }
    }

    /// Reads a colour in hexadecimal notation; a text that writes no colour
    /// gives white.
    pub fn parse_hex_or_white(text: &str) -> (color: Color)
        ensures
            color == spec_parse_hex_or_white(text@),
    {
        match Color::parse_hex(text) {
            Some(color) => color,
            None => Color::white(),
        }
    }
}

} // verus!
