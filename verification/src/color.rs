//! RGB color values as sent to the device in lighting commands.

use vstd::prelude::*;

verus! {

/// A 24-bit RGB color, one byte per channel.
#[derive(Copy, Clone, Debug, Eq, PartialEq, Hash, Structural)]
pub struct Color {
    pub r: u8,
    pub g: u8,
    pub b: u8,
}

impl Color {
    pub fn new(r: u8, g: u8, b: u8) -> (c: Color)
        ensures
            c == (Color { r, g, b }),
    {
        Color { r, g, b }
    }

    pub fn black() -> (c: Color)
        ensures
            c == (Color { r: 0u8, g: 0u8, b: 0u8 }),
    {
        Color::new(0, 0, 0)
    }

    /// Parses a six-digit hexadecimal color code given as bytes, two digits
    /// per channel; anything else is rejected.
    pub fn from_hex_bytes(digits: &[u8]) -> (c: Option<Color>)
        ensures
            c == spec_color_from_hex(digits@),
    {
        if digits.len() != 6 {
            return None;
        }
        let r_high = match hex_value(digits[0]) {
            Some(v) => v,
            None => {
                return None;
            },
        };
        let r_low = match hex_value(digits[1]) {
            Some(v) => v,
            None => {
                return None;
            },
        };
        let g_high = match hex_value(digits[2]) {
            Some(v) => v,
            None => {
                return None;
            },
        };
        let g_low = match hex_value(digits[3]) {
            Some(v) => v,
            None => {
                return None;
            },
        };
        let b_high = match hex_value(digits[4]) {
            Some(v) => v,
            None => {
                return None;
            },
        };
        let b_low = match hex_value(digits[5]) {
            Some(v) => v,
            None => {
                return None;
            },
        };
        Some(Color { r: 16 * r_high + r_low, g: 16 * g_high + g_low, b: 16 * b_high + b_low })
    }
}

impl Default for Color {
    /// The default color is black: all channels off.
    fn default() -> (c: Color)
        ensures
            c == (Color { r: 0u8, g: 0u8, b: 0u8 }),
    {
        Color::black()
    }
}

impl From<u32> for Color {
    /// Unpacks a packed `0x00rrggbb` value; the top byte is ignored.
    fn from(packed: u32) -> (c: Color)
        ensures
            c == spec_color_from_u32(packed),
    {
        Color {
            r: ((packed / 0x10000) % 0x100) as u8,
            g: ((packed / 0x100) % 0x100) as u8,
            b: (packed % 0x100) as u8,
        }
    }
}

impl vstd::std_specs::convert::FromSpecImpl<u32> for Color {
    open spec fn obeys_from_spec() -> bool {
        true
    }

    open spec fn from_spec(packed: u32) -> Color {
        spec_color_from_u32(packed)
    }
}

/// The color packed into the low three bytes of a 32-bit value.
pub open spec fn spec_color_from_u32(packed: u32) -> Color {
    Color {
        r: ((packed / 0x10000) % 0x100) as u8,
        g: ((packed / 0x100) % 0x100) as u8,
        b: (packed % 0x100) as u8,
    }
}

/// The value of one hexadecimal digit byte, upper or lower case.
pub open spec fn spec_hex_value(digit: u8) -> Option<u8> {
    if 48 <= digit <= 57 {
        Some((digit - 48) as u8)
    } else if 97 <= digit <= 102 {
        Some((digit - 87) as u8)
    } else if 65 <= digit <= 70 {
        Some((digit - 55) as u8)
    } else {
        None
    }
}

fn hex_value(digit: u8) -> (v: Option<u8>)
    ensures
        v == spec_hex_value(digit),
        v matches Some(value) ==> value < 16,
{
    if 48 <= digit && digit <= 57 {
        Some(digit - 48)
    } else if 97 <= digit && digit <= 102 {
        Some(digit - 87)
    } else if 65 <= digit && digit <= 70 {
        Some(digit - 55)
    } else {
        None
    }
}

/// The color a six-digit hexadecimal byte string denotes, if well formed.
pub open spec fn spec_color_from_hex(digits: Seq<u8>) -> Option<Color> {
    if digits.len() == 6 && spec_hex_value(digits[0]) is Some && spec_hex_value(digits[1]) is Some
        && spec_hex_value(digits[2]) is Some && spec_hex_value(digits[3]) is Some && spec_hex_value(
        digits[4],
    ) is Some && spec_hex_value(digits[5]) is Some {
        Some(
            Color {
                r: (16 * spec_hex_value(digits[0])->Some_0 + spec_hex_value(
                    digits[1],
                )->Some_0) as u8,
                g: (16 * spec_hex_value(digits[2])->Some_0 + spec_hex_value(
                    digits[3],
                )->Some_0) as u8,
                b: (16 * spec_hex_value(digits[4])->Some_0 + spec_hex_value(
                    digits[5],
                )->Some_0) as u8,
            },
        )
    } else {
        None
    }
}

} // verus!
