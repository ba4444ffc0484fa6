//! Colors as four 8-bit channels, and the hexadecimal notation they are
//! written in on the wire.

use vstd::prelude::*;
use vstd::string::StrSliceExecFns;

verus! {

/// A color in sRGB: red, green, blue and opacity, each from 0 to 255.
#[derive(Clone, Copy, Debug, PartialEq, Eq, Structural)]
pub struct Color {
    pub red: u8,
    pub green: u8,
    pub blue: u8,
    pub alpha: u8,
}

/// Why a text denotes no color: it is not three, four, six or eight
/// hexadecimal digits after an optional `#`.
#[derive(Clone, Copy, Debug, PartialEq, Eq, Structural)]
pub struct ColorDecodeError;

/// The value of one hexadecimal digit, in either case.
pub open spec fn digit_value(c: char) -> Option<int> {
    if '0' <= c <= '9' {
        Some(c as int - '0' as int)
    } else if 'a' <= c <= 'f' {
        Some(c as int - 'a' as int + 10)
    } else if 'A' <= c <= 'F' {
        Some(c as int - 'A' as int + 10)
    } else {
        None
    }
}

/// Every character of `digits` is a hexadecimal digit.
pub open spec fn all_hex_digits(digits: Seq<char>) -> bool {
    forall|i: int| 0 <= i < digits.len() ==> (#[trigger] digit_value(digits[i])) is Some
}

/// The channel that two hexadecimal digits spell, high digit first.
pub open spec fn channel(high: char, low: char) -> u8 {
    (digit_value(high).unwrap() * 16 + digit_value(low).unwrap()) as u8
}

/// `text` without its leading `#`, where it has one.
pub open spec fn hex_body(text: Seq<char>) -> Seq<char> {
    if text.len() > 0 && text[0] == '#' {
        text.skip(1)
    } else {
        text
    }
}

/// The color that `text` denotes, if it denotes one.
///
/// After an optional `#` come three, four, six or eight hexadecimal digits:
/// `RGB`, `RGBA`, `RRGGBB` or `RRGGBBAA`. In the short forms each digit stands
/// for itself twice; without an `A` part the color is opaque.
pub open spec fn hex_color(text: Seq<char>) -> Option<Color> {
    let d = hex_body(text);
    if !all_hex_digits(d) {
        None
    } else if d.len() == 3 {
        Some(Color { red: channel(d[0], d[0]), green: channel(d[1], d[1]), blue: channel(d[2], d[2]), alpha: 255 })
    } else if d.len() == 4 {
        Some(Color { red: channel(d[0], d[0]), green: channel(d[1], d[1]), blue: channel(d[2], d[2]), alpha: channel(d[3], d[3]) })
    } else if d.len() == 6 {
        Some(Color { red: channel(d[0], d[1]), green: channel(d[2], d[3]), blue: channel(d[4], d[5]), alpha: 255 })
    } else if d.len() == 8 {
        Some(Color { red: channel(d[0], d[1]), green: channel(d[2], d[3]), blue: channel(d[4], d[5]), alpha: channel(d[6], d[7]) })
    } else {
        None
    }
}

/// The color that stands in for one that could not be read: deep pink.
pub open spec fn sentinel() -> Color {
    Color { red: 255, green: 20, blue: 147, alpha: 255 }
}

/// The color that `text` denotes, and the sentinel where it denotes none.
pub open spec fn resolved_color(text: Seq<char>) -> Color {
    match hex_color(text) {
        Some(color) => color,
        None => sentinel(),
    }
}

/// The value of the hexadecimal digit with ASCII code `byte`.
fn nibble(byte: u8) -> (r: Option<u8>)
    ensures
        match r {
            Some(v) => digit_value(byte as char) == Some(v as int) && v < 16,
            None => digit_value(byte as char) is None,
        },
{
    if 0x30 <= byte && byte <= 0x39 {
        Some(byte - 0x30)
    } else if 0x61 <= byte && byte <= 0x66 {
        Some(byte - 0x61 + 10)
    } else if 0x41 <= byte && byte <= 0x46 {
        Some(byte - 0x41 + 10)
    } else {
        None
    }
}

impl Color {
    /// The fallback color, see [`sentinel`].
    pub fn fallback() -> (color: Color)
        ensures
            color == sentinel(),
    {
        Color { red: 255, green: 20, blue: 147, alpha: 255 }
    }

    /// Reads a color in hexadecimal notation.
    pub fn hex(text: &str) -> (r: Result<Color, ColorDecodeError>)
        ensures
            match r {
                Ok(color) => hex_color(text@) == Some(color),
                Err(_) => hex_color(text@) is None,
            },
    {
        broadcast use vstd::string::is_ascii_spec_bytes;

        if !text.is_ascii() {
            proof {
                let i = choose|i: int| 0 <= i < text@.len() && !('\0' <= #[trigger] text@[i] <= '\u{7f}');
                assert(i > 0 || text@[0] != '#');
                if text@[0] == '#' {
                    assert(hex_body(text@)[i - 1] == text@[i]);
                    assert(digit_value(hex_body(text@)[i - 1]) is None);
                } else {
                    assert(digit_value(hex_body(text@)[i]) is None);
                }
            }
            return Err(ColorDecodeError);
        }
        let len = text.unicode_len();
        let start: usize = if len > 0 && text.get_ascii(0) == 0x23 { 1 } else { 0 };
        let ghost body = hex_body(text@);
        assert(body == text@.skip(start as int));
        let mut values: Vec<u8> = Vec::new();
        let mut i: usize = start;
        while i < len
            invariant
                start <= i <= len,
                len == text@.len(),
                text.is_ascii(),
                body == text@.skip(start as int),
                body == hex_body(text@),
                values.len() == i - start,
                forall|k: int| 0 <= k < values.len() ==> digit_value(body[k]) == Some(#[trigger] values[k] as int) && values[k] < 16,
            decreases len - i,
        {
            let byte = text.get_ascii(i);
            assert(byte as char == text@[i as int]);
            assert(body[i - start] == text@[i as int]);
            match nibble(byte) {
                Some(v) => {
                    values.push(v);
                },
                None => {
                    assert(digit_value(body[i - start]) is None);
                    return Err(ColorDecodeError);
                },
            }
            i += 1;
        }
        assert(all_hex_digits(body)) by {
            assert forall|k: int| 0 <= k < body.len() implies (#[trigger] digit_value(body[k])) is Some by {
                assert(values[k] < 16);
            }
        }
        let count = values.len();
        if count == 3 {
            Ok(Color {
                red: values[0] * 16 + values[0],
                green: values[1] * 16 + values[1],
                blue: values[2] * 16 + values[2],
                alpha: 255,
            })
        } else if count == 4 {
            Ok(Color {
                red: values[0] * 16 + values[0],
                green: values[1] * 16 + values[1],
                blue: values[2] * 16 + values[2],
                alpha: values[3] * 16 + values[3],
            })
        } else if count == 6 {
            Ok(Color {
                red: values[0] * 16 + values[1],
                green: values[2] * 16 + values[3],
                blue: values[4] * 16 + values[5],
                alpha: 255,
            })
        } else if count == 8 {
            Ok(Color {
                red: values[0] * 16 + values[1],
                green: values[2] * 16 + values[3],
                blue: values[4] * 16 + values[5],
                alpha: values[6] * 16 + values[7],
            })
        } else {
            Err(ColorDecodeError)
        }
    }

    /// Reads a color in hexadecimal notation; what cannot be read becomes the
    /// fallback color.
    pub fn resolve(text: &str) -> (color: Color)
        ensures
            color == resolved_color(text@),
    {
        match Color::hex(text) {
            Ok(color) => color,
            Err(_) => Color::fallback(),
        }
    }
}

} // verus!
