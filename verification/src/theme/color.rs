//! Colours, as they are written down.

use vstd::prelude::*;
use vstd::string::*;

verus! {

/// A colour, held as the numbers it was written with.
#[derive(Debug, Clone, Copy, PartialEq, Eq)]
pub enum Color {
    /// An opaque colour `0xRRGGBB`.
    Rgb(u32),
    /// A colour with alpha, `0xRRGGBBAA`.
    Rgba(u32),
    /// Hue, saturation, lightness and alpha, each in hundredths: an alpha of
    /// `12` is 0.12, a lightness of `10000` is 100.0.
    Hsla { hue: u32, saturation: u32, lightness: u32, alpha: u32 },
}

/// The value of a hexadecimal digit of either case; `None` for any other
/// character.
pub open spec fn hex_digit(c: char) -> Option<u32> {
    let code = c as u32;
    if 0x30 <= code <= 0x39 {
        Some((code - 0x30) as u32)
    } else if 0x61 <= code <= 0x66 {
        Some((code - 0x61 + 10) as u32)
    } else if 0x41 <= code <= 0x46 {
        Some((code - 0x41 + 10) as u32)
    } else {
        None
    }
}

/// Whether the characters of `text` from `from` up to `to` are all
/// hexadecimal digits.
pub open spec fn hex_digits(text: Seq<char>, from: int, to: int) -> bool {
    forall|i: int| from <= i < to ==> (#[trigger] hex_digit(text[i])) is Some
}

/// The value of the two hexadecimal digits of `text` at `at` and after it.
pub open spec fn hex_pair(text: Seq<char>, at: int) -> int {
    hex_digit(text[at])->0 * 16 + hex_digit(text[at + 1])->0
}

/// The colour that `text` denotes: `#rrggbb` is an opaque colour and
/// `#rrggbbaa` a colour with alpha; nothing else denotes a colour.
pub open spec fn parse_hex(text: Seq<char>) -> Option<Color> {
    if text.len() == 7 && text[0] == '#' && hex_digits(text, 1, 7) {
        Some(
            Color::Rgb(
                (hex_pair(text, 1) * 0x1_0000 + hex_pair(text, 3) * 0x100 + hex_pair(
                    text,
                    5,
                )) as u32,
            ),
        )
    } else if text.len() == 9 && text[0] == '#' && hex_digits(text, 1, 9) {
        Some(
            Color::Rgba(
                (hex_pair(text, 1) * 0x100_0000 + hex_pair(text, 3) * 0x1_0000 + hex_pair(text, 5)
                    * 0x100 + hex_pair(text, 7)) as u32,
            ),
        )
    } else {
        None
    }
}

/// Reads one hexadecimal digit.
fn read_digit(c: char) -> (digit: Option<u32>)
    ensures
        digit == hex_digit(c),
        digit matches Some(value) ==> value < 16,
{
    let code: u32 = c as u32;
    if 0x30 <= code && code <= 0x39 {
        Some(code - 0x30)
    } else if 0x61 <= code && code <= 0x66 {
        Some(code - 0x61 + 10)
    } else if 0x41 <= code && code <= 0x46 {
        Some(code - 0x41 + 10)
    } else {
        None
    }
}

/// Reads the two hexadecimal digits of `text` at `at` and after it.
fn read_pair(text: &str, at: usize) -> (pair: Option<u32>)
    requires
        at <= 7,
        at + 1 < text@.len(),
    ensures
        pair is Some <==> hex_digits(text@, at as int, at + 2),
        pair matches Some(value) ==> value == hex_pair(text@, at as int) && value < 256,
{
    match read_digit(text.get_char(at)) {
        Some(high) => match read_digit(text.get_char(at + 1)) {
            Some(low) => Some(high * 16 + low),
            None => None,
        },
        None => None,
    }
}

impl Color {
    /// The colour that stands in for one that a theme does not give.
    pub open spec fn spec_missing() -> Color {
        Color::Rgb(0xff00ff)
    }

    /// The colour that stands in for one that a theme does not give.
    #[verifier::when_used_as_spec(spec_missing)]
    pub fn missing() -> (color: Color)
        ensures
            color == Self::spec_missing(),
    {
        Color::Rgb(0xff00ff)
    }

    /// The colour that shows nothing.
    pub open spec fn spec_transparent() -> Color {
        Color::Hsla { hue: 0, saturation: 0, lightness: 0, alpha: 0 }
    }

    /// The colour that shows nothing.
    #[verifier::when_used_as_spec(spec_transparent)]
    pub fn transparent() -> (color: Color)
        ensures
            color == Self::spec_transparent(),
    {
        Color::Hsla { hue: 0, saturation: 0, lightness: 0, alpha: 0 }
    }

    /// White at `alpha` hundredths: what is laid over an element to show
    /// that the pointer is on it or that it is pressed.
    pub open spec fn spec_white_overlay(alpha: u32) -> Color {
        Color::Hsla { hue: 0, saturation: 0, lightness: 10000, alpha }
    }

    /// White at `alpha` hundredths.
    #[verifier::when_used_as_spec(spec_white_overlay)]
    pub fn white_overlay(alpha: u32) -> (color: Color)
        ensures
            color == Self::spec_white_overlay(alpha),
    {
        Color::Hsla { hue: 0, saturation: 0, lightness: 10000, alpha }
    }

    /// Reads a colour written as `#rrggbb` or `#rrggbbaa`, in digits of
    /// either case.
    pub fn from_hex(text: &str) -> (parsed: Option<Color>)
        ensures
            parsed == parse_hex(text@),
    {
        let length: usize = text.unicode_len();
        if length != 7 && length != 9 {
            return None;
        }
        if text.get_char(0) != '#' {
            return None;
        }
        let red = read_pair(text, 1);
        let green = read_pair(text, 3);
        let blue = read_pair(text, 5);
        match (red, green, blue) {
            (Some(red), Some(green), Some(blue)) => {
                let opaque: u32 = red * 0x1_0000 + green * 0x100 + blue;
                if length == 7 {
                    Some(Color::Rgb(opaque))
                } else {
                    match read_pair(text, 7) {
                        Some(alpha) => {
                            Some(Color::Rgba(opaque * 0x100 + alpha))
                        },
                        None => None,
                    }
                }
            },
            _ => None,
        }
    }
}

} // verus!
