//! RGB colors and their six-digit hexadecimal text form.
use vstd::prelude::*;
use vstd::string::StringSliceAdditionalSpecFns;
use crate::text::{byte_hex_upper, hex_digit_value, hex_upper, hex_value, is_hex_digit, push_byte_hex_upper, string_push};

verus! {

/// An RGB color with one byte per channel.
#[derive(Clone, Copy, Debug, PartialEq, Eq, Structural)]
pub struct RgbColor {
    pub red: u8,
    pub green: u8,
    pub blue: u8,
}

/// Why a text color was rejected.
#[derive(Clone, Copy, Debug, PartialEq, Eq, Structural)]
pub enum ColorParseError {
    /// The text (after an optional `#`) is not exactly six bytes long.
    InvalidLength,
    /// A two-byte channel is not a hexadecimal number.
    InvalidHex,
}

/// ASCII hexadecimal digit byte.
pub open spec fn is_hex_byte(b: u8) -> bool {
    is_hex_digit(b as char)
}

/// What `u8::from_str_radix(text, 16)` gives for the two-byte text `b0 b1`:
/// two hexadecimal digits, or a `+` sign followed by one digit.
pub open spec fn radix16_pair(b0: u8, b1: u8) -> Option<u8> {
    if is_hex_byte(b0) && is_hex_byte(b1) {
        Some((hex_value(b0 as char) * 16 + hex_value(b1 as char)) as u8)
    } else if b0 == 0x2B && is_hex_byte(b1) {
        Some(hex_value(b1 as char) as u8)
    } else {
        None
    }
}

/// The bytes of a color text without one optional leading `#`.
pub open spec fn strip_hash(bytes: Seq<u8>) -> Seq<u8> {
    if bytes.len() > 0 && bytes[0] == 0x23 {
        bytes.drop_first()
    } else {
        bytes
    }
}

/// The color denoted by the UTF-8 bytes of a text such as `FF8000` or `#ff8000`.
pub open spec fn parse_rgb_spec(bytes: Seq<u8>) -> Result<RgbColor, ColorParseError> {
    let hex = strip_hash(bytes);
    if hex.len() != 6 {
        Err(ColorParseError::InvalidLength)
    } else {
        match (
            radix16_pair(hex[0], hex[1]),
            radix16_pair(hex[2], hex[3]),
            radix16_pair(hex[4], hex[5]),
        ) {
            (Some(red), Some(green), Some(blue)) => Ok(RgbColor { red, green, blue }),
            _ => Err(ColorParseError::InvalidHex),
        }
    }
}

/// `#RRGGBB` with upper-case digits.
pub open spec fn color_text(color: RgbColor) -> Seq<char> {
    seq!['#'] + byte_hex_upper(color.red) + byte_hex_upper(color.green) + byte_hex_upper(
        color.blue,
    )
}

fn hex_byte_value(b: u8) -> (v: Option<u8>)
    ensures
        v is Some <==> is_hex_byte(b),
        v matches Some(d) ==> d == hex_value(b as char) && d < 16,
{
    hex_digit_value(b as char)
}

fn parse_pair(b0: u8, b1: u8) -> (v: Option<u8>)
    ensures
        v == radix16_pair(b0, b1),
{
    match (hex_byte_value(b0), hex_byte_value(b1)) {
        (Some(high), Some(low)) => Some(high * 16 + low),
        (None, Some(low)) => {
            if b0 == 0x2B {
                Some(low)
            } else {
                None
            }
        },
        _ => None,
    }
}

impl RgbColor {
    pub fn new(red: u8, green: u8, blue: u8) -> (color: Self)
        ensures
            color == (RgbColor { red, green, blue }),
    {
        RgbColor { red, green, blue }
    }

    /// All channels off.
    pub fn black() -> (color: Self)
        ensures
            color == (RgbColor { red: 0, green: 0, blue: 0 }),
    {
        RgbColor { red: 0, green: 0, blue: 0 }
    }

    /// The channels in red, green, blue order.
    pub fn bytes(self) -> (bytes: [u8; 3])
        ensures
            bytes@ == seq![self.red, self.green, self.blue],
    {
        let bytes = [self.red, self.green, self.blue];
        assert(bytes@ =~= seq![self.red, self.green, self.blue]);
        bytes
    }

    /// Parse six hexadecimal digits with an optional leading `#`.
    pub fn parse(input: &str) -> (res: Result<RgbColor, ColorParseError>)
        ensures
            res == parse_rgb_spec(input.spec_bytes()),
    {
        let all = input.as_bytes();
        let start: usize = if all.len() > 0 && all[0] == 0x23 {
            1
        } else {
            0
        };
        let ghost hex = strip_hash(all@);
        assert(hex =~= all@.subrange(start as int, all@.len() as int));
        if all.len() - start != 6 {
            return Err(ColorParseError::InvalidLength);
        }
        let red = parse_pair(all[start], all[start + 1]);
        let green = parse_pair(all[start + 2], all[start + 3]);
        let blue = parse_pair(all[start + 4], all[start + 5]);
        match (red, green, blue) {
            (Some(red), Some(green), Some(blue)) => Ok(RgbColor { red, green, blue }),
            _ => Err(ColorParseError::InvalidHex),
        }
    }

    /// The color as `#RRGGBB`.
    pub fn to_string(&self) -> (text: String)
        ensures
            text@ == color_text(*self),
    {
        let mut text = String::new();
        string_push(&mut text, '#');
        push_byte_hex_upper(&mut text, self.red);
        push_byte_hex_upper(&mut text, self.green);
        push_byte_hex_upper(&mut text, self.blue);
        text
    }
}

impl std::str::FromStr for RgbColor {
    type Err = ColorParseError;

    /// The same as `RgbColor::parse`.
    fn from_str(input: &str) -> (res: Result<Self, Self::Err>)
        ensures
            res == parse_rgb_spec(input.spec_bytes()),
    {
        RgbColor::parse(input)
    }
}


impl ColorParseError {
    pub fn to_string(&self) -> (text: String)
        ensures
            match self {
                ColorParseError::InvalidLength => text@
                    == "RGB color must contain exactly six hexadecimal digits, for example FF8000"@,
                ColorParseError::InvalidHex => text@ == "RGB color contains a non-hexadecimal digit"@,
            },
    {
        let mut text = String::new();
        match self {
            ColorParseError::InvalidLength => crate::text::string_push_str(
                &mut text,
                "RGB color must contain exactly six hexadecimal digits, for example FF8000",
            ),
            ColorParseError::InvalidHex => crate::text::string_push_str(
                &mut text,
                "RGB color contains a non-hexadecimal digit",
            ),
        }
        text
    }
}

pub(crate) proof fn lemma_hex_upper_digit(n: int)
    requires
        0 <= n < 16,
    ensures
        is_hex_byte(hex_upper(n) as u8),
        hex_value((hex_upper(n) as u8) as char) == n,
        hex_upper(n) as int <= 127,
{
}

/// A color's `#RRGGBB` text parses back to the same color.
pub proof fn lemma_color_text_round_trip(color: RgbColor)
    ensures
        parse_rgb_spec(vstd::utf8::encode_utf8(color_text(color))) == Ok::<RgbColor, ColorParseError>(color),
{
    let text = color_text(color);
    lemma_hex_upper_digit(color.red as int / 16);
    lemma_hex_upper_digit(color.red as int % 16);
    lemma_hex_upper_digit(color.green as int / 16);
    lemma_hex_upper_digit(color.green as int % 16);
    lemma_hex_upper_digit(color.blue as int / 16);
    lemma_hex_upper_digit(color.blue as int % 16);
    assert(text.len() == 7);
    assert(vstd::utf8::is_ascii_chars(text));
    vstd::utf8::is_ascii_chars_encode_utf8(text);
    let bytes = vstd::utf8::encode_utf8(text);
    assert(bytes[0] == 0x23);
    let hex = strip_hash(bytes);
    assert(hex.len() == 6);
    assert(hex[0] == hex_upper(color.red as int / 16) as u8);
    assert(hex[1] == hex_upper(color.red as int % 16) as u8);
    assert(radix16_pair(hex[0], hex[1]) == Some(color.red));
    assert(radix16_pair(hex[2], hex[3]) == Some(color.green));
    assert(radix16_pair(hex[4], hex[5]) == Some(color.blue));
}

} // verus!
