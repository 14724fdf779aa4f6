//! The sixteen palette colours and the packed attribute byte.

use vstd::prelude::*;

verus! {

/// One of the sixteen entries of the display's palette.
#[derive(Debug, Clone, Copy, PartialEq, Eq, Structural)]
pub enum Color {
    Black,
    Blue,
    Green,
    Cyan,
    Red,
    Magenta,
    Brown,
    LightGray,
    DarkGray,
    LightBlue,
    LightGreen,
    LightCyan,
    LightRed,
    Pink,
    Yellow,
    White,
}

impl Color {
    /// The colour's four-bit code on the device.
    pub open spec fn code(self) -> u8 {
        match self {
            Color::Black => 0,
            Color::Blue => 1,
            Color::Green => 2,
            Color::Cyan => 3,
            Color::Red => 4,
            Color::Magenta => 5,
            Color::Brown => 6,
            Color::LightGray => 7,
            Color::DarkGray => 8,
            Color::LightBlue => 9,
            Color::LightGreen => 10,
            Color::LightCyan => 11,
            Color::LightRed => 12,
            Color::Pink => 13,
            Color::Yellow => 14,
            Color::White => 15,
        }
    }

    /// The colour that a four-bit code stands for.
    pub open spec fn of_code(code: u8) -> Color
        recommends
            code < 16,
    {
        if code == 0 {
            Color::Black
        } else if code == 1 {
            Color::Blue
        } else if code == 2 {
            Color::Green
        } else if code == 3 {
            Color::Cyan
        } else if code == 4 {
            Color::Red
        } else if code == 5 {
            Color::Magenta
        } else if code == 6 {
            Color::Brown
        } else if code == 7 {
            Color::LightGray
        } else if code == 8 {
            Color::DarkGray
        } else if code == 9 {
            Color::LightBlue
        } else if code == 10 {
            Color::LightGreen
        } else if code == 11 {
            Color::LightCyan
        } else if code == 12 {
            Color::LightRed
        } else if code == 13 {
            Color::Pink
        } else if code == 14 {
            Color::Yellow
        } else {
            Color::White
        }
    }

    /// Computes [`Color::code`].
    pub fn to_code(self) -> (code: u8)
        ensures
            code == self.code(),
            code < 16,
    {
        match self {
            Color::Black => 0,
            Color::Blue => 1,
            Color::Green => 2,
            Color::Cyan => 3,
            Color::Red => 4,
            Color::Magenta => 5,
            Color::Brown => 6,
            Color::LightGray => 7,
            Color::DarkGray => 8,
            Color::LightBlue => 9,
            Color::LightGreen => 10,
            Color::LightCyan => 11,
            Color::LightRed => 12,
            Color::Pink => 13,
            Color::Yellow => 14,
            Color::White => 15,
        }
    }

    /// The colour with the given code, for codes below sixteen.
    pub fn from_code(code: u8) -> (color: Option<Color>)
        ensures
            code < 16 ==> color == Some(Color::of_code(code)),
            code >= 16 ==> color.is_none(),
            color matches Some(c) ==> c.code() == code,
    {
        match code {
            0 => Some(Color::Black),
            1 => Some(Color::Blue),
            2 => Some(Color::Green),
            3 => Some(Color::Cyan),
            4 => Some(Color::Red),
            5 => Some(Color::Magenta),
            6 => Some(Color::Brown),
            7 => Some(Color::LightGray),
            8 => Some(Color::DarkGray),
            9 => Some(Color::LightBlue),
            10 => Some(Color::LightGreen),
            11 => Some(Color::LightCyan),
            12 => Some(Color::LightRed),
            13 => Some(Color::Pink),
            14 => Some(Color::Yellow),
            15 => Some(Color::White),
            _ => None,
        }
    }
}

/// The attribute byte for a foreground and a background code: background
/// in the high nibble, foreground in the low one.
pub open spec fn pack(foreground: u8, background: u8) -> u8 {
    (background << 4) | foreground
}

/// A foreground and a background colour packed into one attribute byte.
#[derive(Debug, Clone, Copy, PartialEq, Eq, Structural)]
pub struct ColorCode(pub u8);

impl ColorCode {
    /// The attribute byte as the device sees it.
    pub open spec fn byte(self) -> u8 {
        self.0
    }

    /// The colour in the low nibble.
    pub open spec fn spec_foreground(self) -> Color {
        Color::of_code(self.0 & 0x0f)
    }

    /// The colour in the high nibble.
    pub open spec fn spec_background(self) -> Color {
        Color::of_code(self.0 >> 4)
    }

    /// The attribute for `foreground` on `background`.
    pub open spec fn encode(foreground: Color, background: Color) -> ColorCode {
        ColorCode(pack(foreground.code(), background.code()))
    }

    /// Packs `foreground` and `background` into one attribute.
    pub fn new(foreground: Color, background: Color) -> (attribute: ColorCode)
        ensures
            attribute == ColorCode::encode(foreground, background),
            attribute.spec_foreground() == foreground,
            attribute.spec_background() == background,
    {
        let fg: u8 = foreground.to_code();
        let bg: u8 = background.to_code();
        proof {
            lemma_pack_nibbles(fg, bg);
        }
        ColorCode((bg << 4) | fg)
    }

    /// The attribute byte as the device sees it.
    pub fn to_byte(self) -> (byte: u8)
        ensures
            byte == self.byte(),
        no_unwind
    {
        self.0
    }

    /// The colour in the low nibble.
    #[verifier::when_used_as_spec(spec_foreground)]
    pub fn foreground(self) -> (color: Color)
        ensures
            color == self.spec_foreground(),
            color.code() == self.byte() & 0x0f,
    {
        let byte: u8 = self.0;
        let low: u8 = byte & 0x0f;
        assert(low < 16) by (bit_vector)
            requires
                low == byte & 0x0f,
        ;
        match Color::from_code(low) {
            Some(color) => color,
            None => Color::Black,
        }
    }

    /// The colour in the high nibble.
    #[verifier::when_used_as_spec(spec_background)]
    pub fn background(self) -> (color: Color)
        ensures
            color == self.spec_background(),
            color.code() == self.byte() >> 4,
    {
        let byte: u8 = self.0;
        let high: u8 = byte >> 4;
        assert(high < 16) by (bit_vector)
            requires
                high == byte >> 4,
        ;
        match Color::from_code(high) {
            Some(color) => color,
            None => Color::Black,
        }
    }
}

/// Packing two nibbles and taking the byte apart again gives the nibbles
/// back.
pub proof fn lemma_pack_nibbles(foreground: u8, background: u8)
    requires
        foreground < 16,
        background < 16,
    ensures
        pack(foreground, background) & 0x0f == foreground,
        pack(foreground, background) >> 4 == background,
        pack(foreground, background) == background * 16 + foreground,
{
    assert(((background << 4) | foreground) & 0x0f == foreground) by (bit_vector)
        requires
            foreground < 16,
            background < 16,
    ;
    assert(((background << 4) | foreground) >> 4 == background) by (bit_vector)
        requires
            foreground < 16,
            background < 16,
    ;
    assert(((background << 4) | foreground) == background * 16 + foreground) by (bit_vector)
        requires
            foreground < 16,
            background < 16,
    ;
}

/// Encoding a pair of colours and decoding the two nibbles recovers the
/// pair, for every pair of palette colours.
pub proof fn law_encode_decode(foreground: Color, background: Color)
    ensures
        ColorCode::encode(foreground, background).spec_foreground() == foreground,
        ColorCode::encode(foreground, background).spec_background() == background,
        ColorCode::encode(foreground, background).byte() & 0x0f == foreground.code(),
        ColorCode::encode(foreground, background).byte() >> 4 == background.code(),
        ColorCode::encode(foreground, background).byte() == background.code() * 16
            + foreground.code(),
{
    lemma_pack_nibbles(foreground.code(), background.code());
}

} // verus!
