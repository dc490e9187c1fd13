//! The sixteen-colour palette and the packed colour byte of a cell.

use vstd::prelude::*;

verus! {

/// One of the sixteen palette entries, usable as foreground or background.
#[derive(Debug, Clone, Copy, PartialEq, Eq, Structural)]
pub enum Color {
    Black,
    Blue,
    Green,
    Cyan,
    Red,
    Magenta,
    Brown,
    LightGray,
    DarkGray,
    LightBlue,
    LightGreen,
    LightCyan,
    LightRed,
    Pink,
    Yellow,
    White,
}

impl Color {
    /// The palette index of a colour, from 0 (black) to 15 (white).
    pub open spec fn index(self) -> u8 {
        match self {
            Color::Black => 0,
            Color::Blue => 1,
            Color::Green => 2,
            Color::Cyan => 3,
            Color::Red => 4,
            Color::Magenta => 5,
            Color::Brown => 6,
            Color::LightGray => 7,
            Color::DarkGray => 8,
            Color::LightBlue => 9,
            Color::LightGreen => 10,
            Color::LightCyan => 11,
            Color::LightRed => 12,
            Color::Pink => 13,
            Color::Yellow => 14,
            Color::White => 15,
        }
    }

    /// The colour that a palette index selects; only the low four bits of
    /// `n` are looked at.
    pub open spec fn of_index(n: u8) -> Color {
        let k = n % 16;
        if k == 0 {
            Color::Black
        } else if k == 1 {
            Color::Blue
        } else if k == 2 {
            Color::Green
        } else if k == 3 {
            Color::Cyan
        } else if k == 4 {
            Color::Red
        } else if k == 5 {
            Color::Magenta
        } else if k == 6 {
            Color::Brown
        } else if k == 7 {
            Color::LightGray
        } else if k == 8 {
            Color::DarkGray
        } else if k == 9 {
            Color::LightBlue
        } else if k == 10 {
            Color::LightGreen
        } else if k == 11 {
            Color::LightCyan
        } else if k == 12 {
            Color::LightRed
        } else if k == 13 {
            Color::Pink
        } else if k == 14 {
            Color::Yellow
        } else {
            Color::White
        }
    }

    /// Returns the palette index of the colour.
    pub fn code(self) -> (n: u8)
        ensures
            n == self.index(),
            n < 16,
    {
        match self {
            Color::Black => 0,
            Color::Blue => 1,
            Color::Green => 2,
            Color::Cyan => 3,
            Color::Red => 4,
            Color::Magenta => 5,
            Color::Brown => 6,
            Color::LightGray => 7,
            Color::DarkGray => 8,
            Color::LightBlue => 9,
            Color::LightGreen => 10,
            Color::LightCyan => 11,
            Color::LightRed => 12,
            Color::Pink => 13,
            Color::Yellow => 14,
            Color::White => 15,
        }
    }

    /// Returns the colour selected by the low four bits of `n`.
    pub fn from_code(n: u8) -> (c: Color)
        ensures
            c == Color::of_index(n),
            c.index() == n % 16,
    {
        let k: u8 = n % 16;
        if k == 0 {
            Color::Black
        } else if k == 1 {
            Color::Blue
        } else if k == 2 {
            Color::Green
        } else if k == 3 {
            Color::Cyan
        } else if k == 4 {
            Color::Red
        } else if k == 5 {
            Color::Magenta
        } else if k == 6 {
            Color::Brown
        } else if k == 7 {
            Color::LightGray
        } else if k == 8 {
            Color::DarkGray
        } else if k == 9 {
            Color::LightBlue
        } else if k == 10 {
            Color::LightGreen
        } else if k == 11 {
            Color::LightCyan
        } else if k == 12 {
            Color::LightRed
        } else if k == 13 {
            Color::Pink
        } else if k == 14 {
            Color::Yellow
        } else {
            Color::White
        }
    }
}

/// The colour byte of a cell: foreground in the low nibble, background in
/// the high nibble.
#[derive(Debug, Clone, Copy, PartialEq, Eq, Structural)]
pub struct ColorCode(u8);

/// The byte that packs a foreground and a background palette index:
/// background times sixteen, plus foreground.
pub open spec fn pack(foreground: u8, background: u8) -> u8 {
    (background * 16 + foreground) as u8
}

impl ColorCode {
    /// The packed byte.
    pub closed spec fn byte(self) -> u8 {
        self.0
    }

    /// The colour code whose packed byte is `byte`.
    pub closed spec fn of_byte(byte: u8) -> ColorCode {
        ColorCode(byte)
    }

    /// The colour code of a foreground on a background.
    pub open spec fn of(foreground: Color, background: Color) -> ColorCode {
        ColorCode::of_byte(pack(foreground.index(), background.index()))
    }

    /// The colour held in the low nibble.
    pub open spec fn spec_foreground(self) -> Color {
        Color::of_index(self.byte() % 16)
    }

    /// The colour held in the high nibble.
    pub open spec fn spec_background(self) -> Color {
        Color::of_index(self.byte() / 16)
    }

    /// Packs a foreground and a background colour into one byte.
    pub fn new(foreground: Color, background: Color) -> (code: ColorCode)
        ensures
            code == ColorCode::of(foreground, background),
            code.byte() == pack(foreground.index(), background.index()),
    {
        let f: u8 = foreground.code();
        let b: u8 = background.code();
        assert((b << 4 | f) == b * 16 + f) by (bit_vector)
            requires
                f < 16,
                b < 16,
        ;
        ColorCode(b << 4 | f)
    }

    /// Wraps a colour byte read back from the display.
    pub fn from_byte(byte: u8) -> (code: ColorCode)
        ensures
            code == ColorCode::of_byte(byte),
            code.byte() == byte,
    {
        ColorCode(byte)
    }

    /// Returns the packed byte as the display stores it.
    pub fn as_byte(self) -> (n: u8)
        ensures
            n == self.byte(),
    {
        self.0
    }

    /// Decodes the foreground colour.
    pub fn foreground(self) -> (c: Color)
        ensures
            c == self.spec_foreground(),
            c.index() == self.byte() % 16,
    {
        Color::from_code(self.0 % 16)
    }

    /// Decodes the background colour.
    pub fn background(self) -> (c: Color)
        ensures
            c == self.spec_background(),
            c.index() == self.byte() / 16,
    {
        Color::from_code(self.0 / 16)
    }
}

/// Packing then decoding gives back both colours, and the packed byte holds
/// the foreground in its low nibble and the background in its high nibble.
pub proof fn lemma_pack_round_trip(foreground: Color, background: Color)
    ensures
        ColorCode::of(foreground, background).spec_foreground() == foreground,
        ColorCode::of(foreground, background).spec_background() == background,
        ColorCode::of(foreground, background).byte() % 16 == foreground.index(),
        ColorCode::of(foreground, background).byte() / 16 == background.index(),
{
}

} // verus!
