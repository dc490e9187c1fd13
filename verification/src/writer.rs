//! The write cursor: where the next character goes, in which colours, and
//! what happens when a line is full or ends.

use vstd::prelude::*;
use vstd::string::StringSliceAdditionalSpecFns;
use crate::buffer::{
    is_grid, scrolled, with_cell, Buffer, Cells, ScreenChar, BUFFER_HEIGHT, BUFFER_WIDTH,
};
use crate::color::{Color, ColorCode};

verus! {

broadcast use Buffer::lemma_view_is_grid;

/// The byte that ends a line.
pub const NEWLINE: u8 = 0x0A;

/// The character code shown in place of a byte that has no glyph of its own.
pub const PLACEHOLDER: u8 = 0xFE;

/// The character code of an empty cell.
pub const BLANK: u8 = 0x20;

/// What a writer is, as a mathematical value: the cursor's column, the
/// colours in use and the contents of the grid.
pub struct Console {
    pub column: int,
    pub color_code: ColorCode,
    pub cells: Cells,
}

/// `byte` is printable ASCII or the newline.
pub open spec fn is_printable(byte: u8) -> bool {
    0x20 <= byte <= 0x7E || byte == NEWLINE
}

/// The byte that is written for an input byte: the byte itself where it is
/// printable, the placeholder otherwise.
pub open spec fn shown(byte: u8) -> u8 {
    if is_printable(byte) {
        byte
    } else {
        PLACEHOLDER
    }
}

impl Console {
    /// The column lies within the line or just behind it, and the cells have
    /// the shape of the display.
    pub open spec fn wf(self) -> bool {
        &&& 0 <= self.column <= BUFFER_WIDTH
        &&& is_grid(self.cells)
    }

    /// An empty cell in the colours in use.
    pub open spec fn blank(self) -> ScreenChar {
        ScreenChar { ascii_character: BLANK, color_code: self.color_code }
    }

    /// The line-wrap transition: every row moves up by one, the bottom row
    /// becomes blank and the cursor returns to column 0.
    pub open spec fn new_line(self) -> Console {
        Console { column: 0, color_code: self.color_code, cells: scrolled(self.cells, self.blank()) }
    }

    /// The console before a character is placed: wrapped where the line is
    /// full, unchanged otherwise.
    pub open spec fn with_room(self) -> Console {
        if self.column >= BUFFER_WIDTH {
            self.new_line()
        } else {
            self
        }
    }

    /// The console after one byte is written at the cursor.
    pub open spec fn write_byte(self, byte: u8) -> Console {
        if byte == NEWLINE {
            self.new_line()
        } else {
            let room = self.with_room();
            Console {
                column: room.column + 1,
                color_code: room.color_code,
                cells: with_cell(
                    room.cells,
                    BUFFER_HEIGHT - 1,
                    room.column,
                    ScreenChar { ascii_character: byte, color_code: room.color_code },
                ),
            }
        }
    }

    /// The console after a text is written: each byte of it in turn, from
    /// the first to the last, bytes without a glyph replaced by the
    /// placeholder.
    pub open spec fn write_bytes(self, bytes: Seq<u8>) -> Console
        decreases bytes.len(),
    {
        if bytes.len() == 0 {
            self
        } else {
            self.write_bytes(bytes.drop_last()).write_byte(shown(bytes.last()))
        }
    }
}

/// Writes bytes to the bottom row of the display, scrolling as lines fill up
/// or end.
pub struct Writer {
    column_position: usize,
    color_code: ColorCode,
    buffer: Buffer,
}

impl View for Writer {
    type V = Console;

    closed spec fn view(&self) -> Console {
        Console {
            column: self.column_position as int,
            color_code: self.color_code,
            cells: self.buffer@,
        }
    }
}

impl Writer {
    /// The cursor never stands further right than just behind the line.
    #[verifier::type_invariant]
    spec fn column_in_range(self) -> bool {
        self.column_position <= BUFFER_WIDTH
    }

    /// A writer at column 0 that writes `foreground` on `background` over the
    /// cells of `buffer`.
    pub fn new(foreground: Color, background: Color, buffer: Buffer) -> (writer: Writer)
        ensures
            writer@ == (Console {
                column: 0,
                color_code: ColorCode::of(foreground, background),
                cells: buffer@,
            }),
            writer@.wf(),
    {
        Writer { column_position: 0, color_code: ColorCode::new(foreground, background), buffer }
    }

    /// The column at which the next character will be placed; equal to the
    /// width of the display where the line is full.
    pub fn column_position(&self) -> (column: usize)
        ensures
            column == self@.column,
            column <= BUFFER_WIDTH,
    {
        proof {
            use_type_invariant(self);
        }
        self.column_position
    }

    /// The colours in which characters are written.
    pub fn color_code(&self) -> (code: ColorCode)
        ensures
            code == self@.color_code,
    {
        self.color_code
    }

    /// The grid as it stands.
    pub fn buffer(&self) -> (buffer: &Buffer)
        ensures
            buffer@ == self@.cells,
    {
        &self.buffer
    }

    /// The cell at (`row`, `col`), or `None` where that lies off the display.
    pub fn read(&self, row: usize, col: usize) -> (cell: Option<ScreenChar>)
        ensures
            cell == if row < BUFFER_HEIGHT && col < BUFFER_WIDTH {
                Some(self@.cells[row as int][col as int])
            } else {
                None
            },
    {
        self.buffer.read(row, col)
    }

    /// Writes one byte at the cursor. A newline wraps the line; any other
    /// byte is placed in the bottom row, after a wrap where the line is full.
    pub fn write_byte(&mut self, byte: u8)
        ensures
            final(self)@ == old(self)@.write_byte(byte),
            final(self)@.wf(),
    {
        if byte == NEWLINE {
            self.new_line();
        } else {
            if self.column_position >= BUFFER_WIDTH {
                self.new_line();
            }
            let row: usize = BUFFER_HEIGHT - 1;
            let col: usize = self.column_position;
            let color_code = self.color_code;
            proof {
                use_type_invariant(&*self);
            }
            self.buffer.write(row, col, ScreenChar { ascii_character: byte, color_code });
            self.column_position += 1;
        }
    }

    /// Writes a text given as bytes: printable ASCII and newlines as they
    /// are, every other byte as the placeholder.
    pub fn write_bytes(&mut self, bytes: &[u8])
        ensures
            final(self)@ == old(self)@.write_bytes(bytes@),
            final(self)@.wf(),
    {
        proof {
            use_type_invariant(&*self);
        }
        let mut i: usize = 0;
        while i < bytes.len()
            invariant
                i <= bytes.len(),
                self@ == old(self)@.write_bytes(bytes@.take(i as int)),
                self@.wf(),
            decreases bytes.len() - i,
        {
            let byte: u8 = bytes[i];
            proof {
                assert(bytes@.take(i + 1).drop_last() =~= bytes@.take(i as int));
            }
            if (0x20 <= byte && byte <= 0x7E) || byte == NEWLINE {
                self.write_byte(byte);
            } else {
                self.write_byte(PLACEHOLDER);
            }
            i += 1;
        }
        proof {
            assert(bytes@.take(bytes.len() as int) =~= bytes@);
        }
    }

    /// Writes a string byte by byte, so that a character encoded in several
    /// bytes shows as that many placeholders.
    pub fn write_string(&mut self, s: &str)
        ensures
            final(self)@ == old(self)@.write_bytes(s.spec_bytes()),
            final(self)@.wf(),
    {
        self.write_bytes(s.as_bytes());
    }

    /// Moves every row up by one, blanks the bottom row in the colours in use
    /// and returns the cursor to column 0.
    pub fn new_line(&mut self)
        ensures
            final(self)@ == old(self)@.new_line(),
            final(self)@.wf(),
    {
        proof {
            use_type_invariant(&*self);
        }
        let blank = ScreenChar { ascii_character: BLANK, color_code: self.color_code };
        self.buffer.scroll_up(blank);
        self.column_position = 0;
    }
}

} // verus!
