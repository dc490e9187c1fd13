//! The grid of character cells that the display shows.

use vstd::prelude::*;
use crate::color::ColorCode;

verus! {

/// Number of rows of the display.
pub const BUFFER_HEIGHT: usize = 25;

/// Number of columns of the display.
pub const BUFFER_WIDTH: usize = 80;

/// One cell of the display: a character code, then its colour byte.
#[derive(Debug, Clone, Copy, PartialEq, Eq, Structural)]
pub struct ScreenChar {
    pub ascii_character: u8,
    pub color_code: ColorCode,
}

/// The contents of a grid: rows from the top, each row from the left.
pub type Cells = Seq<Seq<ScreenChar>>;

/// `cells` has the shape of the display.
pub open spec fn is_grid(cells: Cells) -> bool {
    &&& cells.len() == BUFFER_HEIGHT
    &&& forall|r: int| 0 <= r < BUFFER_HEIGHT ==> (#[trigger] cells[r]).len() == BUFFER_WIDTH
}

/// A row in which every cell is `fill`.
pub open spec fn uniform_row(fill: ScreenChar) -> Seq<ScreenChar> {
    Seq::new(BUFFER_WIDTH as nat, |c: int| fill)
}

/// `cells` with the cell at (`row`, `col`) replaced by `cell`.
pub open spec fn with_cell(cells: Cells, row: int, col: int, cell: ScreenChar) -> Cells {
    cells.update(row, cells[row].update(col, cell))
}

/// `cells` moved up by one row: each row takes the contents of the row below
/// it, the top row is lost, and the bottom row is filled with `fill`.
pub open spec fn scrolled(cells: Cells, fill: ScreenChar) -> Cells {
    Seq::new(
        BUFFER_HEIGHT as nat,
        |r: int|
            if r + 1 < BUFFER_HEIGHT {
                cells[r + 1]
            } else {
                uniform_row(fill)
            },
    )
}

/// The cells of the display, row by row from the top.
pub struct Buffer {
    chars: [[ScreenChar; BUFFER_WIDTH]; BUFFER_HEIGHT],
}

impl View for Buffer {
    type V = Cells;

    closed spec fn view(&self) -> Cells {
        Seq::new(BUFFER_HEIGHT as nat, |r: int| self.chars@[r]@)
    }
}

impl Buffer {
    /// Every buffer has the shape of the display.
    pub broadcast proof fn lemma_view_is_grid(self)
        ensures
            is_grid(#[trigger] self@),
    {
    }

    /// A buffer in which every cell is `cell`.
    pub fn filled(cell: ScreenChar) -> (buffer: Buffer)
        ensures
            is_grid(buffer@),
            forall|r: int, c: int|
                0 <= r < BUFFER_HEIGHT && 0 <= c < BUFFER_WIDTH ==> buffer@[r][c] == cell,
    {
        Buffer { chars: [[cell; BUFFER_WIDTH]; BUFFER_HEIGHT] }
    }

    /// The cell at (`row`, `col`), or `None` where that lies off the display.
    pub fn read(&self, row: usize, col: usize) -> (cell: Option<ScreenChar>)
        ensures
            cell == if row < BUFFER_HEIGHT && col < BUFFER_WIDTH {
                Some(self@[row as int][col as int])
            } else {
                None
            },
    {
        if row < BUFFER_HEIGHT && col < BUFFER_WIDTH {
            Some(self.chars[row][col])
        } else {
            None
        }
    }

    /// Stores `cell` at (`row`, `col`) and leaves every other cell as it was.
    pub fn write(&mut self, row: usize, col: usize, cell: ScreenChar)
        requires
            row < BUFFER_HEIGHT,
            col < BUFFER_WIDTH,
        ensures
            final(self)@ == with_cell(old(self)@, row as int, col as int, cell),
        no_unwind
    {
        self.chars[row][col] = cell;
        assert(final(self)@ =~= with_cell(old(self)@, row as int, col as int, cell));
    }

    /// Moves every row up by one, drops the top row and fills the bottom row
    /// with `fill`.
    pub fn scroll_up(&mut self, fill: ScreenChar)
        ensures
            final(self)@ == scrolled(old(self)@, fill),
        no_unwind
    {
        let mut row: usize = 1;
        while row < BUFFER_HEIGHT
            invariant
                1 <= row <= BUFFER_HEIGHT,
                forall|r: int|
                    0 <= r < row - 1 ==> #[trigger] self.chars@[r] == old(self).chars@[r + 1],
                forall|r: int|
                    row - 1 <= r < BUFFER_HEIGHT ==> #[trigger] self.chars@[r] == old(
                        self,
                    ).chars@[r],
            decreases BUFFER_HEIGHT - row,
        {
            self.chars[row - 1] = self.chars[row];
            row += 1;
        }
        let mut col: usize = 0;
        while col < BUFFER_WIDTH
            invariant
                col <= BUFFER_WIDTH,
                forall|r: int|
                    0 <= r < BUFFER_HEIGHT - 1 ==> #[trigger] self.chars@[r] == old(
                        self,
                    ).chars@[r + 1],
                forall|c: int|
                    0 <= c < col ==> #[trigger] self.chars@[BUFFER_HEIGHT - 1]@[c] == fill,
            decreases BUFFER_WIDTH - col,
        {
            self.chars[BUFFER_HEIGHT - 1][col] = fill;
            col += 1;
        }
        assert(self.chars@[BUFFER_HEIGHT - 1]@ =~= uniform_row(fill));
        assert(self@ =~= scrolled(old(self)@, fill));
    }
}

} // verus!
