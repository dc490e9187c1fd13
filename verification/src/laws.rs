//! What holds of the console whatever is written to it.

use vstd::prelude::*;
use crate::buffer::{is_grid, uniform_row, ScreenChar, BUFFER_HEIGHT, BUFFER_WIDTH};
use crate::color::{lemma_pack_round_trip, Color, ColorCode};
use crate::writer::{is_printable, shown, Console, NEWLINE, PLACEHOLDER};

verus! {

/// No byte of `bytes` is the newline.
pub open spec fn no_newline(bytes: Seq<u8>) -> bool {
    forall|i: int| 0 <= i < bytes.len() ==> #[trigger] bytes[i] != NEWLINE
}

/// The cell that shows an input byte in the colours of `console`.
pub open spec fn glyph(console: Console, byte: u8) -> ScreenChar {
    ScreenChar { ascii_character: shown(byte), color_code: console.color_code }
}

/// Writing keeps a console well formed and never changes its colours.
pub proof fn lemma_write_byte_wf(console: Console, byte: u8)
    requires
        console.wf(),
    ensures
        console.write_byte(byte).wf(),
        console.write_byte(byte).color_code == console.color_code,
{
}

/// Writing a text keeps a console well formed and never changes its
/// colours.
pub proof fn lemma_write_bytes_wf(console: Console, bytes: Seq<u8>)
    requires
        console.wf(),
    ensures
        console.write_bytes(bytes).wf(),
        console.write_bytes(bytes).color_code == console.color_code,
    decreases bytes.len(),
{
    if bytes.len() > 0 {
        lemma_write_bytes_wf(console, bytes.drop_last());
        lemma_write_byte_wf(console.write_bytes(bytes.drop_last()), shown(bytes.last()));
    }
}

/// Writing one text after another is writing the two of them joined.
pub proof fn lemma_write_bytes_concat(console: Console, first: Seq<u8>, second: Seq<u8>)
    ensures
        console.write_bytes(first + second) == console.write_bytes(first).write_bytes(second),
    decreases second.len(),
{
    if second.len() == 0 {
        assert(first + second =~= first);
    } else {
        assert((first + second).drop_last() =~= first + second.drop_last());
        lemma_write_bytes_concat(console, first, second.drop_last());
    }
}

/// Writing a text of one byte is writing what is shown for that byte.
pub proof fn lemma_write_bytes_single(console: Console, byte: u8)
    ensures
        console.write_bytes(seq![byte]) == console.write_byte(shown(byte)),
{
    assert(seq![byte].drop_last() =~= Seq::<u8>::empty());
    reveal_with_fuel(Console::write_bytes, 2);
}

/// What is shown for a byte is the byte itself where it is printable ASCII or
/// the newline, and the placeholder for every other byte; only the newline
/// is shown as the newline.
pub proof fn lemma_shown(byte: u8)
    ensures
        is_printable(byte) ==> shown(byte) == byte,
        !is_printable(byte) ==> shown(byte) == PLACEHOLDER,
        shown(byte) == NEWLINE <==> byte == NEWLINE,
{
}

/// A printable byte at the end of a text is written as it is: a newline
/// wraps the line, and any other printable byte stands in the bottom row at
/// the column where the cursor was, after the wrap of a full line, in the
/// colours in use.
pub proof fn lemma_printable_byte_unchanged(console: Console, text: Seq<u8>, byte: u8)
    requires
        console.wf(),
        is_printable(byte),
    ensures
        ({
            let before = console.write_bytes(text);
            let after = console.write_bytes(text.push(byte));
            let room = before.with_room();
            &&& after == before.write_byte(byte)
            &&& byte == NEWLINE ==> after == before.new_line()
            &&& byte != NEWLINE ==> {
                &&& 0 <= room.column < BUFFER_WIDTH
                &&& after.column == room.column + 1
                &&& after.cells[BUFFER_HEIGHT - 1][room.column] == (ScreenChar {
                    ascii_character: byte,
                    color_code: console.color_code,
                })
            }
        }),
{
    assert(text.push(byte).drop_last() =~= text);
    lemma_write_bytes_wf(console, text);
}

/// A byte at the end of a text that is neither printable ASCII nor the
/// newline is written as the placeholder: the placeholder stands in the
/// bottom row at the column where the cursor was, after the wrap of a full
/// line, in the colours in use. The byte itself is stored only where it is
/// the placeholder.
pub proof fn lemma_other_byte_replaced(console: Console, text: Seq<u8>, byte: u8)
    requires
        console.wf(),
        !is_printable(byte),
    ensures
        ({
            let before = console.write_bytes(text);
            let after = console.write_bytes(text.push(byte));
            let room = before.with_room();
            &&& after == before.write_byte(PLACEHOLDER)
            &&& 0 <= room.column < BUFFER_WIDTH
            &&& after.column == room.column + 1
            &&& after.cells[BUFFER_HEIGHT - 1][room.column] == (ScreenChar {
                ascii_character: PLACEHOLDER,
                color_code: console.color_code,
            })
            &&& byte != PLACEHOLDER ==> after.cells[BUFFER_HEIGHT
                - 1][room.column].ascii_character != byte
        }),
{
    assert(text.push(byte).drop_last() =~= text);
    lemma_write_bytes_wf(console, text);
}

/// A newline returns the cursor to column 0 and moves the rows once: each
/// row but the bottom one takes the contents of the row below it, and every
/// cell of the bottom row is blank in the colours in use. A text that is one
/// newline does the same.
pub proof fn lemma_newline_scrolls(console: Console)
    requires
        console.wf(),
    ensures
        ({
            let after = console.write_byte(NEWLINE);
            &&& after == console.write_bytes(seq![NEWLINE])
            &&& after.column == 0
            &&& after.color_code == console.color_code
            &&& is_grid(after.cells)
            &&& forall|r: int|
                0 <= r < BUFFER_HEIGHT - 1 ==> #[trigger] after.cells[r] == console.cells[r + 1]
            &&& forall|c: int|
                0 <= c < BUFFER_WIDTH ==> #[trigger] after.cells[BUFFER_HEIGHT - 1][c]
                    == console.blank()
        }),
{
    lemma_write_bytes_single(console, NEWLINE);
}

/// A character written in the colours packed from a foreground and a
/// background is read back from the cell before the cursor as that
/// character, and the cell's colour byte decodes to the same two colours:
/// the foreground in its low nibble, the background in its high nibble.
pub proof fn lemma_cell_round_trip(
    console: Console,
    foreground: Color,
    background: Color,
    character: u8,
)
    requires
        console.wf(),
        console.color_code == ColorCode::of(foreground, background),
        character != NEWLINE,
    ensures
        ({
            let after = console.write_byte(character);
            let cell = after.cells[BUFFER_HEIGHT - 1][after.column - 1];
            &&& 1 <= after.column <= BUFFER_WIDTH
            &&& cell.ascii_character == character
            &&& cell.color_code.spec_foreground() == foreground
            &&& cell.color_code.spec_background() == background
            &&& cell.color_code.byte() % 16 == foreground.index()
            &&& cell.color_code.byte() / 16 == background.index()
        }),
{
    lemma_pack_round_trip(foreground, background);
}

/// A text without a newline that fits behind the cursor, once the line has
/// been wrapped where it was full, goes into the bottom row from the cursor
/// on and changes nothing else.
pub proof fn lemma_text_after_wrap(console: Console, bytes: Seq<u8>)
    requires
        console.wf(),
        no_newline(bytes),
        bytes.len() > 0,
        console.with_room().column + bytes.len() <= BUFFER_WIDTH,
    ensures
        ({
            let room = console.with_room();
            let after = console.write_bytes(bytes);
            &&& after.wf()
            &&& after.column == room.column + bytes.len()
            &&& after.color_code == console.color_code
            &&& forall|r: int| 0 <= r < BUFFER_HEIGHT - 1 ==> #[trigger] after.cells[r] == room.cells[r]
            &&& forall|c: int|
                0 <= c < BUFFER_WIDTH ==> #[trigger] after.cells[BUFFER_HEIGHT - 1][c] == if room.column
                    <= c < room.column + bytes.len() {
                    glyph(console, bytes[c - room.column])
                } else {
                    room.cells[BUFFER_HEIGHT - 1][c]
                }
        }),
    decreases bytes.len(),
{
    let room = console.with_room();
    let front = bytes.drop_last();
    let before = console.write_bytes(front);
    let after = console.write_bytes(bytes);
    assert(bytes.last() == bytes[bytes.len() - 1]);
    assert(after == before.write_byte(shown(bytes.last())));
    if front.len() == 0 {
        assert(before == console);
    } else {
        lemma_text_after_wrap(console, front);
        assert(before.with_room() == before);
    }
    assert(before.with_room().column == room.column + front.len());
    assert forall|c: int| 0 <= c < BUFFER_WIDTH implies #[trigger] after.cells[BUFFER_HEIGHT
        - 1][c] == if room.column <= c < room.column + bytes.len() {
        glyph(console, bytes[c - room.column])
    } else {
        room.cells[BUFFER_HEIGHT - 1][c]
    } by {
        if room.column <= c < room.column + front.len() {
            assert(front[c - room.column] == bytes[c - room.column]);
        }
    }
}

/// A text without a newline that fits between the cursor and the end of
/// the line leaves the cursor behind its last byte: the column grows by the
/// length of the text, no row moves, and the bottom row holds what is shown
/// for each byte, from the old column on.
pub proof fn lemma_text_within_line(console: Console, bytes: Seq<u8>)
    requires
        console.wf(),
        no_newline(bytes),
        console.column + bytes.len() <= BUFFER_WIDTH,
    ensures
        ({
            let after = console.write_bytes(bytes);
            &&& after.column == console.column + bytes.len()
            &&& after.color_code == console.color_code
            &&& is_grid(after.cells)
            &&& forall|r: int|
                0 <= r < BUFFER_HEIGHT - 1 ==> #[trigger] after.cells[r] == console.cells[r]
            &&& forall|c: int|
                0 <= c < BUFFER_WIDTH ==> #[trigger] after.cells[BUFFER_HEIGHT - 1][c]
                    == if console.column <= c < console.column + bytes.len() {
                    glyph(console, bytes[c - console.column])
                } else {
                    console.cells[BUFFER_HEIGHT - 1][c]
                }
        }),
{
    if bytes.len() > 0 {
        lemma_text_after_wrap(console, bytes);
    }
}

/// A text without a newline, written from column 0 and longer than one line
/// but not longer than two, wraps exactly once: every row moves up by one,
/// the row above the bottom row holds the first line of the text, the bottom
/// row holds the rest of it and then blanks, and the cursor stands behind
/// the rest.
pub proof fn lemma_text_wraps_once(console: Console, bytes: Seq<u8>)
    requires
        console.wf(),
        console.column == 0,
        no_newline(bytes),
        BUFFER_WIDTH < bytes.len() <= 2 * BUFFER_WIDTH,
    ensures
        ({
            let after = console.write_bytes(bytes);
            &&& after.column == bytes.len() - BUFFER_WIDTH
            &&& after.color_code == console.color_code
            &&& is_grid(after.cells)
            &&& forall|r: int|
                0 <= r < BUFFER_HEIGHT - 2 ==> #[trigger] after.cells[r] == console.cells[r + 1]
            &&& forall|c: int|
                0 <= c < BUFFER_WIDTH ==> #[trigger] after.cells[BUFFER_HEIGHT - 2][c] == glyph(
                    console,
                    bytes[c],
                )
            &&& forall|c: int|
                0 <= c < BUFFER_WIDTH ==> #[trigger] after.cells[BUFFER_HEIGHT - 1][c] == if c
                    < bytes.len() - BUFFER_WIDTH {
                    glyph(console, bytes[BUFFER_WIDTH + c])
                } else {
                    console.blank()
                }
        }),
{
    let width = BUFFER_WIDTH as int;
    let head = bytes.take(width);
    let tail = bytes.skip(width);
    assert(bytes =~= head + tail);
    lemma_write_bytes_concat(console, head, tail);
    let full = console.write_bytes(head);
    let after = full.write_bytes(tail);
    assert(after == console.write_bytes(bytes));
    lemma_text_within_line(console, head);
    assert(full.wf());
    assert(full.column == width);
    let room = full.with_room();
    assert(room == full.new_line());
    lemma_text_after_wrap(full, tail);
    assert forall|r: int| 0 <= r < BUFFER_HEIGHT - 2 implies #[trigger] after.cells[r]
        == console.cells[r + 1] by {
        assert(after.cells[r] == room.cells[r]);
        assert(room.cells[r] == full.cells[r + 1]);
    }
    assert forall|c: int| 0 <= c < BUFFER_WIDTH implies #[trigger] after.cells[BUFFER_HEIGHT
        - 2][c] == glyph(console, bytes[c]) by {
        assert(after.cells[BUFFER_HEIGHT - 2] == room.cells[BUFFER_HEIGHT - 2]);
        assert(room.cells[BUFFER_HEIGHT - 2] == full.cells[BUFFER_HEIGHT - 1]);
        assert(head[c] == bytes[c]);
    }
    assert forall|c: int| 0 <= c < BUFFER_WIDTH implies #[trigger] after.cells[BUFFER_HEIGHT
        - 1][c] == if c < bytes.len() - BUFFER_WIDTH {
        glyph(console, bytes[BUFFER_WIDTH + c])
    } else {
        console.blank()
    } by {
        assert(room.cells[BUFFER_HEIGHT - 1] == uniform_row(full.blank()));
        if c < tail.len() {
            assert(tail[c] == bytes[BUFFER_WIDTH + c]);
        }
    }
}

} // verus!
