//! A greeting that exercises the writer: one byte, an ASCII string and a
//! string with a character outside ASCII.

use vstd::prelude::*;
use vstd::string::StringSliceAdditionalSpecFns;
use vstd::utf8::{encode_scalar, encode_utf8};
use crate::buffer::Buffer;
use crate::color::{Color, ColorCode};
use crate::writer::{Console, Writer};

verus! {

/// The bytes of the greeting: `Hello W`, the two bytes that encode `ö`, and
/// `rld!`.
pub open spec fn greeting() -> Seq<u8> {
    seq![0x48u8, 0x65, 0x6C, 0x6C, 0x6F, 0x20, 0x57, 0xC3, 0xB6, 0x72, 0x6C, 0x64, 0x21]
}

proof fn lemma_ascii_part()
    ensures
        "ello ".spec_bytes() == seq![0x65u8, 0x6C, 0x6C, 0x6F, 0x20],
{
    reveal_strlit("ello ");
    let chars = "ello "@;
    vstd::utf8::is_ascii_chars_encode_utf8(chars);
    assert("ello ".spec_bytes() =~= seq![0x65u8, 0x6C, 0x6C, 0x6F, 0x20]);
}

proof fn lemma_accented_part()
    ensures
        "Wörld!".spec_bytes() == seq![0x57u8, 0xC3, 0xB6, 0x72, 0x6C, 0x64, 0x21],
{
    reveal_strlit("Wörld!");
    reveal_strlit("rld!");
    let chars = "Wörld!"@;
    let rest = "rld!"@;
    vstd::utf8::is_ascii_chars_encode_utf8(rest);
    assert(chars.drop_first().drop_first() =~= rest);
    assert(encode_scalar('W' as u32) =~= seq![0x57u8]) by {
        assert((0x57u32 & 0x7F) as u8 == 0x57u8) by (bit_vector);
    }
    assert(encode_scalar('ö' as u32) =~= seq![0xC3u8, 0xB6]) by {
        assert(0xC0u8 | ((0xF6u32 >> 6) & 0x1F) as u8 == 0xC3u8) by (bit_vector);
        assert(0x80u8 | (0xF6u32 & 0x3F) as u8 == 0xB6u8) by (bit_vector);
    }
    reveal_with_fuel(encode_utf8, 3);
    assert(encode_utf8(chars) =~= seq![0x57u8, 0xC3, 0xB6, 0x72, 0x6C, 0x64, 0x21]);
}

/// Writes `Hello Wörld!` in yellow on black over `buffer`, from column 0 of
/// the bottom row: the byte `H`, then `ello `, then `Wörld!`.
pub fn print_something(buffer: Buffer) -> (writer: Writer)
    ensures
        writer@ == (Console {
            column: 0,
            color_code: ColorCode::of(Color::Yellow, Color::Black),
            cells: buffer@,
        }).write_bytes(greeting()),
        writer@.wf(),
{
    let mut writer = Writer::new(Color::Yellow, Color::Black, buffer);
    writer.write_byte(0x48);
    writer.write_string("ello ");
    writer.write_string("Wörld!");
    proof {
        let start = Console {
            column: 0,
            color_code: ColorCode::of(Color::Yellow, Color::Black),
            cells: buffer@,
        };
        lemma_ascii_part();
        lemma_accented_part();
        crate::laws::lemma_write_bytes_single(start, 0x48);
        crate::laws::lemma_write_bytes_concat(start, seq![0x48u8], "ello ".spec_bytes());
        crate::laws::lemma_write_bytes_concat(
            start,
            seq![0x48u8] + "ello ".spec_bytes(),
            "Wörld!".spec_bytes(),
        );
        assert(seq![0x48u8] + "ello ".spec_bytes() + "Wörld!".spec_bytes() =~= greeting());
    }
    writer
}

} // verus!
