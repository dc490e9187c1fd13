use vga_buffer::color::{Color, ColorCode};

const PALETTE: [Color; 16] = [
    Color::Black,
    Color::Blue,
    Color::Green,
    Color::Cyan,
    Color::Red,
    Color::Magenta,
    Color::Brown,
    Color::LightGray,
    Color::DarkGray,
    Color::LightBlue,
    Color::LightGreen,
    Color::LightCyan,
    Color::LightRed,
    Color::Pink,
    Color::Yellow,
    Color::White,
];

#[test]
fn palette_indices_run_from_0_to_15() {
    for (expected, color) in PALETTE.iter().enumerate() {
        assert_eq!(color.code() as usize, expected);
    }
}

#[test]
fn named_palette_indices() {
    assert_eq!(Color::Black.code(), 0);
    assert_eq!(Color::Blue.code(), 1);
    assert_eq!(Color::Red.code(), 4);
    assert_eq!(Color::LightGray.code(), 7);
    assert_eq!(Color::DarkGray.code(), 8);
    assert_eq!(Color::Yellow.code(), 14);
    assert_eq!(Color::White.code(), 15);
}

#[test]
fn from_code_inverts_code() {
    for color in PALETTE.iter() {
        assert_eq!(Color::from_code(color.code()), *color);
    }
}

#[test]
fn from_code_looks_at_low_nibble_only() {
    assert_eq!(Color::from_code(0x10), Color::Black);
    assert_eq!(Color::from_code(0x1E), Color::Yellow);
    assert_eq!(Color::from_code(0xFF), Color::White);
    for n in 0u8..=255 {
        assert_eq!(Color::from_code(n).code(), n % 16);
    }
}

#[test]
fn yellow_on_black_packs_to_0x0e() {
    assert_eq!(ColorCode::new(Color::Yellow, Color::Black).as_byte(), 0x0E);
}

#[test]
fn packing_puts_background_in_high_nibble() {
    assert_eq!(ColorCode::new(Color::Black, Color::Yellow).as_byte(), 0xE0);
    assert_eq!(ColorCode::new(Color::White, Color::Blue).as_byte(), 0x1F);
    assert_eq!(ColorCode::new(Color::Black, Color::Black).as_byte(), 0x00);
    assert_eq!(ColorCode::new(Color::White, Color::White).as_byte(), 0xFF);
    assert_eq!(ColorCode::new(Color::LightGray, Color::Red).as_byte(), 0x47);
}

#[test]
fn every_pair_packs_and_decodes() {
    for fg in PALETTE.iter() {
        for bg in PALETTE.iter() {
            let code = ColorCode::new(*fg, *bg);
            assert_eq!(code.as_byte(), bg.code() * 16 + fg.code());
            assert_eq!(code.as_byte() & 0x0F, fg.code());
            assert_eq!(code.as_byte() >> 4, bg.code());
            assert_eq!(code.foreground(), *fg);
            assert_eq!(code.background(), *bg);
        }
    }
}

#[test]
fn from_byte_keeps_the_byte() {
    for n in 0u8..=255 {
        let code = ColorCode::from_byte(n);
        assert_eq!(code.as_byte(), n);
        assert_eq!(code.foreground().code(), n % 16);
        assert_eq!(code.background().code(), n / 16);
    }
    assert_eq!(ColorCode::from_byte(0x0E), ColorCode::new(Color::Yellow, Color::Black));
}
