use term_core::color::ansi_256;
use term_core::color::hex_to_color;
use term_core::color::resolve;
use term_core::color::HexColorError;
use term_core::Color;
use term_core::RGBA;

fn scheme() -> [RGBA; 16] {
    let mut s = [RGBA { r: 0, g: 0, b: 0, a: 255 }; 16];
    for (i, e) in s.iter_mut().enumerate() {
        e.r = (i * 16) as u8;
    }
    s
}

#[test]
fn hex_six_digits() {
    assert_eq!(hex_to_color(b"#dc143c"), Ok(RGBA { r: 0xdc, g: 0x14, b: 0x3c, a: 255 }));
    assert_eq!(hex_to_color(b"#000000"), Ok(RGBA { r: 0, g: 0, b: 0, a: 255 }));
    assert_eq!(hex_to_color(b"#FFD700"), Ok(RGBA { r: 0xff, g: 0xd7, b: 0x00, a: 255 }));
}

#[test]
fn hex_eight_digits_carry_alpha() {
    assert_eq!(hex_to_color(b"#11223344"), Ok(RGBA { r: 0x11, g: 0x22, b: 0x33, a: 0x44 }));
}

#[test]
fn hex_rejects_bad_format() {
    assert_eq!(hex_to_color(b"123456"), Err(HexColorError::Format));
    assert_eq!(hex_to_color(b"#12345"), Err(HexColorError::Format));
    assert_eq!(hex_to_color(b"#1234567"), Err(HexColorError::Format));
    assert_eq!(hex_to_color(b""), Err(HexColorError::Format));
}

#[test]
fn hex_names_first_bad_channel() {
    assert_eq!(hex_to_color(b"#zz0000"), Err(HexColorError::Red));
    assert_eq!(hex_to_color(b"#00zz00"), Err(HexColorError::Green));
    assert_eq!(hex_to_color(b"#0000zz"), Err(HexColorError::Blue));
    assert_eq!(hex_to_color(b"#000000zz"), Err(HexColorError::Alpha));
}

#[test]
fn extended_palette_cube_and_grays() {
    assert_eq!(ansi_256(196), RGBA { r: 255, g: 0, b: 0, a: 255 });
    assert_eq!(ansi_256(21), RGBA { r: 0, g: 0, b: 255, a: 255 });
    assert_eq!(ansi_256(16), RGBA { r: 0, g: 0, b: 0, a: 255 });
    assert_eq!(ansi_256(231), RGBA { r: 255, g: 255, b: 255, a: 255 });
    assert_eq!(ansi_256(232), RGBA { r: 8, g: 8, b: 8, a: 255 });
    assert_eq!(ansi_256(255), RGBA { r: 238, g: 238, b: 238, a: 255 });
    assert_eq!(ansi_256(1), RGBA { r: 128, g: 0, b: 0, a: 255 });
    assert_eq!(ansi_256(15), RGBA { r: 255, g: 255, b: 255, a: 255 });
}

#[test]
fn resolve_each_tier() {
    let s = scheme();
    assert_eq!(resolve(Color::BasePalette(3), &s), s[3]);
    assert_eq!(resolve(Color::ExtendedPalette(196), &s), RGBA { r: 255, g: 0, b: 0, a: 255 });
    let d = RGBA { r: 9, g: 8, b: 7, a: 6 };
    assert_eq!(resolve(Color::Direct(d), &s), d);
}

#[test]
fn palette_round_trip_table() {
    // Codes 30..=37 and 40..=47 against both dark-mode values: the resolved
    // color is the scheme entry of the selected palette half.
    let s = scheme();
    for code in 30..=37u8 {
        let mut t = term_core::term::Terminal::new(1, 2, s);
        t.dark_mode = true;
        t.rendition(vec![code as i64]);
        assert_eq!(resolve(t.fg, &s), s[(code - 30) as usize]);
        t.dark_mode = false;
        t.rendition(vec![code as i64]);
        assert_eq!(resolve(t.fg, &s), s[(code - 30 + 8) as usize]);
    }
    for code in 40..=47u8 {
        let mut t = term_core::term::Terminal::new(1, 2, s);
        t.dark_mode = true;
        t.rendition(vec![code as i64]);
        assert_eq!(resolve(t.bg, &s), s[(code - 40) as usize]);
        t.dark_mode = false;
        t.rendition(vec![code as i64]);
        assert_eq!(resolve(t.bg, &s), s[(code - 40 + 8) as usize]);
    }
}
