use game_master::color::{Color, ColorDecodeError};

#[test]
fn hex_reads_all_four_forms() {
    assert_eq!(Color::hex("#FF0000"), Ok(Color { red: 255, green: 0, blue: 0, alpha: 255 }));
    assert_eq!(Color::hex("1a2B3c"), Ok(Color { red: 0x1a, green: 0x2b, blue: 0x3c, alpha: 255 }));
    assert_eq!(Color::hex("#12345678"), Ok(Color { red: 0x12, green: 0x34, blue: 0x56, alpha: 0x78 }));
    assert_eq!(Color::hex("#abc"), Ok(Color { red: 0xaa, green: 0xbb, blue: 0xcc, alpha: 255 }));
    assert_eq!(Color::hex("#abcd"), Ok(Color { red: 0xaa, green: 0xbb, blue: 0xcc, alpha: 0xdd }));
    assert_eq!(Color::hex("000"), Ok(Color { red: 0, green: 0, blue: 0, alpha: 255 }));
}

#[test]
fn hex_refuses_what_is_no_color() {
    for text in ["", "#", "#1", "#12", "#12345", "#1234567", "#123456789", "#GG0000", "##FF0000", "red", "#FF00 0", " #FF0000", "#ff00é0", "é", "€", "#€"] {
        assert_eq!(Color::hex(text), Err(ColorDecodeError), "{:?}", text);
    }
}

#[test]
fn resolve_substitutes_the_fallback() {
    assert_eq!(Color::resolve("#00FF00"), Color { red: 0, green: 255, blue: 0, alpha: 255 });
    assert_eq!(Color::resolve("green"), Color { red: 255, green: 20, blue: 147, alpha: 255 });
    assert_eq!(Color::fallback(), Color { red: 255, green: 20, blue: 147, alpha: 255 });
}
