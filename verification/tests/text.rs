use gantry_backend::text::{trim, text_less};

#[test]
fn trim_removes_unicode_white_space_at_both_ends() {
    assert_eq!(trim("  \t padded \n"), "padded");
    assert_eq!(trim("\u{3000}x\u{2028}"), "x");
    assert_eq!(trim("\u{200B}x"), "\u{200B}x");
    assert_eq!(trim("a b"), "a b");
    assert_eq!(trim(""), "");
}

#[test]
fn white_space_agrees_with_char_is_whitespace() {
    for c in (0u32..=0x10FFFF).filter_map(char::from_u32) {
        let s = c.to_string();
        assert_eq!(trim(&s).is_empty(), c.is_whitespace(), "U+{:04X}", c as u32);
    }
}

#[test]
fn texts_order_by_code_points() {
    assert!(text_less("gantry_board_20240101_000000.db", "gantry_board_20240102_000000.db"));
    assert!(text_less("ab", "abc"));
    assert!(!text_less("b", "ab"));
    assert!(!text_less("x", "x"));
}
