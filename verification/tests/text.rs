use rust2prod::text::{char_is_white_space, decimal_string, str_is_blank};

#[test]
fn white_space_is_what_char_is_whitespace_says() {
    for c in ['\t', '\n', '\u{b}', '\u{c}', '\r', ' ', '\u{85}', '\u{a0}', '\u{1680}', '\u{2000}', '\u{200a}', '\u{2028}', '\u{2029}', '\u{202f}', '\u{205f}', '\u{3000}', 'a', '\u{200b}', '\u{feff}', '_', '\u{0}'] {
        assert_eq!(char_is_white_space(c), c.is_whitespace(), "{:?}", c);
    }
}

#[test]
fn blank_is_trim_is_empty() {
    for s in ["", " ", "\t\n", " a ", "a", "\u{3000}", "\u{3000}x"] {
        assert_eq!(str_is_blank(s), s.trim().is_empty(), "{:?}", s);
    }
}

#[test]
fn decimal_string_matches_display() {
    for n in [0u16, 1, 9, 10, 42, 100, 999, 1000, 5432, 65535] {
        assert_eq!(decimal_string(n), n.to_string());
    }
}
