use zero2axum::text::blank;
use zero2axum::text::char_is_ascii_alphanumeric;
use zero2axum::text::char_is_whitespace;
use zero2axum::text::chars_of;
use zero2axum::text::same_text;
use zero2axum::text::string_of;
use zero2axum::text::sub_chars;

#[test]
fn chars_of_gives_the_characters_in_order() {
    assert_eq!(chars_of("añ🙂"), vec!['a', 'ñ', '🙂']);
    assert_eq!(chars_of(""), Vec::<char>::new());
}

#[test]
fn string_of_gives_the_part_asked_for() {
    let chars = chars_of("user:pass");
    assert_eq!(string_of(&chars, 0, 4), "user");
    assert_eq!(string_of(&chars, 5, 9), "pass");
    assert_eq!(string_of(&chars, 4, 4), "");
    assert_eq!(sub_chars(&chars, 4, 6), vec![':', 'p']);
}

#[test]
fn same_text_compares_characters() {
    assert!(same_text("confirmed", "confirmed"));
    assert!(!same_text("confirmed", "Confirmed"));
    assert!(!same_text("confirmed", "confirmed "));
    assert!(same_text("", ""));
}

#[test]
fn white_space_is_what_the_standard_library_says() {
    for code in 0u32..0x11_0000 {
        if let Some(c) = char::from_u32(code) {
            assert_eq!(char_is_whitespace(c), c.is_whitespace());
            assert_eq!(char_is_ascii_alphanumeric(c), c.is_ascii_alphanumeric());
        }
    }
}

#[test]
fn blank_is_what_trimming_leaves_empty() {
    for text in ["", " ", "\t\n", " a ", "\u{2028}", "\u{200b}", "a"] {
        assert_eq!(blank(&chars_of(text)), text.trim().is_empty());
    }
}
