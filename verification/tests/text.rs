use vueko::text::{chars_of, is_whitespace, next_word, same_chars, same_text};

#[test]
fn whitespace_is_what_the_standard_library_calls_whitespace() {
    let mut code: u32 = 0;
    while code <= 0x10FFFF {
        if let Some(c) = char::from_u32(code) {
            assert_eq!(is_whitespace(c), c.is_whitespace(), "U+{:04X}", code);
        }
        code += 1;
    }
}

#[test]
fn chars_of_lists_the_characters() {
    assert_eq!(chars_of(""), Vec::<char>::new());
    assert_eq!(chars_of("a b"), vec!['a', ' ', 'b']);
    assert_eq!(chars_of("h\u{e9}\u{1f600}!"), vec!['h', '\u{e9}', '\u{1f600}', '!']);
}

#[test]
fn same_text_compares_by_characters() {
    assert!(same_text("", ""));
    assert!(same_text("mpv", "mpv"));
    assert!(!same_text("mpv", "mpV"));
    assert!(!same_text("mpv", "mpvx"));
    assert!(!same_text("mpv", "mp"));
    assert!(same_chars(&['a', 'b'], &['a', 'b']));
    assert!(!same_chars(&['a', 'b'], &['b', 'a']));
}

#[test]
fn next_word_finds_the_word_and_its_end() {
    let chars = chars_of("  one two\tthree ");
    assert_eq!(next_word(&chars, 0), Some((2, 5)));
    assert_eq!(next_word(&chars, 2), Some((2, 5)));
    assert_eq!(next_word(&chars, 3), Some((3, 5)));
    assert_eq!(next_word(&chars, 5), Some((6, 9)));
    assert_eq!(next_word(&chars, 9), Some((10, 15)));
    assert_eq!(next_word(&chars, 15), None);
    assert_eq!(next_word(&chars, 16), None);
}

#[test]
fn next_word_of_blank_text_is_none() {
    assert_eq!(next_word(&chars_of(""), 0), None);
    assert_eq!(next_word(&chars_of(" \t\n\u{3000}"), 0), None);
}

#[test]
fn next_word_counts_characters_not_bytes() {
    let chars = chars_of("\u{e9}\u{e9} \u{1f600}x");
    assert_eq!(next_word(&chars, 0), Some((0, 2)));
    assert_eq!(next_word(&chars, 2), Some((3, 5)));
}
