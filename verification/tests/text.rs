use image_publisher::text::{
    chars_of, decimal_text, equal, has_suffix, is_whitespace, trimmed, without_trailing,
};

#[test]
fn chars_of_keeps_every_character_in_order() {
    assert_eq!(chars_of(""), Vec::<char>::new());
    assert_eq!(chars_of("a`é\u{3000}"), vec!['a', '`', 'é', '\u{3000}']);
}

#[test]
fn whitespace_agrees_with_the_standard_library_on_every_character() {
    let mut code: u32 = 0;
    while code <= 0x10FFFF {
        if let Some(c) = char::from_u32(code) {
            assert_eq!(is_whitespace(c), c.is_whitespace(), "U+{:04X}", code);
        }
        code += 1;
    }
}

#[test]
fn trimmed_drops_white_space_at_both_ends_only() {
    assert_eq!(trimmed("  a b  "), "a b");
    assert_eq!(trimmed("\n\t{\"k\": 1}\r\n"), "{\"k\": 1}");
    assert_eq!(trimmed("\u{a0}\u{2003}x\u{3000}"), "x");
    assert_eq!(trimmed("x"), "x");
}

#[test]
fn trimmed_of_blank_text_is_empty() {
    assert_eq!(trimmed(""), "");
    assert_eq!(trimmed(" \n\t "), "");
}

#[test]
fn trimmed_agrees_with_the_standard_library() {
    for s in ["", " ", "a", " a", "a ", " é ", "\u{1680}a\u{1680}b\u{1680}", "\u{200b} a"] {
        assert_eq!(trimmed(s), s.trim());
    }
}

#[test]
fn without_trailing_drops_the_whole_run() {
    assert_eq!(without_trailing("https://site/", '/'), "https://site");
    assert_eq!(without_trailing("https://site///", '/'), "https://site");
    assert_eq!(without_trailing("https://site", '/'), "https://site");
    assert_eq!(without_trailing("/a/b", '/'), "/a/b");
    assert_eq!(without_trailing("///", '/'), "");
    assert_eq!(without_trailing("", '/'), "");
}

#[test]
fn has_suffix_compares_the_end() {
    assert!(has_suffix("x.webp", ".webp"));
    assert!(has_suffix(".webp", ".webp"));
    assert!(!has_suffix("webp", ".webp"));
    assert!(!has_suffix("x.webp ", ".webp"));
    assert!(has_suffix("anything", ""));
    assert!(has_suffix("", ""));
    assert!(!has_suffix("", "a"));
}

#[test]
fn decimal_text_writes_numbers_without_leading_zeros() {
    assert_eq!(decimal_text(0), "0");
    assert_eq!(decimal_text(7), "7");
    assert_eq!(decimal_text(10), "10");
    assert_eq!(decimal_text(42), "42");
    assert_eq!(decimal_text(1005), "1005");
    assert_eq!(decimal_text(u64::MAX), "18446744073709551615");
}

#[test]
fn equal_compares_texts() {
    assert!(equal("", ""));
    assert!(equal("site-1", "site-1"));
    assert!(!equal("site-1", "site-2"));
    assert!(!equal("site", "site-1"));
    assert!(!equal("Site", "site"));
}
