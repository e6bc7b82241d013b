use handy_asr::text::{is_blank, join_with, same_text, take_chars, without_trailing_slashes};

#[test]
fn blank_texts() {
    assert!(is_blank(""));
    assert!(is_blank(" \t\r\n\u{0b}\u{0c}"));
    assert!(is_blank("\u{85}\u{a0}\u{1680}\u{2000}\u{200a}\u{2028}\u{2029}\u{202f}\u{205f}\u{3000}"));
    assert!(!is_blank(" k "));
    assert!(!is_blank("\u{200b}"));
}

#[test]
fn text_equality() {
    assert!(same_text("auto", "auto"));
    assert!(!same_text("auto", "Auto"));
    assert!(!same_text("zh", "zh-CN"));
    assert!(same_text("", ""));
}

#[test]
fn trailing_slashes() {
    assert_eq!(without_trailing_slashes("a/b//"), "a/b");
    assert_eq!(without_trailing_slashes("/a"), "/a");
    assert_eq!(without_trailing_slashes("//"), "");
}

#[test]
fn take_prefix_of_chars() {
    assert_eq!(take_chars("héllo", 2), "hé");
    assert_eq!(take_chars("hi", 10), "hi");
    assert_eq!(take_chars("", 0), "");
}

#[test]
fn joining() {
    let words = vec!["a".to_string(), "b".to_string(), "c".to_string()];
    assert_eq!(join_with(&words, ", "), "a, b, c");
    assert_eq!(join_with(&words[..1], ", "), "a");
    assert_eq!(join_with(&[], ", "), "");
}

#[test]
fn whitespace_matches_std() {
    for u in 0u32..0x3100 {
        if let Some(c) = char::from_u32(u) {
            assert_eq!(handy_asr::text::char_is_whitespace(c), c.is_whitespace(), "U+{:04X}", u);
        }
    }
}

#[test]
fn decimal_matches_to_string() {
    for n in [0u64, 7, 10, 99, 100, 404, 65535, 1234567890, u64::MAX] {
        assert_eq!(handy_asr::text::decimal_text(n), n.to_string());
    }
}
