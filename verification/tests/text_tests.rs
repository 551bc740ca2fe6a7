use aura::text::{is_blank, strip_prefix, strip_suffix, take_chars, trim_end_matching, trim_str};

#[test]
fn trim_removes_unicode_white_space() {
    assert_eq!(trim_str("  \t hello world \n"), "hello world");
    assert_eq!(trim_str("\u{3000}你好\u{a0}"), "你好");
    assert_eq!(trim_str(" \u{2003} "), "");
    assert_eq!(trim_str("x"), "x");
}

#[test]
fn trim_matches_std_trim() {
    for s in ["", " ", "a b", "\u{85}a\u{2028}", "\u{200b}a", " \u{feff}b "] {
        assert_eq!(trim_str(s), s.trim());
    }
}

#[test]
fn blank_text_is_only_white_space() {
    assert!(is_blank(""));
    assert!(is_blank(" \n\t"));
    assert!(!is_blank(" a "));
}

#[test]
fn strip_prefix_and_suffix() {
    assert_eq!(strip_prefix("data: {}", "data: "), Some("{}".to_string()));
    assert_eq!(strip_prefix("data:{}", "data: "), None);
    assert_eq!(strip_prefix("ab", "abc"), None);
    assert_eq!(strip_suffix("x```", "```"), Some("x".to_string()));
    assert_eq!(strip_suffix("``", "```"), None);
}

#[test]
fn take_chars_counts_characters() {
    assert_eq!(take_chars("héllo", 2), "hé");
    assert_eq!(take_chars("abc", 10), "abc");
    assert_eq!(take_chars("abc", 0), "");
}

#[test]
fn trim_end_matching_removes_all_trailing() {
    assert_eq!(trim_end_matching("https://x/v1///", '/'), "https://x/v1");
    assert_eq!(trim_end_matching("///", '/'), "");
    assert_eq!(trim_end_matching("a/b", '/'), "a/b");
}
