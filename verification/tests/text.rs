use alarm_dot_com::text::{
    chars_of, contains_text, debug_u32_list_text, decimal_text, parse_u32_text, split_text,
    starts_with_text, strip_prefix_text, text_eq, trim_text,
};

#[test]
fn chars_of_lists_characters() {
    assert_eq!(chars_of("añb"), vec!['a', 'ñ', 'b']);
    assert!(chars_of("").is_empty());
}

#[test]
fn text_eq_compares_characters() {
    assert!(text_eq("system", "system"));
    assert!(!text_eq("system", "systems"));
    assert!(!text_eq("abc", "abd"));
    assert!(text_eq("", ""));
}

#[test]
fn contains_text_finds_substrings() {
    assert!(contains_text("https://x/?m=login_fail&y", "m=login_fail"));
    assert!(!contains_text("https://x/home", "m=login_fail"));
    assert!(contains_text("abc", ""));
    assert!(!contains_text("ab", "abc"));
    assert!(contains_text("aab", "ab"));
}

#[test]
fn prefixes_are_stripped() {
    assert!(starts_with_text("afg=123", "afg="));
    assert_eq!(strip_prefix_text("afg=123", "afg="), Some("123"));
    assert_eq!(strip_prefix_text("afg=", "afg="), Some(""));
    assert_eq!(strip_prefix_text("xafg=1", "afg="), None);
}

#[test]
fn trim_removes_unicode_white_space() {
    assert_eq!(trim_text("  afg=1 \t"), "afg=1");
    assert_eq!(trim_text("\u{3000}x y\u{a0}"), "x y");
    assert_eq!(trim_text("   "), "");
    assert_eq!(trim_text(""), "");
}

#[test]
fn split_keeps_empty_pieces() {
    assert_eq!(split_text("a; b;", ';'), vec!["a", " b", ""]);
    assert_eq!(split_text("", ';'), vec![""]);
    assert_eq!(split_text("abc", ';'), vec!["abc"]);
}

#[test]
fn decimal_writes_numbers() {
    assert_eq!(decimal_text(0), "0");
    assert_eq!(decimal_text(409), "409");
    assert_eq!(decimal_text(4294967295), "4294967295");
}

#[test]
fn parse_u32_matches_std() {
    for s in ["0", "401", "+5", "007", "4294967295", "4294967296", "", "+", "-1", "1a", " 1", "٣"] {
        assert_eq!(parse_u32_text(s), s.parse::<u32>().ok(), "input {s:?}");
    }
}

#[test]
fn parse_undoes_decimal_on_examples() {
    for n in [0u32, 7, 10, 401, 65536, 4294967295] {
        assert_eq!(parse_u32_text(&decimal_text(n)), Some(n));
    }
}

#[test]
fn debug_list_matches_std() {
    assert_eq!(debug_u32_list_text(&vec![]), format!("{:?}", Vec::<u32>::new()));
    assert_eq!(debug_u32_list_text(&vec![500]), "[500]");
    assert_eq!(debug_u32_list_text(&vec![500, 7, 0]), format!("{:?}", vec![500u32, 7, 0]));
}
