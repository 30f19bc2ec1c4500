use rustybara::text::{
    ascii_lower_text, chars_of, decimal_string, parse_u32_text, split_once_text, str_eq,
    trim_text, unescape_text, unquote_text,
};

#[test]
fn decimal_string_renders_numbers() {
    assert_eq!(decimal_string(0), "0");
    assert_eq!(decimal_string(7), "7");
    assert_eq!(decimal_string(42), "42");
    assert_eq!(decimal_string(1000), "1000");
    assert_eq!(decimal_string(u64::MAX), u64::MAX.to_string());
}

#[test]
fn trim_text_matches_str_trim() {
    for s in ["  a b \t\n", "plain", "   ", "", "\u{3000}x\u{a0}", "\u{2028} y \u{85}"] {
        assert_eq!(trim_text(s), s.trim());
    }
}

#[test]
fn unquote_text_strips_quotes_at_both_ends() {
    assert_eq!(unquote_text("\"\"a\"b\"\""), "a\"b");
    assert_eq!(unquote_text("plain"), "plain");
    assert_eq!(unquote_text("\"\"\""), "");
}

#[test]
fn unescape_text_matches_replace() {
    for s in ["my\\ file.pdf", "a\\\\ b", "no escapes", "\\ \\ ", "end\\"] {
        assert_eq!(unescape_text(s), s.replace("\\ ", " "));
    }
}

#[test]
fn split_once_text_splits_at_first_separator() {
    assert_eq!(split_once_text("jpg,150", ','), ("jpg".to_string(), Some("150".to_string())));
    assert_eq!(split_once_text("a,b,c", ','), ("a".to_string(), Some("b,c".to_string())));
    assert_eq!(split_once_text("abc", ','), ("abc".to_string(), None));
    assert_eq!(split_once_text(",x", ','), ("".to_string(), Some("x".to_string())));
}

#[test]
fn ascii_lower_text_lowers_ascii_only() {
    assert_eq!(ascii_lower_text("JpG"), "jpg");
    assert_eq!(ascii_lower_text("\u{c4}B"), "\u{c4}b");
}

#[test]
fn parse_u32_text_matches_std() {
    for s in ["150", "+7", "", "+", "-1", "-0", "4294967295", "4294967296", "12a", "007", " 1", "99999999999"] {
        assert_eq!(parse_u32_text(s), s.parse::<u32>().ok(), "input {s:?}");
    }
}

#[test]
fn str_eq_and_chars_of() {
    assert!(str_eq("k", "k"));
    assert!(!str_eq("k", "K"));
    assert!(!str_eq("rg", "r"));
    assert_eq!(chars_of("h\u{e9}!"), vec!['h', '\u{e9}', '!']);
}

#[test]
fn rendered_numbers_parse_back() {
    for n in [0u32, 9, 10, 150, 65535, u32::MAX] {
        assert_eq!(parse_u32_text(&decimal_string(n as u64)), Some(n));
    }
}
