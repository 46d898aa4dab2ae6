use agentctl::text::{
    contains_str, fmt_i64, fmt_zero_padded3, join, lines_of, parse_u32_chars, replace_first_str, split_once_char,
    trim_str,
};

#[test]
fn text_helpers_behave_like_std() {
    assert_eq!(trim_str("\u{3000} a b \t\n"), "a b");
    assert_eq!(fmt_i64(i64::MIN), i64::MIN.to_string());
    assert_eq!(fmt_i64(0), "0");
    assert_eq!(fmt_zero_padded3(5), "005");
    assert_eq!(join("/a/", "b"), "/a/b");
    assert_eq!(join("/a", "/b"), "/b");
    assert_eq!(join("", "b"), "b");
    assert_eq!(lines_of("a\r\nb\n\nc"), vec!["a", "b", "", "c"]);
    assert_eq!(lines_of("a\rb\n"), vec!["a\rb"]);
    assert!(lines_of("").is_empty());
    assert_eq!(split_once_char("k\x1fv\x1fw", '\x1f'), Some(("k".to_string(), "v\x1fw".to_string())));
    assert_eq!(replace_first_str("aXbXc", "X", "--"), "a--bXc");
    assert!(contains_str("abc", "bc"));
    assert_eq!(parse_u32_chars(&"0042".chars().collect()), Some(42));
}
