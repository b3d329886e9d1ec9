use nakama_rpc::text::{contains_text, trim_text};

#[test]
fn trim_removes_unicode_white_space() {
    assert_eq!(trim_text(" \t\n{}\r\n"), "{}");
    assert_eq!(trim_text("\u{a0}\u{3000}a b\u{2029}"), "a b");
    assert_eq!(trim_text("   "), "");
    assert_eq!(trim_text(""), "");
    assert_eq!(trim_text("x"), "x");
}

#[test]
fn contains_finds_substrings() {
    assert!(contains_text("text/application/json", "application/json"));
    assert!(contains_text("abc", ""));
    assert!(!contains_text("applicationjson", "application/json"));
    assert!(!contains_text("", "a"));
}
