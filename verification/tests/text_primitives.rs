use openclaw_runtime::text::{decimal_string, is_blank_text, join, same_text, to_ascii_lowercase, trim};

#[test]
fn trim_matches_str_trim() {
    for s in ["", "  ", " a ", "\u{3000}x\u{2003}", "\u{85}y\u{a0}", "a b", "\u{200b}z"] {
        assert_eq!(trim(s), s.trim(), "{:?}", s);
    }
}

#[test]
fn blank_text() {
    assert!(is_blank_text(" \t\n"));
    assert!(is_blank_text(""));
    assert!(!is_blank_text(" x "));
}

#[test]
fn ascii_lowercase_only_touches_ascii() {
    assert_eq!(to_ascii_lowercase("ÀBC Yes"), "Àbc yes");
    assert_eq!(to_ascii_lowercase("@[`{"), "@[`{");
}

#[test]
fn decimal_numerals() {
    assert_eq!(decimal_string(0), "0");
    assert_eq!(decimal_string(10), "10");
    assert_eq!(decimal_string(u128::MAX), u128::MAX.to_string());
}

#[test]
fn joining_and_comparing() {
    let parts = vec!["a".to_string(), "".to_string(), "c".to_string()];
    assert_eq!(join(&parts, ", "), "a, , c");
    assert_eq!(join(&Vec::new(), ", "), "");
    assert!(same_text("abc", "abc"));
    assert!(!same_text("abc", "abd"));
    assert!(!same_text("abc", "ab"));
}
