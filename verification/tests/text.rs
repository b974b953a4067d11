use screen_grabber::text::{contains_str, decimal_string, join, to_ascii_uppercase};

#[test]
fn uppercase_touches_only_ascii_letters() {
    assert_eq!(to_ascii_uppercase("ctrl + a"), "CTRL + A");
    assert_eq!(to_ascii_uppercase("é1z"), "é1Z");
    assert_eq!(to_ascii_uppercase(""), "");
}

#[test]
fn join_puts_the_separator_between_parts() {
    let parts = vec!["a".to_string(), "b".to_string(), "c".to_string()];
    assert_eq!(join(&parts, " + "), "a + b + c");
    assert_eq!(join(&vec!["x".to_string()], " + "), "x");
    assert_eq!(join(&Vec::new(), " + "), "");
}

#[test]
fn contains_finds_substrings() {
    assert!(contains_str("Screen3.png", "Screen"));
    assert!(contains_str("myScreen", "Screen"));
    assert!(!contains_str("screen3.png", "Screen"));
    assert!(contains_str("abc", ""));
    assert!(!contains_str("Scr", "Screen"));
}

#[test]
fn decimal_matches_display() {
    for n in [0u64, 7, 10, 99, 100, 4294967295, u64::MAX] {
        assert_eq!(decimal_string(n), n.to_string());
    }
}

