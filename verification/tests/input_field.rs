use screen_grabber::input_field::{parse_usize, PositiveNumberFormatter, Validation};

fn ok_value(input: &str) -> Option<String> {
    PositiveNumberFormatter.value(input).ok()
}

#[test]
fn parse_accepts_plain_digits() {
    assert_eq!(parse_usize("0"), Some(0));
    assert_eq!(parse_usize("42"), Some(42));
    assert_eq!(parse_usize("007"), Some(7));
}

#[test]
fn parse_accepts_one_plus_sign() {
    assert_eq!(parse_usize("+5"), Some(5));
    assert_eq!(parse_usize("+"), None);
    assert_eq!(parse_usize("++5"), None);
}

#[test]
fn parse_refuses_other_text() {
    assert_eq!(parse_usize(""), None);
    assert_eq!(parse_usize("-1"), None);
    assert_eq!(parse_usize(" 1"), None);
    assert_eq!(parse_usize("1 "), None);
    assert_eq!(parse_usize("1.5"), None);
    assert_eq!(parse_usize("abc"), None);
    assert_eq!(parse_usize("١"), None);
}

#[test]
fn parse_agrees_with_std_at_the_limit() {
    let max = usize::MAX.to_string();
    assert_eq!(parse_usize(&max), Some(usize::MAX));
    let over = format!("{}0", max);
    assert_eq!(parse_usize(&over), None);
    for s in ["", "+", "0", "+0", "18446744073709551616", "99x", "x9", "12345678901234567890123"] {
        assert_eq!(parse_usize(s), s.parse::<usize>().ok(), "input {:?}", s);
    }
}

#[test]
fn value_writes_numbers_canonically() {
    assert_eq!(ok_value("007"), Some("7".to_string()));
    assert_eq!(ok_value("+12"), Some("12".to_string()));
    assert_eq!(ok_value("12"), Some("12".to_string()));
}

#[test]
fn value_keeps_the_empty_input() {
    assert_eq!(ok_value(""), Some(String::new()));
}

#[test]
fn value_refuses_invalid_input() {
    match PositiveNumberFormatter.value("12a") {
        Err(e) => assert_eq!(e.message, "Invalid input"),
        Ok(v) => panic!("accepted {:?}", v),
    }
}

#[test]
fn value_is_idempotent() {
    for s in ["", "0", "007", "+3", "123456"] {
        let once = ok_value(s).unwrap();
        assert_eq!(ok_value(&once), Some(once.clone()));
    }
}

#[test]
fn validation_lets_numbers_and_empty_text_stand() {
    let f = PositiveNumberFormatter;
    assert!(matches!(f.validate_partial_input(""), Validation::Success));
    assert!(matches!(f.validate_partial_input("12"), Validation::Success));
    match f.validate_partial_input("1x") {
        Validation::Failure(e) => assert_eq!(e.message, "Invalid input"),
        Validation::Success => panic!("accepted 1x"),
    }
}

#[test]
fn validation_agrees_with_value() {
    let f = PositiveNumberFormatter;
    for s in ["", "1", "+", "-2", "00", "4x", "99999999999999999999999"] {
        let valid = matches!(f.validate_partial_input(s), Validation::Success);
        assert_eq!(valid, f.value(s).is_ok(), "input {:?}", s);
    }
}

#[test]
fn format_shows_values_unchanged() {
    let f = PositiveNumberFormatter;
    let v = "017".to_string();
    assert_eq!(f.format(&v), "017");
    assert_eq!(f.format_for_editing(&v), "017");
}
