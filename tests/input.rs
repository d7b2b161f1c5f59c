use pm_client::commands::{validate_count, validate_price};
use pm_client::text::{decimal_text, parse_i64};

#[test]
fn decimal_text_spells_numbers() {
    assert_eq!(decimal_text(0), "0");
    assert_eq!(decimal_text(7), "7");
    assert_eq!(decimal_text(10), "10");
    assert_eq!(decimal_text(4294967295), "4294967295");
    assert_eq!(decimal_text(u64::MAX), "18446744073709551615");
}

#[test]
fn parse_i64_reads_signed_integers() {
    assert_eq!(parse_i64("42"), Some(42));
    assert_eq!(parse_i64("+42"), Some(42));
    assert_eq!(parse_i64("-17"), Some(-17));
    assert_eq!(parse_i64("007"), Some(7));
    assert_eq!(parse_i64("9223372036854775807"), Some(i64::MAX));
    assert_eq!(parse_i64("-9223372036854775808"), Some(i64::MIN));
}

#[test]
fn parse_i64_refuses_malformed_text() {
    assert_eq!(parse_i64(""), None);
    assert_eq!(parse_i64("-"), None);
    assert_eq!(parse_i64("+"), None);
    assert_eq!(parse_i64(" 42"), None);
    assert_eq!(parse_i64("42 "), None);
    assert_eq!(parse_i64("4a2"), None);
    assert_eq!(parse_i64("--4"), None);
    assert_eq!(parse_i64("9223372036854775808"), None);
    assert_eq!(parse_i64("-9223372036854775809"), None);
    assert_eq!(parse_i64("99999999999999999999999"), None);
    assert_eq!(parse_i64("４２"), None);
}

#[test]
fn parse_i64_agrees_with_std() {
    for s in ["0", "1", "-1", "+0", "-0", "123456789", "12x", "", "+-1", "1e3"] {
        assert_eq!(parse_i64(s), s.parse::<i64>().ok(), "{}", s);
    }
}

#[test]
fn price_150_refused_and_42_accepted() {
    assert_eq!(validate_price("150"), Err("Must be a number 0 < x < 100".to_string()));
    assert_eq!(validate_price("42"), Ok(42));
}

#[test]
fn price_bounds() {
    assert_eq!(validate_price("1"), Ok(1));
    assert_eq!(validate_price("99"), Ok(99));
    assert_eq!(validate_price("+5"), Ok(5));
    for bad in ["0", "100", "-5", "abc", "", "4.5", " 42", "300"] {
        assert_eq!(validate_price(bad), Err("Must be a number 0 < x < 100".to_string()), "{}", bad);
    }
}

#[test]
fn count_accepts_positive_integers() {
    assert_eq!(validate_count("10"), Ok(10));
    assert_eq!(validate_count("1"), Ok(1));
    assert_eq!(validate_count("4294967295"), Ok(u32::MAX));
}

#[test]
fn count_refuses_zero_negative_and_text() {
    for bad in ["0", "-3", "abc", "", "4294967296", "1.5", "-0"] {
        assert_eq!(validate_count(bad), Err("Must be a number 0 < x".to_string()), "{}", bad);
    }
}
