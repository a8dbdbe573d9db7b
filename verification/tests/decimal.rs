use cps::decimal::{parse_integer, push_i64, push_u64, render, ParseError};

#[test]
fn integers_are_rendered_in_decimal() {
    assert_eq!(render(0), "0");
    assert_eq!(render(7), "7");
    assert_eq!(render(10), "10");
    assert_eq!(render(23625), "23625");
    assert_eq!(render(-1), "-1");
    assert_eq!(render(-2003), "-2003");
    assert_eq!(render(i64::MAX), "9223372036854775807");
    assert_eq!(render(i64::MIN), "-9223372036854775808");
}

#[test]
fn rendering_agrees_with_the_standard_library() {
    for v in [1, 9, 99, 100, 101, 999_999, 1_000_000, -5, -10, -123_456_789] {
        assert_eq!(render(v), v.to_string());
    }
}

#[test]
fn digits_are_appended_to_what_is_there() {
    let mut text = String::from("n=");
    push_u64(&mut text, u64::MAX);
    assert_eq!(text, "n=18446744073709551615");
    push_i64(&mut text, -40);
    assert_eq!(text, "n=18446744073709551615-40");
}

#[test]
fn digits_are_parsed() {
    assert_eq!(parse_integer(b"0"), Ok(0));
    assert_eq!(parse_integer(b"23625"), Ok(23625));
    assert_eq!(parse_integer(b"007"), Ok(7));
    assert_eq!(parse_integer(b"+15"), Ok(15));
    assert_eq!(parse_integer(b"-15"), Ok(-15));
    assert_eq!(parse_integer(b"-0"), Ok(0));
}

#[test]
fn the_limits_of_64_bits_are_parsed() {
    assert_eq!(parse_integer(b"9223372036854775807"), Ok(i64::MAX));
    assert_eq!(parse_integer(b"-9223372036854775808"), Ok(i64::MIN));
}

#[test]
fn numbers_beyond_64_bits_are_out_of_range() {
    assert_eq!(parse_integer(b"9223372036854775808"), Err(ParseError::OutOfRange));
    assert_eq!(parse_integer(b"-9223372036854775809"), Err(ParseError::OutOfRange));
    assert_eq!(parse_integer(b"99999999999999999999999999999999"), Err(ParseError::OutOfRange));
    assert_eq!(
        parse_integer(b"340282366920938463463374607431768211456"),
        Err(ParseError::OutOfRange)
    );
}

#[test]
fn text_that_is_no_number_is_malformed() {
    for text in ["", "+", "-", "--1", "+-1", "1-", "12a", "a12", " 12", "12 ", "1.5", "1e3", "٣"] {
        assert_eq!(parse_integer(text.as_bytes()), Err(ParseError::Malformed), "text {text:?}");
    }
}

#[test]
fn a_long_number_with_a_bad_end_is_malformed() {
    assert_eq!(parse_integer(b"99999999999999999999999999999999x"), Err(ParseError::Malformed));
}

#[test]
fn rendered_integers_parse_back() {
    for v in [0, 1, -1, 42, -23625, i64::MAX, i64::MIN] {
        assert_eq!(parse_integer(render(v).as_bytes()), Ok(v));
    }
}

#[test]
fn parse_errors_say_what_went_wrong() {
    assert_eq!(ParseError::Malformed.as_str(), "not a whole number");
    assert_eq!(ParseError::OutOfRange.as_str(), "number out of range");
}
