use cps::decimal::ParseError;
use cps::segment_display::{encode, Overflow};
use cps::sensor::{format_reading, parse_reading, path_of, READ_MAX};

#[test]
fn the_sensor_file_lies_in_the_device_directory() {
    assert_eq!(path_of("10-00080253aa82"), "/sys/bus/w1/devices/10-00080253aa82/temperature");
    assert_eq!(path_of(""), "/sys/bus/w1/devices//temperature");
}

#[test]
fn a_reading_is_shorter_than_what_is_asked_for() {
    assert!("-125000\n".len() < READ_MAX as usize);
}

#[test]
fn the_first_line_is_the_reading() {
    assert_eq!(parse_reading(b"23625\n"), Ok(23625));
    assert_eq!(parse_reading(b"23625"), Ok(23625));
    assert_eq!(parse_reading(b"0\n"), Ok(0));
    assert_eq!(parse_reading(b"-1250\n"), Ok(-1250));
    assert_eq!(parse_reading(b"85000\nanything behind it\n"), Ok(85000));
}

#[test]
fn content_without_a_reading_is_refused() {
    for content in ["", "\n", "\n23625\n", "23.625\n", "23625 \n", "23625\r\n", "t=23625\n", "nan\n"]
    {
        assert_eq!(
            parse_reading(content.as_bytes()),
            Err(ParseError::Malformed),
            "content {content:?}"
        );
    }
}

#[test]
fn a_reading_beyond_64_bits_is_out_of_range() {
    assert_eq!(parse_reading(b"99999999999999999999\n"), Err(ParseError::OutOfRange));
}

#[test]
fn a_reading_fills_four_positions() {
    assert_eq!(format_reading(23625, 4).unwrap(), "23.62");
    assert_eq!(format_reading(23687, 4).unwrap(), "23.68");
    assert_eq!(format_reading(5500, 4).unwrap(), "5.500");
    assert_eq!(format_reading(0, 4).unwrap(), "0.000");
    assert_eq!(format_reading(123456, 4).unwrap(), "123.4");
    assert_eq!(format_reading(99999, 4).unwrap(), "99.99");
}

#[test]
fn whole_degrees_that_fill_the_display_have_no_point() {
    assert_eq!(format_reading(1234567, 4).unwrap(), "1234");
    assert_eq!(format_reading(9999999, 4).unwrap(), "9999");
    assert_eq!(format_reading(-123999, 4).unwrap(), "-123");
    assert_eq!(format_reading(7900, 1).unwrap(), "7");
}

#[test]
fn readings_below_zero_keep_their_sign() {
    assert_eq!(format_reading(-1250, 4).unwrap(), "-1.25");
    assert_eq!(format_reading(-500, 4).unwrap(), "-0.50");
    assert_eq!(format_reading(-1, 4).unwrap(), "-0.00");
    assert_eq!(format_reading(-23625, 4).unwrap(), "-23.6");
    assert_eq!(format_reading(-55000, 8).unwrap(), "-55.00000");
}

#[test]
fn places_behind_the_thousandths_are_zeros() {
    assert_eq!(format_reading(23625, 8).unwrap(), "23.625000");
    assert_eq!(format_reading(1, 6).unwrap(), "0.00100");
}

#[test]
fn whole_degrees_that_do_not_fit_overflow() {
    assert_eq!(format_reading(12345678, 4), Err(Overflow { needed: 5, available: 4 }));
    assert_eq!(format_reading(-1234000, 4), Err(Overflow { needed: 5, available: 4 }));
    assert_eq!(format_reading(0, 0), Err(Overflow { needed: 1, available: 0 }));
    assert_eq!(format_reading(i64::MIN, 4), Err(Overflow { needed: 17, available: 4 }));
}

#[test]
fn the_limits_of_64_bits_are_formatted() {
    assert_eq!(format_reading(i64::MAX, 19).unwrap(), "9223372036854775.807");
    assert_eq!(format_reading(i64::MIN, 17).unwrap(), "-9223372036854775");
}

#[test]
fn the_sensor_content_ends_up_on_the_display() {
    let milli = parse_reading(b"23625\n").unwrap();
    assert_eq!(milli, 23625);
    let text = format_reading(milli, 4).unwrap();
    assert_eq!(text, "23.62");
    assert_eq!(text.chars().filter(|&c| c != '.').count(), 4);
    assert_eq!(encode::<4>(&text), Ok([0xA4, 0x30, 0x82, 0xA4]));
}

#[test]
fn a_formatted_reading_fills_the_display_exactly() {
    for milli in [0, 1, -1, 999, 1000, -999, 23625, -23625, 99999, 999999, 9999999, -999999] {
        let text = format_reading(milli, 4).unwrap();
        assert_eq!(text.chars().filter(|&c| c != '.').count(), 4, "reading {milli}");
        let shown = encode::<4>(&text).unwrap();
        assert!(shown.iter().all(|&code| code != 0xFF), "reading {milli}");
    }
}
