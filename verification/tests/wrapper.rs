use cps::wrapper::{Wrap, W};

#[test]
fn from_wraps_the_value() {
    let wrapped: W<u8> = W::from(7);
    assert_eq!(wrapped.0, 7);
}

#[test]
fn wrap_wraps_the_value() {
    assert_eq!("text".wrap().0, "text");
    assert_eq!(42u64.wrap().0, 42);
}

#[test]
fn printable_bytes_are_shown_as_they_are() {
    let bytes: &[u8] = b"GPIO not 0-53 ~";
    assert_eq!(W(bytes).to_text(), "GPIO not 0-53 ~");
}

#[test]
fn quotes_and_backslashes_get_a_backslash() {
    let bytes: &[u8] = b"can't \"say\" \\";
    assert_eq!(W(bytes).to_text(), "can\\'t \\\"say\\\" \\\\");
}

#[test]
fn control_bytes_are_escaped() {
    let bytes: &[u8] = b"\t\r\n";
    assert_eq!(W(bytes).to_text(), "\\t\\r\\n");
}

#[test]
fn other_bytes_are_shown_in_hexadecimal() {
    let bytes: &[u8] = &[0x00, 0x1F, 0x7F, 0x9D, 0xFF, 0xAB];
    assert_eq!(W(bytes).to_text(), "\\x00\\x1f\\x7f\\x9d\\xff\\xab");
}

#[test]
fn every_byte_is_shown_as_the_standard_library_shows_it() {
    for b in 0..=255u8 {
        let bytes: &[u8] = &[b];
        assert_eq!(W(bytes).to_text(), bytes.escape_ascii().to_string(), "byte {b}");
    }
}

#[test]
fn no_bytes_are_no_text() {
    let bytes: &[u8] = &[];
    assert_eq!(W(bytes).to_text(), "");
}
