use cps::segment_display::{encode, Overflow, SegmentCode};

const DIGITS: [u8; 10] = [0xC0, 0xF9, 0xA4, 0xB0, 0x99, 0x92, 0x82, 0xF8, 0x80, 0x98];

const ALPHABET: [u8; 26] = [
    0x88, 0x83, 0xC6, 0xA1, 0x86, 0x8E, 0xC2, 0x89, 0xCF, 0xE1, 0x8A, 0xC7, 0xEA, 0xC8, 0xC0, 0x8C,
    0x94, 0xCC, 0x92, 0x87, 0xC1, 0xC1, 0xD5, 0x89, 0x91, 0xA4,
];

#[test]
fn digits_come_from_the_table() {
    for (i, c) in ('0'..='9').enumerate() {
        assert_eq!(SegmentCode::Just(c).to_u8(), DIGITS[i], "digit {c}");
        assert_eq!(SegmentCode::char_to_segment_code(c), DIGITS[i], "digit {c}");
    }
}

#[test]
fn letters_come_from_the_table_in_either_case() {
    for (i, c) in ('A'..='Z').enumerate() {
        assert_eq!(SegmentCode::Just(c).to_u8(), ALPHABET[i], "letter {c}");
        let lower = c.to_ascii_lowercase();
        assert_eq!(SegmentCode::Just(lower).to_u8(), ALPHABET[i], "letter {lower}");
    }
}

#[test]
fn punctuation_has_its_own_codes() {
    assert_eq!(SegmentCode::Just(' ').to_u8(), 0b1111_1111);
    assert_eq!(SegmentCode::Just('-').to_u8(), 0b1011_1111);
    assert_eq!(SegmentCode::Just('_').to_u8(), 0b1111_0111);
}

#[test]
fn other_characters_are_dark() {
    for c in ['#', '.', '@', '[', '`', '{', '/', ':', '\n', 'é', '\u{10FFFF}'] {
        assert_eq!(SegmentCode::Just(c).to_u8(), 0xFF, "character {c:?}");
    }
}

#[test]
fn with_dot_clears_only_the_point_bit() {
    for c in ['0', '7', 'a', 'Z', '-', '_', ' ', '#'] {
        let plain = SegmentCode::Just(c).to_u8();
        let dotted = SegmentCode::WithDot(c).to_u8();
        assert_eq!(dotted, plain & 0x7F, "character {c:?}");
        assert_eq!(dotted & 0x80, 0);
        assert_eq!(dotted | 0x80, plain | 0x80);
    }
}

#[test]
fn pairs_decide_what_a_position_shows() {
    assert_eq!(SegmentCode::new(('.', '.')), Some(SegmentCode::Just('.')));
    assert_eq!(SegmentCode::new(('.', '5')), None);
    assert_eq!(SegmentCode::new(('5', '.')), Some(SegmentCode::WithDot('5')));
    assert_eq!(SegmentCode::new(('5', '6')), Some(SegmentCode::Just('5')));
    assert_eq!(SegmentCode::new((' ', '.')), Some(SegmentCode::WithDot(' ')));
}

#[test]
fn a_code_converts_into_its_byte() {
    assert_eq!(u8::from(SegmentCode::Just('1')), 0xF9);
    assert_eq!(u8::from(SegmentCode::WithDot('1')), 0x79);
}

#[test]
fn a_reading_is_encoded_with_its_point() {
    assert_eq!(encode::<4>("23.62"), Ok([0xA4, 0x30, 0x82, 0xA4]));
}

#[test]
fn a_single_character_stands_last() {
    assert_eq!(encode::<4>("7"), Ok([0xFF, 0xFF, 0xFF, 0xF8]));
    assert_eq!(encode::<1>("h"), Ok([0x89]));
    assert_eq!(encode::<3>("_"), Ok([0xFF, 0xFF, 0xF7]));
}

#[test]
fn short_text_is_padded_on_the_left() {
    assert_eq!(encode::<4>("12"), Ok([0xFF, 0xFF, 0xF9, 0xA4]));
    assert_eq!(encode::<4>("1.2"), Ok([0xFF, 0xFF, 0x79, 0xA4]));
    assert_eq!(encode::<4>("-12"), Ok([0xFF, 0xBF, 0xF9, 0xA4]));
    assert_eq!(encode::<6>("Hi"), Ok([0xFF, 0xFF, 0xFF, 0xFF, 0x89, 0xCF]));
}

#[test]
fn empty_text_leaves_the_display_dark() {
    assert_eq!(encode::<4>(""), Ok([0xFF; 4]));
    assert_eq!(encode::<0>(""), Ok([]));
}

#[test]
fn text_that_fills_the_display_is_not_padded() {
    assert_eq!(encode::<4>("1234"), Ok([0xF9, 0xA4, 0xB0, 0x99]));
    assert_eq!(encode::<4>("1.2.3.4."), Ok([0x79, 0x24, 0x30, 0x19]));
}

#[test]
fn longer_text_overflows() {
    assert_eq!(encode::<4>("12345"), Err(Overflow { needed: 5, available: 4 }));
    assert_eq!(encode::<4>("100.00"), Err(Overflow { needed: 5, available: 4 }));
    assert_eq!(encode::<0>("1"), Err(Overflow { needed: 1, available: 0 }));
    assert_eq!(encode::<2>("a b"), Err(Overflow { needed: 3, available: 2 }));
}

#[test]
fn overflow_says_what_went_wrong() {
    let overflow = encode::<1>("12").unwrap_err();
    assert_eq!(overflow.as_str(), "value too long for display");
}

#[test]
fn a_leading_dot_is_dropped() {
    assert_eq!(encode::<4>(".5"), Ok([0xFF, 0xFF, 0xFF, 0x92]));
    assert_eq!(encode::<2>("."), Ok([0xFF, 0xFF]));
}

#[test]
fn a_trailing_dot_lights_the_last_point() {
    assert_eq!(encode::<2>("5."), Ok([0xFF, 0x12]));
}

#[test]
fn two_dots_take_one_position() {
    assert_eq!(encode::<1>(".."), Ok([0xFF]));
    assert_eq!(encode::<2>("..5"), Ok([0xFF, 0x92]));
    assert_eq!(encode::<3>("1..5"), Ok([0x79, 0xFF, 0x92]));
    assert_eq!(encode::<2>("1..5"), Err(Overflow { needed: 3, available: 2 }));
    assert_eq!(encode::<2>("..."), Ok([0xFF, 0xFF]));
    assert_eq!(encode::<1>("..."), Err(Overflow { needed: 2, available: 1 }));
}

#[test]
fn unsupported_characters_take_a_dark_position() {
    assert_eq!(encode::<3>("a#b"), Ok([0x88, 0xFF, 0x83]));
    assert_eq!(encode::<2>("#."), Ok([0xFF, 0x7F]));
    assert_eq!(encode::<2>("é1"), Ok([0xFF, 0xF9]));
}

#[test]
fn encoding_is_the_same_every_time() {
    for text in ["", "23.62", "-1.5", "ERR", "....", "too long for it"] {
        assert_eq!(encode::<4>(text), encode::<4>(text));
    }
}
