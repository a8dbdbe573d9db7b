//! The one-wire temperature sensor: where its file is, what the file holds, and how a
//! reading is put into words for a display.
//!
//! The sensor reports thousandths of a degree Celsius as a decimal integer on the first
//! line of its file. Readings are kept in that unit, so that nothing is rounded on the
//! way from the sensor to the display.

use crate::decimal::{
    digit_char, digits, digits_are_digits, parse_prefix, parsed, push_u64, ParseError,
};
use crate::segment_display::{
    codes, encoding, has_adjacent_dots, non_dot_count, short_text_is_padded, Overflow,
};
use vstd::prelude::*;

verus! {

/// The directory in which every one-wire device has a directory of its own.
pub open spec fn devices_dir() -> Seq<char> {
    "/sys/bus/w1/devices"@
}

/// The file of the sensor `device`: `temperature` in the device's directory.
pub open spec fn sensor_path(device: Seq<char>) -> Seq<char> {
    devices_dir() + "/"@ + device + "/temperature"@
}

/// Where the sensor `device` reports its temperature.
pub fn path_of(device: &str) -> (path: String)
    ensures
        path@ == sensor_path(device@),
{
    let mut path = String::from_str("/sys/bus/w1/devices");
    path.append("/");
    path.append(device);
    path.append("/temperature");
    path
}

/// How many bytes of the sensor's file are asked for. A reading takes far fewer.
pub const READ_MAX: u32 = 64;

/// The index of the first line feed in `content`, or its length where it has none.
pub open spec fn line_end(content: Seq<u8>) -> int
    decreases content.len(),
{
    if content.len() == 0 || content[0] == 0x0A {
        0
    } else {
        1 + line_end(content.drop_first())
    }
}

/// The first line of `content`, without its line feed.
pub open spec fn first_line(content: Seq<u8>) -> Seq<u8> {
    content.take(line_end(content))
}

/// `line_end` is where the first line feed stands.
pub proof fn line_end_is_first_feed(content: Seq<u8>)
    ensures
        0 <= line_end(content) <= content.len(),
        forall|i: int| 0 <= i < line_end(content) ==> content[i] != 0x0A,
        line_end(content) < content.len() ==> content[line_end(content)] == 0x0A,
    decreases content.len(),
{
    if !(content.len() == 0 || content[0] == 0x0A) {
        let rest = content.drop_first();
        line_end_is_first_feed(rest);
        assert forall|i: int| 0 <= i < line_end(content) implies content[i] != 0x0A by {
            if i > 0 {
                assert(content[i] == rest[i - 1]);
            }
        }
    }
}

/// Nothing but `end` is where the first line feed stands.
proof fn first_feed_is_line_end(content: Seq<u8>, end: int)
    requires
        0 <= end <= content.len(),
        forall|i: int| 0 <= i < end ==> content[i] != 0x0A,
        end < content.len() ==> content[end] == 0x0A,
    ensures
        line_end(content) == end,
    decreases content.len(),
{
    if end > 0 {
        first_feed_is_line_end(content.drop_first(), end - 1);
    }
}

/// Reads what the sensor's file holds: thousandths of a degree as a decimal integer on
/// the first line. What stands behind the first line feed is not looked at.
pub fn parse_reading(content: &[u8]) -> (result: Result<i64, ParseError>)
    ensures
        result == parsed(first_line(content@)),
{
    let mut end: usize = 0;
    while end < content.len() && content[end] != 0x0A
        invariant
            end <= content.len(),
            forall|i: int| 0 <= i < end ==> content@[i] != 0x0A,
        decreases content.len() - end,
    {
        end += 1;
    }
    proof {
        first_feed_is_line_end(content@, end as int);
    }
    parse_prefix(content, end)
}

/// The whole degrees of a reading as text: the sign where the reading is below zero,
/// then the digits.
pub open spec fn whole_text(milli: int) -> Seq<char> {
    if milli < 0 {
        seq!['-'] + digits((-milli / 1000) as nat)
    } else {
        digits((milli / 1000) as nat)
    }
}

/// The thousandths of a reading that its whole degrees leave over, from 0 to 999.
pub open spec fn thousandths_of(milli: int) -> int {
    if milli < 0 {
        -milli % 1000
    } else {
        milli % 1000
    }
}

/// The digit `k` places behind the decimal point of a reading, `k` counted from 0.
/// Behind the thousandths stand zeros.
pub open spec fn fraction_digit(milli: int, k: int) -> char {
    let thousandths = thousandths_of(milli);
    if k == 0 {
        digit_char(thousandths / 100)
    } else if k == 1 {
        digit_char(thousandths / 10 % 10)
    } else if k == 2 {
        digit_char(thousandths % 10)
    } else {
        '0'
    }
}

/// The decimal point and the first `places` digits behind it; nothing where `places`
/// is 0.
pub open spec fn fraction_text(milli: int, places: nat) -> Seq<char> {
    if places == 0 {
        Seq::empty()
    } else {
        seq!['.'] + Seq::new(places, |k: int| fraction_digit(milli, k))
    }
}

/// A reading in degrees with `places` digits behind the decimal point; without the
/// point where `places` is 0. Digits beyond `places` are cut off, not rounded.
pub open spec fn degrees_text(milli: int, places: nat) -> Seq<char> {
    whole_text(milli) + fraction_text(milli, places)
}

/// A reading in degrees, as text for a display of `positions` positions.
///
/// The whole degrees take as many positions as they have characters, and the digits
/// behind the decimal point take the positions left over. Whole degrees that do not
/// fit by themselves overflow.
pub open spec fn reading_text(milli: int, positions: nat) -> Result<Seq<char>, Overflow> {
    let whole = whole_text(milli);
    if whole.len() > positions {
        Err(Overflow { needed: whole.len() as usize, available: positions as usize })
    } else {
        Ok(degrees_text(milli, (positions - whole.len()) as nat))
    }
}

/// The size of a reading without its sign.
pub(crate) fn magnitude_of(milli: i64) -> (magnitude: u64)
    ensures
        magnitude == if milli < 0 {
            -(milli as int)
        } else {
            milli as int
        },
{
    if milli < 0 {
        if milli == i64::MIN {
            0x8000_0000_0000_0000
        } else {
            (-milli) as u64
        }
    } else {
        milli as u64
    }
}

/// Appends the whole degrees of a reading, sign and digits.
pub(crate) fn push_whole(text: &mut String, milli: i64)
    ensures
        final(text)@ == old(text)@ + whole_text(milli as int),
{
    let magnitude = magnitude_of(milli);
    if milli < 0 {
        text.push('-');
    }
    push_u64(text, magnitude / 1000);
}

/// Appends the decimal point and the first `places` digits behind it; nothing where
/// `places` is 0.
pub(crate) fn push_fraction(text: &mut String, milli: i64, places: usize)
    ensures
        final(text)@ == old(text)@ + fraction_text(milli as int, places as nat),
{
    if places == 0 {
        return ;
    }
    let thousandths: u64 = magnitude_of(milli) % 1000;
    text.push('.');
    let mut k: usize = 0;
    while k < places
        invariant
            k <= places,
            thousandths == thousandths_of(milli as int),
            text@ == old(text)@ + seq!['.'] + Seq::new(
                k as nat,
                |j: int| fraction_digit(milli as int, j),
            ),
        decreases places - k,
    {
        let d: u64 = if k == 0 {
            thousandths / 100
        } else if k == 1 {
            thousandths / 10 % 10
        } else if k == 2 {
            thousandths % 10
        } else {
            0
        };
        text.push((0x30 + d as u8) as char);
        k += 1;
    }
}

/// Puts a reading of `milli` thousandths of a degree into words for a display of
/// `positions` positions.
pub fn format_reading(milli: i64, positions: usize) -> (result: Result<String, Overflow>)
    ensures
        match result {
            Ok(text) => reading_text(milli as int, positions as nat) == Ok::<Seq<char>, Overflow>(
                text@,
            ),
            Err(overflow) => reading_text(milli as int, positions as nat) == Err::<
                Seq<char>,
                Overflow,
            >(overflow),
        },
{
    let mut text = String::new();
    push_whole(&mut text, milli);
    let used = text.as_str().unicode_len();
    if used > positions {
        return Err(Overflow { needed: used, available: positions });
    }
    push_fraction(&mut text, milli, positions - used);
    Ok(text)
}

/// No character of `text` is a `.`.
pub open spec fn free_of_dots(text: Seq<char>) -> bool {
    forall|i: int| 0 <= i < text.len() ==> #[trigger] text[i] != '.'
}

proof fn count_without_dots(text: Seq<char>)
    requires
        free_of_dots(text),
    ensures
        non_dot_count(text) == text.len(),
    decreases text.len(),
{
    if text.len() > 0 {
        count_without_dots(text.drop_last());
    }
}

proof fn count_around_one_dot(whole: Seq<char>, places: Seq<char>)
    requires
        free_of_dots(whole),
        free_of_dots(places),
    ensures
        non_dot_count(whole + seq!['.'] + places) == whole.len() + places.len(),
    decreases places.len(),
{
    let text = whole + seq!['.'] + places;
    if places.len() == 0 {
        assert(text.drop_last() =~= whole);
        count_without_dots(whole);
    } else {
        assert(text.drop_last() =~= whole + seq!['.'] + places.drop_last());
        count_around_one_dot(whole, places.drop_last());
    }
}

/// A reading whose whole degrees fit the display fills it: its text takes every
/// position, so that none is left dark, and never overflows.
pub proof fn reading_fills_display(milli: int, positions: nat)
    requires
        whole_text(milli).len() <= positions,
    ensures
        reading_text(milli, positions) is Ok,
        codes(reading_text(milli, positions)->Ok_0).len() == positions,
        encoding(reading_text(milli, positions)->Ok_0, positions) == Ok::<Seq<u8>, Overflow>(
            codes(reading_text(milli, positions)->Ok_0),
        ),
{
    let whole = whole_text(milli);
    let text = reading_text(milli, positions)->Ok_0;
    if milli < 0 {
        digits_are_digits((-milli / 1000) as nat);
    } else {
        digits_are_digits((milli / 1000) as nat);
    }
    if whole.len() == positions {
        count_without_dots(whole);
    } else {
        let places = Seq::new((positions - whole.len()) as nat, |k: int| fraction_digit(milli, k));
        assert(text =~= whole + seq!['.'] + places);
        count_around_one_dot(whole, places);
    }
    short_text_is_padded(text, positions);
}

} // verus!
