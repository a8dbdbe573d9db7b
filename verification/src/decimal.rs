//! Integers as decimal text, and decimal text as integers.

use vstd::prelude::*;

verus! {

/// The character of the digit `d`, for `d` from 0 to 9.
pub open spec fn digit_char(d: int) -> char {
    ('0' as int + d) as char
}

/// The decimal digits of `n`, most significant first, without leading zeros.
pub open spec fn digits(n: nat) -> Seq<char>
    decreases n,
{
    if n < 10 {
        seq![digit_char(n as int)]
    } else {
        digits(n / 10).push(digit_char((n % 10) as int))
    }
}

/// The decimal digits of a number are digits, and at least one.
pub proof fn digits_are_digits(n: nat)
    ensures
        digits(n).len() >= 1,
        forall|i: int| 0 <= i < digits(n).len() ==> '0' <= #[trigger] digits(n)[i] <= '9',
    decreases n,
{
    if n >= 10 {
        digits_are_digits(n / 10);
    }
}

/// The decimal text of `v`: its digits, behind a `-` where it is negative.
pub open spec fn int_text(v: int) -> Seq<char> {
    if v < 0 {
        seq!['-'] + digits((-v) as nat)
    } else {
        digits(v as nat)
    }
}

/// `b` is one of the ASCII digits.
pub open spec fn is_digit_byte(b: u8) -> bool {
    0x30 <= b <= 0x39
}

/// The number that the ASCII digits `text` spell; 0 for no digits.
pub open spec fn number(text: Seq<u8>) -> nat
    decreases text.len(),
{
    if text.len() == 0 {
        0
    } else {
        number(text.drop_last()) * 10 + (text.last() - 0x30) as nat
    }
}

/// `text` is made of ASCII digits, at least one.
pub open spec fn is_number(text: Seq<u8>) -> bool {
    text.len() > 0 && forall|i: int| 0 <= i < text.len() ==> is_digit_byte(#[trigger] text[i])
}

/// `text` begins with a sign, `+` or `-`.
pub open spec fn has_sign(text: Seq<u8>) -> bool {
    text.len() > 0 && (text[0] == 0x2B || text[0] == 0x2D)
}

/// What stands behind the sign of `text`, or all of it where it has none.
pub open spec fn magnitude_part(text: Seq<u8>) -> Seq<u8> {
    if has_sign(text) {
        text.drop_first()
    } else {
        text
    }
}

/// The integer that `text` spells, where it is an optional sign and then digits.
pub open spec fn integer(text: Seq<u8>) -> Option<int> {
    if !is_number(magnitude_part(text)) {
        None
    } else if text[0] == 0x2D {
        Some(-(number(magnitude_part(text)) as int))
    } else {
        Some(number(magnitude_part(text)) as int)
    }
}

/// Why a text is no integer of 64 bits.
#[derive(Debug, Clone, Copy, PartialEq, Eq, Structural)]
pub enum ParseError {
    /// The text is not an optional sign and then digits.
    Malformed,
    /// The text spells an integer beyond 64 bits.
    OutOfRange,
}

impl ParseError {
    /// What went wrong, in words.
    pub fn as_str(&self) -> (message: &'static str)
        ensures
            message@ == match *self {
                ParseError::Malformed => "not a whole number"@,
                ParseError::OutOfRange => "number out of range"@,
            },
    {
        match self {
            ParseError::Malformed => "not a whole number",
            ParseError::OutOfRange => "number out of range",
        }
    }
}

/// What parsing `text` comes to: the integer that it spells, where it spells one of 64
/// bits.
pub open spec fn parsed(text: Seq<u8>) -> Result<i64, ParseError> {
    match integer(text) {
        None => Err(ParseError::Malformed),
        Some(v) => if i64::MIN <= v <= i64::MAX {
            Ok(v as i64)
        } else {
            Err(ParseError::OutOfRange)
        },
    }
}

/// `text` as ASCII bytes, for a text of ASCII characters.
pub open spec fn ascii(text: Seq<char>) -> Seq<u8> {
    Seq::new(text.len(), |i: int| text[i] as u8)
}

/// The digits of a number spell that number.
pub proof fn digits_spell_the_number(n: nat)
    ensures
        is_number(ascii(digits(n))),
        number(ascii(digits(n))) == n,
    decreases n,
{
    let bytes = ascii(digits(n));
    digits_are_digits(n);
    assert(bytes.last() == 0x30 + n % 10);
    if n >= 10 {
        digits_spell_the_number(n / 10);
        assert(bytes.drop_last() =~= ascii(digits(n / 10)));
    } else {
        assert(number(bytes.drop_last()) == 0);
    }
}

/// The decimal text of an integer of 64 bits parses back to that integer.
pub proof fn rendered_integer_parses_back(v: i64)
    ensures
        parsed(ascii(int_text(v as int))) == Ok::<i64, ParseError>(v),
{
    let text = ascii(int_text(v as int));
    if v < 0 {
        digits_spell_the_number((-v) as nat);
        assert(magnitude_part(text) =~= ascii(digits((-v) as nat)));
    } else {
        digits_spell_the_number(v as nat);
        digits_are_digits(v as nat);
    }
}

/// More digits never spell a smaller number.
pub proof fn number_grows_with_digits(text: Seq<u8>, n: int)
    requires
        0 <= n <= text.len(),
    ensures
        number(text.take(n)) <= number(text),
    decreases text.len() - n,
{
    if n < text.len() {
        number_grows_with_digits(text, n + 1);
        assert(text.take(n + 1).drop_last() =~= text.take(n));
        assert(number(text.take(n)) <= number(text.take(n + 1))) by (nonlinear_arith)
            requires
                number(text.take(n + 1)) == number(text.take(n)) * 10 + (text.take(n + 1).last()
                    - 0x30) as nat,
        ;
    } else {
        assert(text.take(n) =~= text);
    }
}

/// Reads the first `end` bytes of `bytes` as an integer: an optional sign, `+` or `-`,
/// and then ASCII digits, at least one.
pub(crate) fn parse_prefix(bytes: &[u8], end: usize) -> (result: Result<i64, ParseError>)
    requires
        end <= bytes.len(),
    ensures
        result == parsed(bytes@.take(end as int)),
{
    let ghost text = bytes@.take(end as int);
    if end == 0 {
        return Err(ParseError::Malformed);
    }
    let negative = bytes[0] == 0x2D;
    let start: usize = if bytes[0] == 0x2B || bytes[0] == 0x2D {
        1
    } else {
        0
    };
    let ghost body = magnitude_part(text);
    if start == end {
        return Err(ParseError::Malformed);
    }
    let limit: u128 = 0x8000_0000_0000_0000;
    let mut magnitude: u128 = 0;
    let mut i: usize = start;
    while i < end
        invariant
            start <= i <= end <= bytes.len(),
            start < end,
            text == bytes@.take(end as int),
            body == magnitude_part(text),
            body == bytes@.subrange(start as int, end as int),
            limit == 0x8000_0000_0000_0000,
            magnitude == number(body.take(i - start)),
            magnitude <= limit,
            forall|k: int| 0 <= k < i - start ==> is_digit_byte(#[trigger] body[k]),
        decreases end - i,
    {
        let b = bytes[i];
        if b < 0x30 || b > 0x39 {
            assert(!is_digit_byte(body[i - start]));
            return Err(ParseError::Malformed);
        }
        proof {
            assert(body.take(i - start + 1).drop_last() =~= body.take(i - start));
        }
        let next: u128 = magnitude * 10 + (b - 0x30) as u128;
        if next > limit {
            // The bytes behind `i` decide whether the text is a number at all.
            let mut j: usize = i + 1;
            while j < end
                invariant
                    i < j <= end <= bytes.len(),
                    start <= i,
                    text == bytes@.take(end as int),
                    body == magnitude_part(text),
                    body == bytes@.subrange(start as int, end as int),
                    forall|k: int| 0 <= k < j - start ==> is_digit_byte(#[trigger] body[k]),
                decreases end - j,
            {
                if bytes[j] < 0x30 || bytes[j] > 0x39 {
                    assert(!is_digit_byte(body[j - start]));
                    return Err(ParseError::Malformed);
                }
                j += 1;
            }
            proof {
                number_grows_with_digits(body, i - start + 1);
            }
            return Err(ParseError::OutOfRange);
        }
        magnitude = next;
        i += 1;
    }
    assert(body.take(end - start) =~= body);
    if negative {
        if magnitude == limit {
            Ok(i64::MIN)
        } else {
            Ok(-(magnitude as i64))
        }
    } else if magnitude == limit {
        Err(ParseError::OutOfRange)
    } else {
        Ok(magnitude as i64)
    }
}

/// Reads `bytes` as an integer: an optional sign, `+` or `-`, and then ASCII digits, at
/// least one.
pub fn parse_integer(bytes: &[u8]) -> (result: Result<i64, ParseError>)
    ensures
        result == parsed(bytes@),
{
    assert(bytes@.take(bytes@.len() as int) =~= bytes@);
    parse_prefix(bytes, bytes.len())
}

/// `String::push` of the standard library: the text afterwards is the text before with
/// `ch` appended, as its documentation says.
pub assume_specification[ String::push ](text: &mut String, ch: char)
    ensures
        final(text)@ == old(text)@.push(ch),
;

/// The digits of `n`, least significant first.
fn low_digits_first(n: u64) -> (low: Vec<char>)
    ensures
        low@.reverse() == digits(n as nat),
{
    let mut low: Vec<char> = Vec::new();
    let mut rest: u64 = n;
    while rest >= 10
        invariant
            digits(n as nat) == digits(rest as nat) + low@.reverse(),
        decreases rest,
    {
        let d: u8 = (rest % 10) as u8;
        low.push((0x30 + d) as char);
        rest = rest / 10;
    }
    low.push((0x30 + rest as u8) as char);
    low
}

/// Appends the decimal text of `n`.
pub fn push_u64(text: &mut String, n: u64)
    ensures
        final(text)@ == old(text)@ + digits(n as nat),
{
    let low = low_digits_first(n);
    let mut i: usize = low.len();
    while i > 0
        invariant
            i <= low.len(),
            text@ == old(text)@ + low@.reverse().take(low.len() - i),
        decreases i,
    {
        i -= 1;
        text.push(low[i]);
    }
}

/// Appends the decimal text of `v`.
pub fn push_i64(text: &mut String, v: i64)
    ensures
        final(text)@ == old(text)@ + int_text(v as int),
{
    if v < 0 {
        text.push('-');
        let magnitude: u64 = if v == i64::MIN {
            0x8000_0000_0000_0000
        } else {
            (-v) as u64
        };
        push_u64(text, magnitude);
    } else {
        push_u64(text, v as u64);
    }
}

/// The decimal text of `v`.
pub fn render(v: i64) -> (text: String)
    ensures
        text@ == int_text(v as int),
{
    let mut text = String::new();
    push_i64(&mut text, v);
    text
}

} // verus!
