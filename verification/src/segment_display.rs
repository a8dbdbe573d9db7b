//! Seven-segment encoding of text.
//!
//! A segment code is one byte per display position, active low: a cleared bit lights
//! its segment, bit 7 is the decimal point, and `0xFF` leaves the position dark.

use crate::pi::Command;
use crate::shift_register::ShiftRegister;
use vstd::prelude::*;

verus! {

/// The code of a dark position.
pub const BLANK: u8 = 0b1111_1111;

/// The bit that, once cleared, lights the decimal point.
pub const POINT: u8 = 0b1000_0000;

/// The code of `-`.
pub const DASH: u8 = 0b1011_1111;

/// The code of `_`.
pub const UNDERSCORE: u8 = 0b1111_0111;

/// Codes of the digits `0` to `9`.
pub const NUMERALS: [u8; 10] = [
    0b1100_0000,
    0b1111_1001,
    0b1010_0100,
    0b1011_0000,
    0b1001_1001,
    0b1001_0010,
    0b1000_0010,
    0b1111_1000,
    0b1000_0000,
    0b1001_1000,
];

/// Codes of the letters `A` to `Z`.
pub const LETTERS: [u8; 26] = [
    0b1000_1000,
    0b1000_0011,
    0b1100_0110,
    0b1010_0001,
    0b1000_0110,
    0b1000_1110,
    0b1100_0010,
    0b1000_1001,
    0b1100_1111,
    0b1110_0001,
    0b1000_1010,
    0b1100_0111,
    0b1110_1010,
    0b1100_1000,
    0b1100_0000,
    0b1000_1100,
    0b1001_0100,
    0b1100_1100,
    0b1001_0010,
    0b1000_0111,
    0b1100_0001,
    0b1100_0001,
    0b1101_0101,
    0b1000_1001,
    0b1001_0001,
    0b1010_0100,
];

/// `c` is one of `0` to `9`.
pub open spec fn is_digit(c: char) -> bool {
    '0' <= c <= '9'
}

/// `c` is one of `A` to `Z`.
pub open spec fn is_upper(c: char) -> bool {
    'A' <= c <= 'Z'
}

/// `c` is one of `a` to `z`.
pub open spec fn is_lower(c: char) -> bool {
    'a' <= c <= 'z'
}

/// The segment code of a single character, decimal point dark.
///
/// Digits and letters come from [`NUMERALS`] and [`LETTERS`], letters regardless of
/// case; `-` and `_` have their own codes; everything else, the space included, is dark.
pub open spec fn pattern(c: char) -> u8 {
    if is_digit(c) {
        NUMERALS[c as int - '0' as int]
    } else if is_upper(c) {
        LETTERS[c as int - 'A' as int]
    } else if is_lower(c) {
        LETTERS[c as int - 'a' as int]
    } else if c == '-' {
        DASH
    } else if c == '_' {
        UNDERSCORE
    } else {
        BLANK
    }
}

/// `code` with the decimal point lit.
pub open spec fn with_point(code: u8) -> u8 {
    code & !POINT
}

/// What one display position shows: a character, alone or with the decimal point lit.
#[derive(Debug, Clone, Copy, PartialEq, Eq, Structural)]
pub enum SegmentCode {
    Just(char),
    WithDot(char),
}

impl SegmentCode {
    /// What the first of two neighbouring characters puts on the display.
    ///
    /// A character other than `.` takes a position, and a `.` right behind it lights
    /// its decimal point. A `.` takes a position only when another `.` follows.
    pub open spec fn of_pair(chars: (char, char)) -> Option<Self> {
        if chars.0 == '.' {
            if chars.1 == '.' {
                Some(Self::Just('.'))
            } else {
                None
            }
        } else if chars.1 == '.' {
            Some(Self::WithDot(chars.0))
        } else {
            Some(Self::Just(chars.0))
        }
    }

    /// The byte that drives the position.
    pub open spec fn byte(self) -> u8 {
        match self {
            Self::Just(c) => pattern(c),
            Self::WithDot(c) => with_point(pattern(c)),
        }
    }

    /// Decides what the first character of `chars` shows, given the one behind it.
    pub fn new(chars: (char, char)) -> (code: Option<Self>)
        ensures
            code == Self::of_pair(chars),
    {
        match chars {
            ('.', '.') => Some(Self::Just('.')),
            ('.', _) => None,
            (c, '.') => Some(Self::WithDot(c)),
            (c, _) => Some(Self::Just(c)),
        }
    }

    /// Looks the character up in the glyph tables.
    #[inline]
    pub fn char_to_segment_code(c: char) -> (code: u8)
        ensures
            code == pattern(c),
    {
        if c >= '0' && c <= '9' {
            let i: u32 = c as u32 - '0' as u32;
            NUMERALS[i as usize]
        } else if (c >= 'A' && c <= 'Z') || (c >= 'a' && c <= 'z') {
            let upper: u32 = if c >= 'a' {
                c as u32 - 32
            } else {
                c as u32
            };
            let i: u32 = upper - 'A' as u32;
            LETTERS[i as usize]
        } else {
            match c {
                ' ' => BLANK,
                '-' => DASH,
                '_' => UNDERSCORE,
                _ => BLANK,
            }
        }
    }

    /// The byte that drives the position.
    pub fn to_u8(&self) -> (code: u8)
        ensures
            code == self.byte(),
    {
        match self {
            Self::WithDot(c) => Self::char_to_segment_code(*c) & !POINT,
            Self::Just(c) => Self::char_to_segment_code(*c),
        }
    }
}

impl From<SegmentCode> for u8 {
    fn from(value: SegmentCode) -> (code: u8) {
        value.to_u8()
    }
}

impl vstd::std_specs::convert::FromSpecImpl<SegmentCode> for u8 {
    open spec fn obeys_from_spec() -> bool {
        true
    }

    open spec fn from_spec(value: SegmentCode) -> u8 {
        value.byte()
    }
}

/// The text does not fit the display.
#[derive(Debug, Clone, Copy, PartialEq, Eq, Structural)]
pub struct Overflow {
    /// Positions that the text takes.
    pub needed: usize,
    /// Positions that the display has.
    pub available: usize,
}

impl Overflow {
    /// What went wrong, in words.
    pub fn as_str(&self) -> (message: &'static str)
        ensures
            message@ == "value too long for display"@,
    {
        "value too long for display"
    }
}

/// The character behind position `i` of `text`; behind the last one stands a space.
pub open spec fn follower(text: Seq<char>, i: int) -> char {
    if i + 1 < text.len() {
        text[i + 1]
    } else {
        ' '
    }
}

/// What the character at `i` of `text` puts on the display, if anything.
pub open spec fn cell(text: Seq<char>, i: int) -> Option<SegmentCode> {
    SegmentCode::of_pair((text[i], follower(text, i)))
}

/// The codes that the first `n` characters of `text` put on the display, left to right.
pub open spec fn codes_upto(text: Seq<char>, n: int) -> Seq<u8>
    decreases n,
{
    if n <= 0 {
        Seq::empty()
    } else {
        match cell(text, n - 1) {
            Some(code) => codes_upto(text, n - 1).push(code.byte()),
            None => codes_upto(text, n - 1),
        }
    }
}

/// The codes that `text` puts on the display, left to right, one per position.
pub open spec fn codes(text: Seq<char>) -> Seq<u8> {
    codes_upto(text, text.len() as int)
}

/// `codes` behind as many dark positions as it takes to fill `n` positions.
pub open spec fn padded(codes: Seq<u8>, n: nat) -> Seq<u8> {
    Seq::new((n - codes.len()) as nat, |i: int| BLANK) + codes
}

/// What a display of `n` positions shows for `text`: its codes, right-aligned, or an
/// overflow when they are more than `n`.
pub open spec fn encoding(text: Seq<char>, n: nat) -> Result<Seq<u8>, Overflow> {
    if codes(text).len() <= n {
        Ok(padded(codes(text), n))
    } else {
        Err(Overflow { needed: codes(text).len() as usize, available: n as usize })
    }
}

/// The characters of `text`, one by one.
fn chars_of(text: &str) -> (chars: Vec<char>)
    ensures
        chars@ == text@,
{
    let mut chars: Vec<char> = Vec::new();
    for c in it: text.chars()
        invariant
            chars@ == it.seq().take(it.index() as int),
    {
        chars.push(c);
    }
    chars
}

/// Every position comes from a character of its own.
pub proof fn codes_upto_len(text: Seq<char>, n: int)
    requires
        0 <= n <= text.len(),
    ensures
        codes_upto(text, n).len() <= n,
    decreases n,
{
    if n > 0 {
        codes_upto_len(text, n - 1);
    }
}

/// Encodes `text` for a display of `N` positions.
///
/// The codes stand right-aligned behind dark positions; a text with more than `N`
/// positions is refused whole.
pub fn encode<const N: usize>(text: &str) -> (result: Result<[u8; N], Overflow>)
    ensures
        result is Ok <==> codes(text@).len() <= N,
        match result {
            Ok(buffer) => encoding(text@, N as nat) == Ok::<Seq<u8>, Overflow>(buffer@),
            Err(overflow) => encoding(text@, N as nat) == Err::<Seq<u8>, Overflow>(overflow),
        },
{
    let chars = chars_of(text);
    let n = chars.len();
    let mut codes: Vec<u8> = Vec::new();
    let mut i: usize = 0;
    while i < n
        invariant
            i <= n,
            n == chars.len(),
            chars@ == text@,
            codes@ == codes_upto(text@, i as int),
        decreases n - i,
    {
        let next = if i + 1 < n {
            chars[i + 1]
        } else {
            ' '
        };
        match SegmentCode::new((chars[i], next)) {
            Some(code) => codes.push(code.to_u8()),
            None => {},
        }
        i += 1;
    }
    proof {
        codes_upto_len(text@, n as int);
    }
    let used = codes.len();
    if used > N {
        return Err(Overflow { needed: used, available: N });
    }
    let offset = N - used;
    let dark: u8 = BLANK;
    let mut buffer: [u8; N] = [dark;N];
    proof {
        broadcast use vstd::array::group_array_axioms;

        assert(buffer == vstd::array::spec_array_fill_for_copy_type::<u8, N>(dark));
    }
    let mut j: usize = 0;
    while j < used
        invariant
            j <= used,
            used == codes.len(),
            offset + used == N,
            forall|k: int| 0 <= k < offset ==> buffer@[k] == BLANK,
            forall|k: int| 0 <= k < j ==> buffer@[offset + k] == codes@[k],
        decreases used - j,
    {
        buffer[offset + j] = codes[j];
        j += 1;
    }
    assert(buffer@ =~= padded(codes@, N as nat));
    Ok(buffer)
}

/// How many characters of `text` are not a `.`.
pub open spec fn non_dot_count(text: Seq<char>) -> nat
    decreases text.len(),
{
    if text.len() == 0 {
        0
    } else if text.last() == '.' {
        non_dot_count(text.drop_last())
    } else {
        non_dot_count(text.drop_last()) + 1
    }
}

/// Somewhere in `text` two `.` stand side by side.
pub open spec fn has_adjacent_dots(text: Seq<char>) -> bool {
    exists|i: int| 0 <= i && i + 1 < text.len() && text[i] == '.' && #[trigger] text[i + 1] == '.'
}

/// Lighting the decimal point clears that bit and leaves the seven segments alone.
pub proof fn with_point_clears_only_the_point(code: u8)
    ensures
        with_point(code) & POINT == 0,
        with_point(code) | POINT == code | POINT,
{
    assert((code & !0b1000_0000u8) & 0b1000_0000u8 == 0) by (bit_vector);
    assert((code & !0b1000_0000u8) | 0b1000_0000u8 == code | 0b1000_0000u8) by (bit_vector);
}

/// A lower-case letter shows what its upper-case form shows.
pub proof fn pattern_ignores_case(lower: char, upper: char)
    requires
        is_lower(lower),
        upper as int == lower as int - 32,
    ensures
        is_upper(upper),
        pattern(lower) == pattern(upper),
{
}

/// A single character other than `.` is shown in the last position, by its table code,
/// behind dark positions.
pub proof fn single_character_encoding(c: char, n: nat)
    requires
        c != '.',
        n >= 1,
    ensures
        encoding(seq![c], n) == Ok::<Seq<u8>, Overflow>(
            Seq::new((n - 1) as nat, |i: int| BLANK).push(pattern(c)),
        ),
{
    let text = seq![c];
    reveal_with_fuel(codes_upto, 2);
    assert(padded(codes(text), n) =~= Seq::new((n - 1) as nat, |i: int| BLANK).push(pattern(c)));
}

/// While no two `.` stand side by side, the first `n` characters of `text` take one
/// position for each of them that is not a `.`.
pub proof fn positions_are_non_dots(text: Seq<char>, n: int)
    requires
        !has_adjacent_dots(text),
        0 <= n <= text.len(),
    ensures
        codes_upto(text, n).len() == non_dot_count(text.take(n)),
    decreases n,
{
    if n > 0 {
        positions_are_non_dots(text, n - 1);
        assert(text.take(n).drop_last() =~= text.take(n - 1));
    }
}

/// A text without two `.` side by side, with at most `n` characters other than `.`,
/// always fits: its codes stand in the last positions, one per such character, and
/// every position before them is dark.
pub proof fn short_text_is_padded(text: Seq<char>, n: nat)
    requires
        !has_adjacent_dots(text),
        non_dot_count(text) <= n,
    ensures
        encoding(text, n) is Ok,
        encoding(text, n)->Ok_0.len() == n,
        codes(text).len() == non_dot_count(text),
        forall|i: int|
            0 <= i < n - non_dot_count(text) ==> (#[trigger] encoding(text, n)->Ok_0[i]) == BLANK,
        encoding(text, n)->Ok_0.subrange(n - non_dot_count(text), n as int) == codes(text),
{
    positions_are_non_dots(text, text.len() as int);
    assert(text.take(text.len() as int) =~= text);
}

/// A text with more positions than the display has is refused whole: the outcome is the
/// overflow, with the number of positions on either side, and no code at all.
pub proof fn long_text_overflows(text: Seq<char>, n: nat)
    requires
        codes(text).len() > n,
    ensures
        encoding(text, n) == Err::<Seq<u8>, Overflow>(
            Overflow { needed: codes(text).len() as usize, available: n as usize },
        ),
{
}

/// A `.` right behind another character lights that character's decimal point and
/// takes no position of its own.
pub proof fn dot_merges_into_previous(text: Seq<char>, i: int)
    requires
        0 <= i,
        i + 1 < text.len(),
        text[i] != '.',
        text[i + 1] == '.',
        follower(text, i + 1) != '.',
    ensures
        codes_upto(text, i + 2) == codes_upto(text, i).push(with_point(pattern(text[i]))),
{
    reveal_with_fuel(codes_upto, 3);
}

/// Two `.` side by side, with no third behind them, take one position between them:
/// it shows the code of `.`.
pub proof fn two_dots_take_one_position(text: Seq<char>, i: int)
    requires
        0 <= i,
        i + 1 < text.len(),
        text[i] == '.',
        text[i + 1] == '.',
        follower(text, i + 1) != '.',
    ensures
        codes_upto(text, i + 2) == codes_upto(text, i).push(pattern('.')),
{
    reveal_with_fuel(codes_upto, 3);
}

/// A display of `N` positions on a register chain.
pub trait SegmentDisplay<'a, const N: usize> {
    /// The chain that drives the display.
    spec fn chain(&self) -> ShiftRegister<'a, N>;

    /// The chain that drives the display.
    fn shift_register(&self) -> (register: &ShiftRegister<'a, N>)
        ensures
            *register == self.chain(),
    ;

    /// The codes that show `value` on the display, or the overflow.
    fn parse(value: &str) -> (result: Result<[u8; N], Overflow>)
        ensures
            result is Ok <==> codes(value@).len() <= N,
            match result {
                Ok(buffer) => encoding(value@, N as nat) == Ok::<Seq<u8>, Overflow>(buffer@),
                Err(overflow) => encoding(value@, N as nat) == Err::<Seq<u8>, Overflow>(overflow),
            },
    ;

    /// The commands that show `value`: its codes shifted in, first position first, and
    /// latched. A value that overflows the display yields no command at all.
    fn write(&self, value: &str) -> (result: Result<Vec<Command>, Overflow>)
        ensures
            match encoding(value@, N as nat) {
                Ok(shown) => result matches Ok(plan) && plan@ == self.chain().wiring().write(shown),
                Err(overflow) => result == Err::<Vec<Command>, Overflow>(overflow),
            },
    {
        let buffer = match Self::parse(value) {
            Ok(buffer) => buffer,
            Err(overflow) => {
                return Err(overflow);
            },
        };
        let register = self.shift_register();
        let mut plan = register.push_n(&buffer);
        let mut latch = register.save();
        plan.append(&mut latch);
        Ok(plan)
    }
}

impl<'a, const N: usize> SegmentDisplay<'a, N> for ShiftRegister<'a, N> {
    open spec fn chain(&self) -> ShiftRegister<'a, N> {
        *self
    }

    fn shift_register(&self) -> (register: &ShiftRegister<'a, N>) {
        self
    }

    fn parse(value: &str) -> (result: Result<[u8; N], Overflow>) {
        encode::<N>(value)
    }
}

} // verus!
