//! A wrapper to hang methods and traits on values of other types.

use crate::decimal::digit_char;
use vstd::prelude::*;

verus! {

/// A value, wrapped.
pub struct W<T>(pub T);

impl<T> From<T> for W<T> {
    fn from(value: T) -> (wrapped: Self) {
        Self(value)
    }
}

impl<T> vstd::std_specs::convert::FromSpecImpl<T> for W<T> {
    open spec fn obeys_from_spec() -> bool {
        true
    }

    open spec fn from_spec(value: T) -> W<T> {
        W(value)
    }
}

/// Values that can be wrapped: all of them.
pub trait Wrap: Sized {
    /// The value, wrapped.
    fn wrap(self) -> (wrapped: W<Self>)
        ensures
            wrapped.0 == self,
    ;
}

impl<T: Sized> Wrap for T {
    fn wrap(self) -> (wrapped: W<Self>) {
        W(self)
    }
}

/// The hexadecimal digit of `d`, in lower case, for `d` from 0 to 15.
pub open spec fn hex_char(d: int) -> char {
    if d < 10 {
        digit_char(d)
    } else {
        ('a' as int + d - 10) as char
    }
}

/// How a byte is shown in text: printable ASCII as itself, but for the quotes and the
/// backslash, which get a backslash in front; tab, carriage return and line feed as
/// `\t`, `\r` and `\n`; every other byte as `\x` and two hexadecimal digits.
pub open spec fn escaped_byte(b: u8) -> Seq<char> {
    if b == 0x09 {
        seq!['\\', 't']
    } else if b == 0x0D {
        seq!['\\', 'r']
    } else if b == 0x0A {
        seq!['\\', 'n']
    } else if b == 0x27 || b == 0x22 || b == 0x5C {
        seq!['\\', b as char]
    } else if 0x20 <= b <= 0x7E {
        seq![b as char]
    } else {
        seq!['\\', 'x', hex_char(b as int / 16), hex_char(b as int % 16)]
    }
}

/// How bytes are shown in text: each by [`escaped_byte`], in order.
pub open spec fn escaped(bytes: Seq<u8>) -> Seq<char>
    decreases bytes.len(),
{
    if bytes.len() == 0 {
        Seq::empty()
    } else {
        escaped(bytes.drop_last()) + escaped_byte(bytes.last())
    }
}

fn hex_digit(d: u8) -> (c: char)
    requires
        d < 16,
    ensures
        c == hex_char(d as int),
{
    if d < 10 {
        (0x30 + d) as char
    } else {
        (0x61 + d - 10) as char
    }
}

impl<'a> W<&'a [u8]> {
    /// The bytes as text that shows every one of them.
    pub fn to_text(&self) -> (text: String)
        ensures
            text@ == escaped(self.0@),
    {
        let bytes = self.0;
        let mut text = String::new();
        let mut i: usize = 0;
        while i < bytes.len()
            invariant
                i <= bytes.len(),
                text@ == escaped(bytes@.take(i as int)),
            decreases bytes.len() - i,
        {
            let b = bytes[i];
            assert(bytes@.take(i + 1).drop_last() =~= bytes@.take(i as int));
            if b == 0x09 {
                text.push('\\');
                text.push('t');
            } else if b == 0x0D {
                text.push('\\');
                text.push('r');
            } else if b == 0x0A {
                text.push('\\');
                text.push('n');
            } else if b == 0x27 || b == 0x22 || b == 0x5C {
                text.push('\\');
                text.push(b as char);
            } else if 0x20 <= b && b <= 0x7E {
                text.push(b as char);
            } else {
                text.push('\\');
                text.push('x');
                text.push(hex_digit(b / 16));
                text.push(hex_digit(b % 16));
            }
            i += 1;
        }
        assert(bytes@.take(bytes@.len() as int) =~= bytes@);
        text
    }
}

} // verus!
