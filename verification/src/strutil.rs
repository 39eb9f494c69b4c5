//! Small string helpers shared by the validators and generators: character
//! classes with executable checks, and building strings character by
//! character.

use vstd::prelude::*;

use crate::source::rng_block;
use crate::source::RandomSource;

verus! {

/// Relies on `String::push`: appends exactly one character.
#[verifier::external_body]
pub(crate) fn push_char(s: &mut String, c: char)
    ensures
        final(s)@ == old(s)@.push(c),
{
    s.push(c);
}

/// An ASCII letter.
pub open spec fn is_alpha_char(c: char) -> bool {
    (65 <= c as u32 && c as u32 <= 90) || (97 <= c as u32 && c as u32 <= 122)
}

/// An ASCII digit.
pub open spec fn is_digit_char(c: char) -> bool {
    48 <= c as u32 && c as u32 <= 57
}

/// An ASCII letter or digit.
pub open spec fn is_alnum_char(c: char) -> bool {
    is_alpha_char(c) || is_digit_char(c)
}

/// An ASCII letter, digit or underscore.
pub open spec fn is_word_char(c: char) -> bool {
    is_alnum_char(c) || c == '_'
}

pub fn check_alnum_char(c: char) -> (r: bool)
    ensures
        r == is_alnum_char(c),
{
    let u = c as u32;
    (65 <= u && u <= 90) || (97 <= u && u <= 122) || (48 <= u && u <= 57)
}

pub fn check_word_char(c: char) -> (r: bool)
    ensures
        r == is_word_char(c),
{
    check_alnum_char(c) || c == '_'
}

/// The printable ASCII character a raw byte maps to.
pub open spec fn printable_of(b: u8) -> char {
    (32 + (b % 95)) as char
}

fn printable_from_byte(b: u8) -> (c: char)
    ensures
        c == printable_of(b),
{
    (32 + (b % 95)) as char
}

/// The printable ASCII text of length `n` drawn from the bytes of one
/// 32-byte block (at most one character per byte).
pub open spec fn printable_text_of(block: Seq<u8>, n: int) -> Seq<char>
    decreases n,
{
    if n <= 0 {
        Seq::empty()
    } else {
        printable_text_of(block, n - 1).push(printable_of(block[n - 1]))
    }
}

impl RandomSource {
    /// A short printable ASCII string of length `len`, drawn from the next
    /// block of the stream.
    pub fn next_printable_text(&mut self, len: usize) -> (r: String)
        requires
            len <= 32,
        ensures
            final(self).seed() == old(self).seed(),
            final(self).pos() == old(self).pos() + 1,
            r@ == printable_text_of(rng_block(old(self).seed(), old(self).pos()), len as int),
            r@.len() == len,
    {
        let block = self.next_block();
        let mut out = String::new();
        let mut i: usize = 0;
        while i < len
            invariant
                i <= len,
                len <= 32,
                block@ == rng_block(old(self).seed(), old(self).pos()),
                out@ == printable_text_of(block@, i as int),
                out@.len() == i,
            decreases len - i,
        {
            let c = printable_from_byte(block[i]);
            push_char(&mut out, c);
            i = i + 1;
        }
        out
    }
}

} // verus!
