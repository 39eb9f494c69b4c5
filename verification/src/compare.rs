//! Equality and ordering as verified capabilities: executable comparisons
//! whose outcomes are pinned to the values' abstract content, so that
//! generic pair generators can state what they produce.

use vstd::prelude::*;

use crate::email::Email;
use crate::id::Id;
use crate::text::Text;
use crate::username::Username;

verus! {

/// Character-by-character string equality: true exactly when the two
/// texts are the same sequence of characters.
pub fn str_eq(a: &str, b: &str) -> (r: bool)
    ensures
        r == (a@ == b@),
{
    let n = a.unicode_len();
    let m = b.unicode_len();
    if n != m {
        return false;
    }
    let mut i: usize = 0;
    while i < n
        invariant
            i <= n,
            n == a@.len(),
            n == b@.len(),
            forall|j: int| 0 <= j < i ==> a@[j] == b@[j],
        decreases n - i,
    {
        if a.get_char(i) != b.get_char(i) {
            return false;
        }
        i = i + 1;
    }
    proof {
        assert(a@ =~= b@);
    }
    true
}

/// Lexicographic order on texts, by character code, with a prefix coming
/// first.
pub open spec fn lex_le(a: Seq<char>, b: Seq<char>) -> bool
    decreases a.len(),
{
    if a.len() == 0 {
        true
    } else if b.len() == 0 {
        false
    } else if (a[0] as u32) < (b[0] as u32) {
        true
    } else if (b[0] as u32) < (a[0] as u32) {
        false
    } else {
        lex_le(a.drop_first(), b.drop_first())
    }
}

pub proof fn lemma_lex_le_total(a: Seq<char>, b: Seq<char>)
    ensures
        lex_le(a, b) || lex_le(b, a),
    decreases a.len(),
{
    if a.len() == 0 {
        assert(lex_le(a, b));
    } else if b.len() == 0 {
        assert(lex_le(b, a));
    } else if (a[0] as u32) < (b[0] as u32) {
        assert(lex_le(a, b));
    } else if (b[0] as u32) < (a[0] as u32) {
        assert(lex_le(b, a));
    } else {
        lemma_lex_le_total(a.drop_first(), b.drop_first());
        assert(lex_le(a, b) == lex_le(a.drop_first(), b.drop_first()));
        assert(lex_le(b, a) == lex_le(b.drop_first(), a.drop_first()));
    }
}

/// Character-by-character lexicographic comparison of two texts.
pub fn str_le(a: &str, b: &str) -> (r: bool)
    ensures
        r == lex_le(a@, b@),
{
    let n = a.unicode_len();
    let m = b.unicode_len();
    let mut i: usize = 0;
    proof {
        assert(a@.skip(0) =~= a@);
        assert(b@.skip(0) =~= b@);
    }
    while i < n && i < m
        invariant
            i <= n,
            i <= m,
            n == a@.len(),
            m == b@.len(),
            lex_le(a@, b@) == lex_le(a@.skip(i as int), b@.skip(i as int)),
        decreases n - i,
    {
        let x = a.get_char(i);
        let y = b.get_char(i);
        if (x as u32) < (y as u32) {
            return true;
        }
        if (y as u32) < (x as u32) {
            return false;
        }
        proof {
            assert(a@.skip(i as int).drop_first() =~= a@.skip(i + 1));
            assert(b@.skip(i as int).drop_first() =~= b@.skip(i + 1));
        }
        i = i + 1;
    }
    proof {
        if i == n {
            assert(a@.skip(i as int).len() == 0);
            assert(lex_le(a@.skip(i as int), b@.skip(i as int)));
        } else {
            assert(b@.skip(i as int).len() == 0);
            assert(a@.skip(i as int).len() > 0);
            assert(!lex_le(a@.skip(i as int), b@.skip(i as int)));
        }
    }
    i == n
}

/// A type whose executable equality decides equality of abstract content.
pub trait ValueEq: View + Sized {
    /// Whether the two values hold the same abstract content.
    fn value_eq(&self, other: &Self) -> (r: bool)
        ensures
            r == (self@ == other@),
    ;
}

/// A type with an executable total order on its abstract content.
pub trait ValueOrd: ValueEq {
    /// The order on abstract content.
    spec fn le_view(a: Self::V, b: Self::V) -> bool;

    /// The order is total.
    proof fn le_view_total(a: Self::V, b: Self::V)
        ensures
            Self::le_view(a, b) || Self::le_view(b, a),
    ;

    /// Whether this value comes no later than the other.
    fn value_le(&self, other: &Self) -> (r: bool)
        ensures
            r == Self::le_view(self@, other@),
    ;
}

impl ValueEq for Username {
    fn value_eq(&self, other: &Self) -> (r: bool) {
        str_eq(self.as_text(), other.as_text())
    }
}

impl ValueOrd for Username {
    open spec fn le_view(a: Seq<char>, b: Seq<char>) -> bool {
        lex_le(a, b)
    }

    proof fn le_view_total(a: Seq<char>, b: Seq<char>) {
        lemma_lex_le_total(a, b);
    }

    fn value_le(&self, other: &Self) -> (r: bool) {
        str_le(self.as_text(), other.as_text())
    }
}

impl ValueEq for Email {
    fn value_eq(&self, other: &Self) -> (r: bool) {
        str_eq(self.as_text(), other.as_text())
    }
}

impl ValueOrd for Email {
    open spec fn le_view(a: Seq<char>, b: Seq<char>) -> bool {
        lex_le(a, b)
    }

    proof fn le_view_total(a: Seq<char>, b: Seq<char>) {
        lemma_lex_le_total(a, b);
    }

    fn value_le(&self, other: &Self) -> (r: bool) {
        str_le(self.as_text(), other.as_text())
    }
}

impl ValueEq for Text {
    fn value_eq(&self, other: &Self) -> (r: bool) {
        str_eq(self.as_text(), other.as_text())
    }
}

impl<T> ValueEq for Id<T> {
    fn value_eq(&self, other: &Self) -> (r: bool) {
        self.value() == other.value()
    }
}

impl<T> ValueOrd for Id<T> {
    open spec fn le_view(a: u128, b: u128) -> bool {
        a <= b
    }

    proof fn le_view_total(a: u128, b: u128) {
    }

    fn value_le(&self, other: &Self) -> (r: bool) {
        self.value() <= other.value()
    }
}

impl ValueEq for u64 {
    fn value_eq(&self, other: &Self) -> (r: bool) {
        *self == *other
    }
}

impl ValueOrd for u64 {
    open spec fn le_view(a: u64, b: u64) -> bool {
        a <= b
    }

    proof fn le_view_total(a: u64, b: u64) {
    }

    fn value_le(&self, other: &Self) -> (r: bool) {
        *self <= *other
    }
}

impl ValueEq for usize {
    fn value_eq(&self, other: &Self) -> (r: bool) {
        *self == *other
    }
}

impl ValueOrd for usize {
    open spec fn le_view(a: usize, b: usize) -> bool {
        a <= b
    }

    proof fn le_view_total(a: usize, b: usize) {
    }

    fn value_le(&self, other: &Self) -> (r: bool) {
        *self <= *other
    }
}

impl ValueEq for u128 {
    fn value_eq(&self, other: &Self) -> (r: bool) {
        *self == *other
    }
}

impl ValueOrd for u128 {
    open spec fn le_view(a: u128, b: u128) -> bool {
        a <= b
    }

    proof fn le_view_total(a: u128, b: u128) {
    }

    fn value_le(&self, other: &Self) -> (r: bool) {
        *self <= *other
    }
}

impl ValueEq for i64 {
    fn value_eq(&self, other: &Self) -> (r: bool) {
        *self == *other
    }
}

impl ValueOrd for i64 {
    open spec fn le_view(a: i64, b: i64) -> bool {
        a <= b
    }

    proof fn le_view_total(a: i64, b: i64) {
    }

    fn value_le(&self, other: &Self) -> (r: bool) {
        *self <= *other
    }
}

} // verus!
