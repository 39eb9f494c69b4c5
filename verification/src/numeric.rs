//! Numeric predicates shared by the generators, and bounded numeric
//! draws: zero / positive / negative tests whose outcomes are pinned to
//! the value's abstract content, and rejection-sampled signed draws.

use vstd::prelude::*;

use crate::compare::ValueEq;
use crate::compare::ValueOrd;
use crate::pairs::inequal_model;
use crate::pairs::sorted_model;
use crate::pairs::InequalPair;
use crate::pairs::SortedPair;
use crate::source::rng_block;
use crate::source::word_of;
use crate::source::RandomSource;
use crate::value::matches_arb_model;
use crate::value::GenError;
use crate::value::Generatable;

verus! {

/// How many draws the sign-filtered generators try before giving up.
pub const NUMBER_RETRIES: u32 = 16;

/// Zero, positive and negative, as executable tests pinned to the value's
/// abstract content.
pub trait NumberExt: View + Sized {
    /// Whether the abstract content is zero.
    spec fn zero_view(v: Self::V) -> bool;

    /// Whether the abstract content is strictly positive.
    spec fn positive_view(v: Self::V) -> bool;

    /// Whether the abstract content is strictly negative.
    spec fn negative_view(v: Self::V) -> bool;

    fn is_zero(&self) -> (r: bool)
        ensures
            r == Self::zero_view(self@),
    ;

    fn is_positive(&self) -> (r: bool)
        ensures
            r == Self::positive_view(self@),
    ;

    fn is_negative(&self) -> (r: bool)
        ensures
            r == Self::negative_view(self@),
    ;
}

impl NumberExt for u8 {
    open spec fn zero_view(v: u8) -> bool {
        v == 0
    }

    open spec fn positive_view(v: u8) -> bool {
        v > 0
    }

    open spec fn negative_view(v: u8) -> bool {
        false
    }

    fn is_zero(&self) -> (r: bool) {
        *self == 0
    }

    fn is_positive(&self) -> (r: bool) {
        *self > 0
    }

    fn is_negative(&self) -> (r: bool) {
        false
    }
}

impl NumberExt for u16 {
    open spec fn zero_view(v: u16) -> bool {
        v == 0
    }

    open spec fn positive_view(v: u16) -> bool {
        v > 0
    }

    open spec fn negative_view(v: u16) -> bool {
        false
    }

    fn is_zero(&self) -> (r: bool) {
        *self == 0
    }

    fn is_positive(&self) -> (r: bool) {
        *self > 0
    }

    fn is_negative(&self) -> (r: bool) {
        false
    }
}

impl NumberExt for u32 {
    open spec fn zero_view(v: u32) -> bool {
        v == 0
    }

    open spec fn positive_view(v: u32) -> bool {
        v > 0
    }

    open spec fn negative_view(v: u32) -> bool {
        false
    }

    fn is_zero(&self) -> (r: bool) {
        *self == 0
    }

    fn is_positive(&self) -> (r: bool) {
        *self > 0
    }

    fn is_negative(&self) -> (r: bool) {
        false
    }
}

impl NumberExt for i8 {
    open spec fn zero_view(v: i8) -> bool {
        v == 0
    }

    open spec fn positive_view(v: i8) -> bool {
        v > 0
    }

    open spec fn negative_view(v: i8) -> bool {
        v < 0
    }

    fn is_zero(&self) -> (r: bool) {
        *self == 0
    }

    fn is_positive(&self) -> (r: bool) {
        *self > 0
    }

    fn is_negative(&self) -> (r: bool) {
        *self < 0
    }
}

impl NumberExt for i16 {
    open spec fn zero_view(v: i16) -> bool {
        v == 0
    }

    open spec fn positive_view(v: i16) -> bool {
        v > 0
    }

    open spec fn negative_view(v: i16) -> bool {
        v < 0
    }

    fn is_zero(&self) -> (r: bool) {
        *self == 0
    }

    fn is_positive(&self) -> (r: bool) {
        *self > 0
    }

    fn is_negative(&self) -> (r: bool) {
        *self < 0
    }
}

impl NumberExt for i32 {
    open spec fn zero_view(v: i32) -> bool {
        v == 0
    }

    open spec fn positive_view(v: i32) -> bool {
        v > 0
    }

    open spec fn negative_view(v: i32) -> bool {
        v < 0
    }

    fn is_zero(&self) -> (r: bool) {
        *self == 0
    }

    fn is_positive(&self) -> (r: bool) {
        *self > 0
    }

    fn is_negative(&self) -> (r: bool) {
        *self < 0
    }
}

impl NumberExt for u64 {
    open spec fn zero_view(v: u64) -> bool {
        v == 0
    }

    open spec fn positive_view(v: u64) -> bool {
        v > 0
    }

    open spec fn negative_view(v: u64) -> bool {
        false
    }

    fn is_zero(&self) -> (r: bool) {
        *self == 0
    }

    fn is_positive(&self) -> (r: bool) {
        *self > 0
    }

    fn is_negative(&self) -> (r: bool) {
        false
    }
}

impl NumberExt for usize {
    open spec fn zero_view(v: usize) -> bool {
        v == 0
    }

    open spec fn positive_view(v: usize) -> bool {
        v > 0
    }

    open spec fn negative_view(v: usize) -> bool {
        false
    }

    fn is_zero(&self) -> (r: bool) {
        *self == 0
    }

    fn is_positive(&self) -> (r: bool) {
        *self > 0
    }

    fn is_negative(&self) -> (r: bool) {
        false
    }
}

impl NumberExt for u128 {
    open spec fn zero_view(v: u128) -> bool {
        v == 0
    }

    open spec fn positive_view(v: u128) -> bool {
        v > 0
    }

    open spec fn negative_view(v: u128) -> bool {
        false
    }

    fn is_zero(&self) -> (r: bool) {
        *self == 0
    }

    fn is_positive(&self) -> (r: bool) {
        *self > 0
    }

    fn is_negative(&self) -> (r: bool) {
        false
    }
}

impl NumberExt for i64 {
    open spec fn zero_view(v: i64) -> bool {
        v == 0
    }

    open spec fn positive_view(v: i64) -> bool {
        v > 0
    }

    open spec fn negative_view(v: i64) -> bool {
        v < 0
    }

    fn is_zero(&self) -> (r: bool) {
        *self == 0
    }

    fn is_positive(&self) -> (r: bool) {
        *self > 0
    }

    fn is_negative(&self) -> (r: bool) {
        *self < 0
    }
}

impl NumberExt for i128 {
    open spec fn zero_view(v: i128) -> bool {
        v == 0
    }

    open spec fn positive_view(v: i128) -> bool {
        v > 0
    }

    open spec fn negative_view(v: i128) -> bool {
        v < 0
    }

    fn is_zero(&self) -> (r: bool) {
        *self == 0
    }

    fn is_positive(&self) -> (r: bool) {
        *self > 0
    }

    fn is_negative(&self) -> (r: bool) {
        *self < 0
    }
}

impl NumberExt for isize {
    open spec fn zero_view(v: isize) -> bool {
        v == 0
    }

    open spec fn positive_view(v: isize) -> bool {
        v > 0
    }

    open spec fn negative_view(v: isize) -> bool {
        v < 0
    }

    fn is_zero(&self) -> (r: bool) {
        *self == 0
    }

    fn is_positive(&self) -> (r: bool) {
        *self > 0
    }

    fn is_negative(&self) -> (r: bool) {
        *self < 0
    }
}

impl Generatable for u64 {
    open spec fn arb_model(seed: Seq<u8>, pos: int) -> (Result<u64, GenError>, int) {
        (Ok(word_of(rng_block(seed, pos))), pos + 1)
    }

    open spec fn gen_ok(&self) -> bool {
        true
    }

    fn arbitrary_from(source: &mut RandomSource) -> (r: Result<Self, GenError>) {
        Ok(source.next_u64())
    }
}

impl Generatable for u128 {
    open spec fn arb_model(seed: Seq<u8>, pos: int) -> (Result<u128, GenError>, int) {
        (Ok(crate::source::wide_of(rng_block(seed, pos))), pos + 1)
    }

    open spec fn gen_ok(&self) -> bool {
        true
    }

    fn arbitrary_from(source: &mut RandomSource) -> (r: Result<Self, GenError>) {
        Ok(source.next_u128())
    }
}

impl Generatable for i64 {
    open spec fn arb_model(seed: Seq<u8>, pos: int) -> (Result<i64, GenError>, int) {
        (Ok(word_of(rng_block(seed, pos)) as i64), pos + 1)
    }

    open spec fn gen_ok(&self) -> bool {
        true
    }

    fn arbitrary_from(source: &mut RandomSource) -> (r: Result<Self, GenError>) {
        let w = source.next_u64();
        Ok(w as i64)
    }
}

/// The sign-filtered generator as a function of the source's state:
/// draw, keep the first value with the wanted sign.
pub open spec fn positive_rec<T: Generatable + NumberExt>(seed: Seq<u8>, pos: int, left: u32) -> (
    Result<T::V, GenError>,
    int,
)
    decreases left,
{
    if left == 0 {
        (Err(GenError::Exhausted(NUMBER_RETRIES)), pos)
    } else {
        let m = T::arb_model(seed, pos);
        match m.0 {
            Result::Err(e) => (Err(e), m.1),
            Result::Ok(v) => if T::positive_view(v) {
                (Ok(v), m.1)
            } else {
                positive_rec::<T>(seed, m.1, (left - 1) as u32)
            },
        }
    }
}

/// A strictly positive value, by rejection sampling with a bounded budget.
pub fn positive<T: Generatable + NumberExt>(source: &mut RandomSource) -> (r: Result<T, GenError>)
    ensures
        final(source).seed() == old(source).seed(),
        ({
            let m = positive_rec::<T>(old(source).seed(), old(source).pos(), NUMBER_RETRIES);
            &&& (match (r, m.0) {
                (Ok(v), Ok(mv)) => v@ == mv,
                (Err(a), Err(b)) => a == b,
                _ => false,
            })
            &&& final(source).pos() == m.1
        }),
        r matches Ok(v) ==> T::positive_view(v@),
{
    let mut left: u32 = NUMBER_RETRIES;
    loop
        invariant
            source.seed() == old(source).seed(),
            left <= NUMBER_RETRIES,
            positive_rec::<T>(old(source).seed(), old(source).pos(), NUMBER_RETRIES)
                == positive_rec::<T>(source.seed(), source.pos(), left),
        decreases left,
    {
        if left == 0 {
            return Err(GenError::Exhausted(NUMBER_RETRIES));
        }
        match T::arbitrary_from(source) {
            Err(e) => {
                return Err(e);
            },
            Ok(v) => {
                if v.is_positive() {
                    return Ok(v);
                }
            },
        }
        left = left - 1;
    }
}

/// The negative counterpart of [`positive_rec`].
pub open spec fn negative_rec<T: Generatable + NumberExt>(seed: Seq<u8>, pos: int, left: u32) -> (
    Result<T::V, GenError>,
    int,
)
    decreases left,
{
    if left == 0 {
        (Err(GenError::Exhausted(NUMBER_RETRIES)), pos)
    } else {
        let m = T::arb_model(seed, pos);
        match m.0 {
            Result::Err(e) => (Err(e), m.1),
            Result::Ok(v) => if T::negative_view(v) {
                (Ok(v), m.1)
            } else {
                negative_rec::<T>(seed, m.1, (left - 1) as u32)
            },
        }
    }
}

/// A strictly negative value, by rejection sampling with a bounded budget.
pub fn negative<T: Generatable + NumberExt>(source: &mut RandomSource) -> (r: Result<T, GenError>)
    ensures
        final(source).seed() == old(source).seed(),
        ({
            let m = negative_rec::<T>(old(source).seed(), old(source).pos(), NUMBER_RETRIES);
            &&& (match (r, m.0) {
                (Ok(v), Ok(mv)) => v@ == mv,
                (Err(a), Err(b)) => a == b,
                _ => false,
            })
            &&& final(source).pos() == m.1
        }),
        r matches Ok(v) ==> T::negative_view(v@),
{
    let mut left: u32 = NUMBER_RETRIES;
    loop
        invariant
            source.seed() == old(source).seed(),
            left <= NUMBER_RETRIES,
            negative_rec::<T>(old(source).seed(), old(source).pos(), NUMBER_RETRIES)
                == negative_rec::<T>(source.seed(), source.pos(), left),
        decreases left,
    {
        if left == 0 {
            return Err(GenError::Exhausted(NUMBER_RETRIES));
        }
        match T::arbitrary_from(source) {
            Err(e) => {
                return Err(e);
            },
            Ok(v) => {
                if v.is_negative() {
                    return Ok(v);
                }
            },
        }
        left = left - 1;
    }
}

/// A draw inside the half-open range `lo..hi`.
pub fn between(source: &mut RandomSource, lo: u64, hi: u64) -> (r: u64)
    requires
        lo < hi,
    ensures
        final(source).seed() == old(source).seed(),
        final(source).pos() == old(source).pos() + 1,
        lo <= r < hi,
        r == lo + (word_of(rng_block(old(source).seed(), old(source).pos())) as int) % (hi - lo),
{
    let w = source.next_below(hi - lo);
    lo + w
}

/// A pair of values that differ.
pub fn different<T: Generatable + ValueEq>(source: &mut RandomSource) -> (r: Result<
    InequalPair<T>,
    GenError,
>)
    ensures
        final(source).seed() == old(source).seed(),
        matches_arb_model(r, inequal_model::<T>(old(source).seed(), old(source).pos()).0),
        final(source).pos() == inequal_model::<T>(old(source).seed(), old(source).pos()).1,
        r matches Ok(p) ==> p.0@ != p.1@,
{
    InequalPair::<T>::arbitrary_from(source)
}

/// A pair of values in increasing order: the first strictly below the
/// second. The pair is the ordered-pair model with its halves swapped.
pub fn in_order<T: Generatable + ValueOrd>(source: &mut RandomSource) -> (r: Result<
    (T, T),
    GenError,
>)
    ensures
        final(source).seed() == old(source).seed(),
        ({
            let m = sorted_model::<T>(old(source).seed(), old(source).pos());
            &&& (match (r, m.0) {
                (Ok(p), Ok(mp)) => p.0@ == mp.1 && p.1@ == mp.0,
                (Err(a), Err(b)) => a == b,
                _ => false,
            })
            &&& final(source).pos() == m.1
        }),
        r matches Ok(p) ==> (T::le_view(p.0@, p.1@) && p.0@ != p.1@),
{
    match SortedPair::<T>::arbitrary_from(source) {
        Ok(SortedPair(high, low)) => Ok((low, high)),
        Err(e) => Err(e),
    }
}

} // verus!
