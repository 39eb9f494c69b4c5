//! Generated pairs for seeding other property tests: a pair of distinct
//! values, and an ordered pair (high then low). The second draw of a
//! distinct pair is retried a bounded number of times until it differs
//! from the first; exhausting the budget fails loudly.

use vstd::prelude::*;

use crate::compare::ValueEq;
use crate::compare::ValueOrd;
use crate::source::RandomSource;
use crate::value::GenError;
use crate::value::Generatable;

verus! {

/// How many second draws a distinct pair tries before giving up.
pub const PAIR_RETRIES: u32 = 8;

/// The retry phase of the distinct-pair generator, with the first value
/// already drawn and `left` second draws still allowed.
pub open spec fn inequal_rec<T: Generatable>(seed: Seq<u8>, pos: int, first: T::V, left: u32) -> (
    Result<(T::V, T::V), GenError>,
    int,
)
    decreases left,
{
    if left == 0 {
        (Err(GenError::Exhausted(PAIR_RETRIES)), pos)
    } else {
        let m = T::arb_model(seed, pos);
        match m.0 {
            Result::Err(e) => (Err(e), m.1),
            Result::Ok(b) => if b != first {
                (Ok((first, b)), m.1)
            } else {
                inequal_rec::<T>(seed, m.1, first, (left - 1) as u32)
            },
        }
    }
}

/// The distinct-pair generator as a function of the source's state.
pub open spec fn inequal_model<T: Generatable>(seed: Seq<u8>, pos: int) -> (Result<
    (T::V, T::V),
    GenError,
>, int) {
    let m = T::arb_model(seed, pos);
    match m.0 {
        Result::Err(e) => (Err(e), m.1),
        Result::Ok(a) => inequal_rec::<T>(seed, m.1, a, PAIR_RETRIES),
    }
}

/// A generated pair whose two values differ.
#[derive(Debug, Clone, PartialEq, Eq, Hash)]
pub struct InequalPair<T>(pub T, pub T);

impl<T: View> View for InequalPair<T> {
    type V = (T::V, T::V);

    open spec fn view(&self) -> (T::V, T::V) {
        (self.0@, self.1@)
    }
}

impl<T: Generatable + ValueEq> Generatable for InequalPair<T> {
    open spec fn arb_model(seed: Seq<u8>, pos: int) -> (Result<(T::V, T::V), GenError>, int) {
        inequal_model::<T>(seed, pos)
    }

    open spec fn gen_ok(&self) -> bool {
        self.0@ != self.1@ && self.0.gen_ok() && self.1.gen_ok()
    }

    fn arbitrary_from(source: &mut RandomSource) -> (r: Result<Self, GenError>) {
        let a = match T::arbitrary_from(source) {
            Ok(a) => a,
            Err(e) => {
                return Err(e);
            },
        };
        let mut left: u32 = PAIR_RETRIES;
        loop
            invariant
                source.seed() == old(source).seed(),
                left <= PAIR_RETRIES,
                a.gen_ok(),
                inequal_model::<T>(old(source).seed(), old(source).pos()) == inequal_rec::<T>(
                    source.seed(),
                    source.pos(),
                    a@,
                    left,
                ),
            decreases left,
        {
            if left == 0 {
                return Err(GenError::Exhausted(PAIR_RETRIES));
            }
            match T::arbitrary_from(source) {
                Err(e) => {
                    return Err(e);
                },
                Ok(b) => {
                    if !a.value_eq(&b) {
                        return Ok(InequalPair(a, b));
                    }
                },
            }
            left = left - 1;
        }
    }
}

/// The ordered-pair generator as a function of the source's state: the
/// distinct pair, sorted high then low.
pub open spec fn sorted_model<T: Generatable + ValueOrd>(seed: Seq<u8>, pos: int) -> (Result<
    (T::V, T::V),
    GenError,
>, int) {
    let m = inequal_model::<T>(seed, pos);
    match m.0 {
        Result::Err(e) => (Err(e), m.1),
        Result::Ok(p) => (
            if T::le_view(p.1, p.0) {
                Ok((p.0, p.1))
            } else {
                Ok((p.1, p.0))
            },
            m.1,
        ),
    }
}

/// A generated pair sorted high then low, with distinct halves.
#[derive(Debug, Clone, PartialEq, Eq, Hash)]
pub struct SortedPair<T>(pub T, pub T);

impl<T: View> View for SortedPair<T> {
    type V = (T::V, T::V);

    open spec fn view(&self) -> (T::V, T::V) {
        (self.0@, self.1@)
    }
}

impl<T: Generatable + ValueOrd> Generatable for SortedPair<T> {
    open spec fn arb_model(seed: Seq<u8>, pos: int) -> (Result<(T::V, T::V), GenError>, int) {
        sorted_model::<T>(seed, pos)
    }

    open spec fn gen_ok(&self) -> bool {
        self.0@ != self.1@ && T::le_view(self.1@, self.0@) && self.0.gen_ok() && self.1.gen_ok()
    }

    fn arbitrary_from(source: &mut RandomSource) -> (r: Result<Self, GenError>) {
        match InequalPair::<T>::arbitrary_from(source) {
            Err(e) => Err(e),
            Ok(InequalPair(a, b)) => {
                if b.value_le(&a) {
                    Ok(SortedPair(a, b))
                } else {
                    proof {
                        T::le_view_total(a@, b@);
                    }
                    Ok(SortedPair(b, a))
                }
            },
        }
    }
}

} // verus!
