//! The negation wrapper: a raw text shaped like a `T` input but guaranteed
//! to fail `T`'s validator. Generating an `Invalid<T>` runs `T`'s negation;
//! negating an `Invalid<T>` draws a valid `T` instead, so negation is an
//! involution at the type level. A generic rejection sampler is also
//! provided: draw unstructured strings and keep the first one the
//! validator rejects.

use core::marker::PhantomData;
use vstd::prelude::*;

use crate::source::rng_block;
use crate::source::RandomSource;
use crate::value::GenError;
use crate::value::Generatable;
use crate::value::GeneratableValue;
use crate::value::NegateArbitrary;
use crate::value::ValidatedValue;
use crate::Error;
use crate::Kind;

verus! {

/// How many candidates the rejection sampler tries before giving up.
pub const REJECTION_RETRIES: u32 = 16;

/// What the arbitrary crate's `String` generator yields from a fixed
/// buffer of bytes: a function of the bytes alone.
pub uninterp spec fn arb_string_of(data: Seq<u8>) -> Seq<char>;

/// Relies on the arbitrary crate's `String` implementation over an
/// `Unstructured` holding the given bytes (an unstructured draw that
/// cannot run out of data yields the empty string on its error path, which
/// is equally a function of the bytes).
#[verifier::external_body]
fn arbitrary_string_raw(data: &[u8; 32]) -> (r: String)
    ensures
        r@ == arb_string_of(data@),
{
    let mut u = arbitrary::Unstructured::new(data);
    match <String as arbitrary::Arbitrary>::arbitrary(&mut u) {
        Ok(s) => s,
        Err(_) => String::new(),
    }
}

/// A raw input that fails `T`'s validator (when generated through `T`'s
/// negation or the rejection sampler).
#[derive(Debug, PartialEq, Eq, Hash)]
pub struct Invalid<T> {
    raw: String,
    marker: PhantomData<T>,
}

impl<T> Clone for Invalid<T> {
    fn clone(&self) -> (r: Self)
        ensures
            r == *self,
    {
        Invalid { raw: self.raw.clone(), marker: PhantomData }
    }
}

impl<T> View for Invalid<T> {
    type V = Seq<char>;

    closed spec fn view(&self) -> Seq<char> {
        self.raw@
    }
}

impl<T> Invalid<T> {
    /// The raw text held by the wrapper.
    pub fn get(&self) -> (r: String)
        ensures
            r@ == self@,
    {
        self.raw.clone()
    }
}

impl<T: ValidatedValue> ValidatedValue for Invalid<T> {
    open spec fn valid_text(s: Seq<char>) -> bool {
        T::valid_text(s)
    }

    open spec fn kind_spec() -> Kind {
        T::kind_spec()
    }

    open spec fn text_of(&self) -> Seq<char> {
        self@
    }

    fn kind() -> (r: Kind) {
        T::kind()
    }

    fn parse(s: &str) -> (r: Result<Self, Error>)
        ensures
            r matches Ok(v) ==> v@ == s@,
    {
        match T::parse(s) {
            Ok(_) => Ok(Invalid { raw: s.to_owned(), marker: PhantomData }),
            Err(e) => Err(e),
        }
    }

    fn render(&self) -> (r: String) {
        self.raw.clone()
    }
}

impl<T: NegateArbitrary> Generatable for Invalid<T> {
    open spec fn arb_model(seed: Seq<u8>, pos: int) -> (Result<Seq<char>, GenError>, int) {
        T::neg_model(seed, pos)
    }

    open spec fn gen_ok(&self) -> bool {
        T::neg_guarantee(self@)
    }

    fn arbitrary_from(source: &mut RandomSource) -> (r: Result<Self, GenError>) {
        match T::negate_arbitrary(source) {
            Ok(s) => Ok(Invalid { raw: s, marker: PhantomData }),
            Err(e) => Err(e),
        }
    }
}

impl<T: GeneratableValue> NegateArbitrary for Invalid<T> {
    open spec fn neg_model(seed: Seq<u8>, pos: int) -> (Result<Seq<char>, GenError>, int) {
        let m = T::arb_model(seed, pos);
        (
            match m.0 {
                Ok(mv) => Ok(T::model_text(mv)),
                Err(e) => Err(e),
            },
            m.1,
        )
    }

    open spec fn neg_guarantee(s: Seq<char>) -> bool {
        T::valid_text(s)
    }

    fn negate_arbitrary(source: &mut RandomSource) -> (r: Result<String, GenError>) {
        match T::arbitrary_from(source) {
            Ok(v) => {
                proof {
                    T::generated_is_valid(&v);
                }
                Ok(v.render())
            },
            Err(e) => Err(e),
        }
    }
}

/// The rejection sampler as a function of the source's state, with `left`
/// candidates still allowed: draw an unstructured string, keep the first
/// one the validator rejects.
pub open spec fn rejection_rec<T: ValidatedValue>(seed: Seq<u8>, pos: int, left: u32) -> (Result<
    Seq<char>,
    GenError,
>, int)
    decreases left,
{
    if left == 0 {
        (Err(GenError::Exhausted(REJECTION_RETRIES)), pos)
    } else {
        let cand = arb_string_of(rng_block(seed, pos));
        if !T::valid_text(cand) {
            (Ok(cand), pos + 1)
        } else {
            rejection_rec::<T>(seed, pos + 1, (left - 1) as u32)
        }
    }
}

/// Rejection sampling of a negative example: repeatedly draw an
/// unstructured random string and keep the first one that fails `T`'s
/// validator, giving up loudly after a fixed retry budget.
pub fn rejection_invalid<T: ValidatedValue>(source: &mut RandomSource) -> (r: Result<
    Invalid<T>,
    GenError,
>)
    ensures
        final(source).seed() == old(source).seed(),
        ({
            let m = rejection_rec::<T>(old(source).seed(), old(source).pos(), REJECTION_RETRIES);
            &&& (match (r, m.0) {
                (Ok(v), Ok(t)) => v@ == t,
                (Err(a), Err(b)) => a == b,
                _ => false,
            })
            &&& final(source).pos() == m.1
        }),
        r matches Ok(v) ==> !T::valid_text(v@),
{
    let mut left: u32 = REJECTION_RETRIES;
    loop
        invariant
            source.seed() == old(source).seed(),
            left <= REJECTION_RETRIES,
            rejection_rec::<T>(old(source).seed(), old(source).pos(), REJECTION_RETRIES)
                == rejection_rec::<T>(source.seed(), source.pos(), left),
        decreases left,
    {
        if left == 0 {
            return Err(GenError::Exhausted(REJECTION_RETRIES));
        }
        let block = source.next_block();
        let cand = arbitrary_string_raw(&block);
        match T::parse(cand.as_str()) {
            Err(_) => {
                return Ok(Invalid { raw: cand, marker: PhantomData });
            },
            Ok(_) => {
            },
        }
        left = left - 1;
    }
}

/// A negative example of `T`, as a raw text: `T`'s own negation strategy.
pub fn invalid<T: NegateArbitrary>(source: &mut RandomSource) -> (r: Result<String, GenError>)
    ensures
        final(source).seed() == old(source).seed(),
        crate::value::matches_text_model(
            r,
            T::neg_model(old(source).seed(), old(source).pos()).0,
        ),
        final(source).pos() == T::neg_model(old(source).seed(), old(source).pos()).1,
        r matches Ok(s) ==> T::neg_guarantee(s@),
{
    T::negate_arbitrary(source)
}

} // verus!
