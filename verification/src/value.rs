//! The capability interfaces of the framework.
//!
//! A [`ValidatedValue`] is a type whose only constructor path is a
//! validating parse from raw text. A [`Generatable`] type can produce random
//! instances from a [`RandomSource`], and its generator is pinned down by a
//! mathematical model of the source's stream, which is what makes
//! reproducibility provable. A [`NegateArbitrary`] type can produce raw
//! texts with a stated guarantee; for the base validated types the guarantee
//! is that the text fails their own validator ([`StrictNegate`]).

use vstd::prelude::*;

use crate::source::RandomSource;
use crate::Error;
use crate::Kind;

verus! {

/// The error of a generator, as opposed to a validator.
#[derive(Debug, Clone, Copy, PartialEq, Eq, Structural)]
pub enum GenError {
    /// Rejection sampling gave up; holds the number of attempts made.
    Exhausted(u32),
    /// A generator was asked for a capability its description lacks, such
    /// as a negation pattern its sampler does not accept.
    Unsupported,
}

/// A type parsed from raw text by a validator, and rendered back to text.
pub trait ValidatedValue: Sized {
    /// The texts this domain accepts.
    spec fn valid_text(s: Seq<char>) -> bool;

    /// The domain's tag, carried by its parse failures.
    spec fn kind_spec() -> Kind;

    /// The text this value renders to.
    spec fn text_of(&self) -> Seq<char>;

    /// The runtime counterpart of `kind_spec`.
    fn kind() -> (r: Kind)
        ensures
            r == Self::kind_spec(),
    ;

    /// Validate raw text: succeeds exactly on the domain's valid texts, and
    /// fails with the domain's own tag and the raw input otherwise. A value
    /// built by parsing always renders to a valid text again.
    fn parse(s: &str) -> (r: Result<Self, Error>)
        ensures
            r is Ok <==> Self::valid_text(s@),
            r matches Ok(v) ==> Self::valid_text(v.text_of()),
            r matches Err(e) ==> (e matches Error::FailedParsing(k, raw) && k == Self::kind_spec()
                && raw@ == s@),
    ;

    /// The value's textual form.
    fn render(&self) -> (r: String)
        ensures
            r@ == self.text_of(),
    ;
}

/// How a generated result relates to its model: equal abstract value on
/// success, equal error on failure.
pub open spec fn matches_arb_model<T: View>(r: Result<T, GenError>, m: Result<
    T::V,
    GenError,
>) -> bool {
    match (r, m) {
        (Ok(v), Ok(mv)) => v@ == mv,
        (Err(a), Err(b)) => a == b,
        _ => false,
    }
}

/// A type with a deterministic random generator of (usually valid) values.
pub trait Generatable: View + Sized {
    /// The generator as a mathematical function of the source's state: from
    /// the seed and position, the produced abstract value (or error) and
    /// the new position.
    spec fn arb_model(seed: Seq<u8>, pos: int) -> (Result<Self::V, GenError>, int);

    /// What is guaranteed of every successfully generated value.
    spec fn gen_ok(&self) -> bool;

    /// Draw one instance. The result is exactly the model of the source's
    /// current state, so two draws from equally seeded sources agree.
    fn arbitrary_from(source: &mut RandomSource) -> (r: Result<Self, GenError>)
        ensures
            final(source).seed() == old(source).seed(),
            matches_arb_model(r, Self::arb_model(old(source).seed(), old(source).pos()).0),
            final(source).pos() == Self::arb_model(old(source).seed(), old(source).pos()).1,
            r matches Ok(v) ==> v.gen_ok(),
    ;
}

/// A validated type whose generated instances are valid: the bridge that
/// makes the generic round-trip law provable.
pub trait GeneratableValue: ValidatedValue + Generatable {
    /// The text a value with abstract content `v` renders to.
    spec fn model_text(v: Self::V) -> Seq<char>;

    /// Every value the generator guarantees is valid for the domain, and
    /// renders to the text its abstract content determines.
    proof fn generated_is_valid(v: &Self)
        requires
            v.gen_ok(),
        ensures
            Self::valid_text(v.text_of()),
            v.text_of() == Self::model_text(v@),
    ;
}

/// How a produced raw text relates to a negation model: same text on
/// success, same error on failure.
pub open spec fn matches_text_model(r: Result<String, GenError>, m: Result<
    Seq<char>,
    GenError,
>) -> bool {
    match (r, m) {
        (Ok(s), Ok(t)) => s@ == t,
        (Err(a), Err(b)) => a == b,
        _ => false,
    }
}

/// A type with a deterministic generator of raw texts carrying a stated
/// guarantee. For base validated types the guarantee is failing their own
/// validator; for the negation wrapper it is the opposite.
pub trait NegateArbitrary: Sized {
    /// The negation generator as a mathematical function of the source's
    /// state: the produced text (or error) and the new position.
    spec fn neg_model(seed: Seq<u8>, pos: int) -> (Result<Seq<char>, GenError>, int);

    /// What is guaranteed of every produced text.
    spec fn neg_guarantee(s: Seq<char>) -> bool;

    /// Produce one raw text. The result is exactly the model of the
    /// source's current state.
    fn negate_arbitrary(source: &mut RandomSource) -> (r: Result<String, GenError>)
        ensures
            final(source).seed() == old(source).seed(),
            matches_text_model(r, Self::neg_model(old(source).seed(), old(source).pos()).0),
            final(source).pos() == Self::neg_model(old(source).seed(), old(source).pos()).1,
            r matches Ok(s) ==> Self::neg_guarantee(s@),
    ;
}

/// A validated type whose negation guarantee is exactly "fails my own
/// validator": the bridge that makes the generic negation law provable.
pub trait StrictNegate: ValidatedValue + NegateArbitrary {
    /// Every text the negation guarantees is invalid for the domain.
    proof fn negated_is_invalid(s: Seq<char>)
        requires
            Self::neg_guarantee(s),
        ensures
            !Self::valid_text(s),
    ;
}

} // verus!
