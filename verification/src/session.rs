//! Pattern-based sampling and the generation session.
//!
//! [`from_regex`] draws a string matching a regular expression from the
//! deterministic stream; it is the primitive behind pattern negation.

use vstd::prelude::*;

use crate::source::rng_block;
use crate::source::RandomSource;
use crate::value::matches_arb_model;
use crate::value::GenError;
use crate::value::Generatable;

verus! {

/// One generation session: a seed wired to a generator, yielding exactly
/// one deterministic outcome. Simplification is deliberately a no-op:
/// reproducibility from the seed is the guaranteed property, shrinking
/// quality is not.
pub struct PropTest<T> {
    result: Result<T, GenError>,
    seed_g: Ghost<Seq<u8>>,
}

impl<T: Generatable> PropTest<T> {
    /// The seed this session ran with.
    pub closed spec fn seed(&self) -> Seq<u8> {
        self.seed_g@
    }

    /// The outcome the session produced.
    pub closed spec fn outcome(&self) -> Result<T, GenError> {
        self.result
    }

    /// Run the generator once from a fresh source seeded with `seed`.
    pub fn new(seed: [u8; 32]) -> (r: PropTest<T>)
        ensures
            r.seed() == seed@,
            matches_arb_model(r.outcome(), T::arb_model(seed@, 0).0),
            r.outcome() matches Ok(v) ==> v.gen_ok(),
    {
        let mut source = RandomSource::new(seed);
        let result = T::arbitrary_from(&mut source);
        PropTest { result, seed_g: Ghost(seed@) }
    }

    /// The session's value, or the generator's error.
    pub fn get(self) -> (r: Result<T, GenError>)
        ensures
            r == self.outcome(),
    {
        self.result
    }

    /// Simplification cannot make the value any simpler: a no-op.
    pub fn simplify(&mut self) -> (r: bool)
        ensures
            final(self).outcome() == old(self).outcome(),
            final(self).seed() == old(self).seed(),
            r == false,
    {
        false
    }

    /// Complication is equally a no-op.
    pub fn complicate(&mut self) -> (r: bool)
        ensures
            final(self).outcome() == old(self).outcome(),
            final(self).seed() == old(self).seed(),
            r == false,
    {
        false
    }
}

/// What sampling proptest's regex generator yields for a pattern and a
/// 32-byte seed: `None` when the pattern is not accepted, otherwise the
/// sampled string. The sampler is a fixed algorithm over a seeded ChaCha
/// stream, so this is a function of the pattern and the seed alone.
pub uninterp spec fn regex_sample_of(pattern: Seq<char>, seed: Seq<u8>) -> Option<Seq<char>>;

/// How an executable sampling result relates to [`regex_sample_of`].
pub open spec fn matches_regex_sample(r: Option<String>, m: Option<Seq<char>>) -> bool {
    match (r, m) {
        (Some(s), Some(t)) => s@ == t,
        (None, None) => true,
        _ => false,
    }
}

/// Relies on proptest's `string::string_regex`, `Strategy::new_tree` and
/// `ValueTree::current`: builds the generator for the pattern (failing only
/// on patterns the parser rejects) and samples it once from a `TestRng`
/// seeded with the given bytes.
#[verifier::external_body]
fn sample_regex_raw(pattern: &str, seed: &[u8; 32]) -> (r: Option<String>)
    ensures
        matches_regex_sample(r, regex_sample_of(pattern@, seed@)),
{
    let strategy = match proptest::string::string_regex(pattern) {
        Ok(s) => s,
        Err(_) => return None,
    };
    let algorithm = proptest::test_runner::RngAlgorithm::ChaCha;
    let rng = proptest::test_runner::TestRng::from_seed(algorithm, seed);
    let config = proptest::test_runner::Config::default();
    let mut runner = proptest::test_runner::TestRunner::new_with_rng(config, rng);
    match proptest::strategy::Strategy::new_tree(&strategy, &mut runner) {
        Ok(tree) => Some(proptest::strategy::ValueTree::current(&tree)),
        Err(_) => None,
    }
}

/// Draw a string matching `pattern` from the source's stream, or `None`
/// when the pattern is not supported by the sampler.
pub fn from_regex(source: &mut RandomSource, pattern: &str) -> (r: Option<String>)
    ensures
        final(source).seed() == old(source).seed(),
        final(source).pos() == old(source).pos() + 1,
        matches_regex_sample(
            r,
            regex_sample_of(pattern@, rng_block(old(source).seed(), old(source).pos())),
        ),
{
    let block = source.next_block();
    sample_regex_raw(pattern, &block)
}

} // verus!
