//! A piece of UTF-8 text. Every string is accepted, so parsing never
//! fails; generation produces a plausible paragraph of filler prose of a
//! random word count.

use vstd::prelude::*;

use crate::source::rng_block;
use crate::source::word_of;
use crate::source::RandomSource;
use crate::value::GenError;
use crate::value::Generatable;
use crate::value::GeneratableValue;
use crate::value::ValidatedValue;
use crate::Error;
use crate::Kind;

verus! {

/// What the filler-prose generator yields for a 32-byte seed and a word
/// count: a Markov walk over a fixed corpus driven by a generator that is
/// deterministic for a fixed seed.
pub uninterp spec fn lipsum_of(seed: Seq<u8>, words: int) -> Seq<char>;

/// Relies on `lipsum::lipsum_with_rng` with a `StdRng` built from the
/// seed: `words` words of filler prose, deterministic for a fixed seed.
#[verifier::external_body]
fn lipsum_raw(seed: &[u8; 32], words: usize) -> (r: String)
    ensures
        r@ == lipsum_of(seed@, words as int),
{
    let rng = <rand::rngs::StdRng as rand::SeedableRng>::from_seed(*seed);
    lipsum::lipsum_with_rng(rng, words)
}

/// A piece of UTF-8 valid text.
#[derive(Debug, Clone, PartialEq, Eq, Hash)]
pub struct Text {
    text: String,
}

impl View for Text {
    type V = Seq<char>;

    closed spec fn view(&self) -> Seq<char> {
        self.text@
    }
}

impl Text {
    /// The text itself.
    pub fn as_text(&self) -> (r: &str)
        ensures
            r@ == self@,
    {
        self.text.as_str()
    }
}

impl ValidatedValue for Text {
    open spec fn valid_text(s: Seq<char>) -> bool {
        true
    }

    open spec fn kind_spec() -> Kind {
        Kind::Text
    }

    open spec fn text_of(&self) -> Seq<char> {
        self@
    }

    fn kind() -> (r: Kind) {
        Kind::Text
    }

    fn parse(s: &str) -> (r: Result<Self, Error>)
        ensures
            r matches Ok(v) ==> v@ == s@,
    {
        Ok(Text { text: s.to_owned() })
    }

    fn render(&self) -> (r: String) {
        self.text.clone()
    }
}

impl Generatable for Text {
    open spec fn arb_model(seed: Seq<u8>, pos: int) -> (Result<Seq<char>, GenError>, int) {
        (
            Ok(
                lipsum_of(
                    rng_block(seed, pos),
                    (word_of(rng_block(seed, pos + 1)) % 256) as int,
                ),
            ),
            pos + 2,
        )
    }

    open spec fn gen_ok(&self) -> bool {
        true
    }

    fn arbitrary_from(source: &mut RandomSource) -> (r: Result<Self, GenError>) {
        let block = source.next_block();
        let words = source.next_below(256);
        let prose = lipsum_raw(&block, words as usize);
        Ok(Text { text: prose })
    }
}

impl GeneratableValue for Text {
    open spec fn model_text(v: Seq<char>) -> Seq<char> {
        v
    }

    proof fn generated_is_valid(v: &Self) {
    }
}

} // verus!
