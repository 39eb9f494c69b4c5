//! A validated e-mail address. The acceptance of a text is decided by an
//! outside validator, so the library names that validator's verdict and
//! proves everything else against the name: parsing succeeds exactly on
//! accepted texts, generation re-checks the faker's candidate before
//! wrapping it, and negation keeps only candidates the validator rejects.

use fake::Fake;
use vstd::prelude::*;

use crate::session::from_regex;
use crate::session::regex_sample_of;
use crate::source::rng_block;
use crate::source::RandomSource;
use crate::value::GenError;
use crate::value::Generatable;
use crate::value::GeneratableValue;
use crate::value::NegateArbitrary;
use crate::value::StrictNegate;
use crate::value::ValidatedValue;
use crate::Error;
use crate::Kind;

verus! {

/// How many candidates negation tries before giving up.
pub const EMAIL_NEG_RETRIES: u32 = 8;

/// The e-mail validator's verdict on a text. `serde_email::is_valid_email`
/// is a pure function of the string, so this is a function of the text
/// alone.
pub uninterp spec fn email_valid(s: Seq<char>) -> bool;

/// Relies on `serde_email::is_valid_email`: whether the text is a
/// well-formed e-mail address.
#[verifier::external_body]
fn is_valid_email_raw(s: &str) -> (r: bool)
    ensures
        r == email_valid(s@),
{
    serde_email::is_valid_email(&s)
}

/// What the e-mail faker yields for a 32-byte seed: an address-like string
/// over a safe example domain, deterministic for a fixed seed.
pub uninterp spec fn fake_email_of(seed: Seq<u8>) -> Seq<char>;

/// Relies on fake's `faker::internet::en::SafeEmail` driven by a `StdRng`
/// built from the seed: deterministic for a fixed seed.
#[verifier::external_body]
fn fake_email_raw(seed: &[u8; 32]) -> (r: String)
    ensures
        r@ == fake_email_of(seed@),
{
    let mut rng = <rand::rngs::StdRng as rand::SeedableRng>::from_seed(*seed);
    fake::faker::internet::en::SafeEmail().fake_with_rng::<String, _>(&mut rng)
}

/// A validated e-mail address.
#[derive(Debug, Clone, PartialEq, Eq, Hash)]
pub struct Email {
    text: String,
}

impl View for Email {
    type V = Seq<char>;

    closed spec fn view(&self) -> Seq<char> {
        self.text@
    }
}

impl Email {
    /// The address's text.
    pub fn as_text(&self) -> (r: &str)
        ensures
            r@ == self@,
    {
        self.text.as_str()
    }
}

impl ValidatedValue for Email {
    open spec fn valid_text(s: Seq<char>) -> bool {
        email_valid(s)
    }

    open spec fn kind_spec() -> Kind {
        Kind::Email
    }

    open spec fn text_of(&self) -> Seq<char> {
        self@
    }

    fn kind() -> (r: Kind) {
        Kind::Email
    }

    fn parse(s: &str) -> (r: Result<Self, Error>)
        ensures
            r matches Ok(v) ==> v@ == s@,
    {
        if is_valid_email_raw(s) {
            Ok(Email { text: s.to_owned() })
        } else {
            Err(Error::FailedParsing(Kind::Email, s.to_owned()))
        }
    }

    fn render(&self) -> (r: String) {
        self.text.clone()
    }
}

impl Generatable for Email {
    open spec fn arb_model(seed: Seq<u8>, pos: int) -> (Result<Seq<char>, GenError>, int) {
        let cand = fake_email_of(rng_block(seed, pos));
        (
            if email_valid(cand) {
                Ok(cand)
            } else {
                Err(GenError::Exhausted(1))
            },
            pos + 1,
        )
    }

    open spec fn gen_ok(&self) -> bool {
        email_valid(self@)
    }

    fn arbitrary_from(source: &mut RandomSource) -> (r: Result<Self, GenError>) {
        let block = source.next_block();
        let cand = fake_email_raw(&block);
        if is_valid_email_raw(cand.as_str()) {
            Ok(Email { text: cand })
        } else {
            Err(GenError::Exhausted(1))
        }
    }
}

impl GeneratableValue for Email {
    open spec fn model_text(v: Seq<char>) -> Seq<char> {
        v
    }

    proof fn generated_is_valid(v: &Self) {
    }
}

/// The complement pattern that negation samples: address-like texts
/// missing the separator between local part and domain.
pub open spec fn email_neg_pattern() -> Seq<char> {
    "[a-zA-Z0-9._%+-]+[a-zA-Z0-9.-]+\\.[a-zA-Z]{2,}"@
}

/// The negation generator as a function of the source's state, with `left`
/// candidates still allowed: sample the complement pattern, keep the first
/// candidate the validator rejects.
pub open spec fn email_neg_rec(seed: Seq<u8>, pos: int, left: u32) -> (Result<
    Seq<char>,
    GenError,
>, int)
    decreases left,
{
    if left == 0 {
        (Err(GenError::Exhausted(EMAIL_NEG_RETRIES)), pos)
    } else {
        match regex_sample_of(email_neg_pattern(), rng_block(seed, pos)) {
            Option::None => (Err(GenError::Unsupported), pos + 1),
            Option::Some(t) => if !email_valid(t) {
                (Ok(t), pos + 1)
            } else {
                email_neg_rec(seed, pos + 1, (left - 1) as u32)
            },
        }
    }
}

impl NegateArbitrary for Email {
    open spec fn neg_model(seed: Seq<u8>, pos: int) -> (Result<Seq<char>, GenError>, int) {
        email_neg_rec(seed, pos, EMAIL_NEG_RETRIES)
    }

    open spec fn neg_guarantee(s: Seq<char>) -> bool {
        !email_valid(s)
    }

    fn negate_arbitrary(source: &mut RandomSource) -> (r: Result<String, GenError>) {
        let mut left: u32 = EMAIL_NEG_RETRIES;
        loop
            invariant
                source.seed() == old(source).seed(),
                left <= EMAIL_NEG_RETRIES,
                Self::neg_model(old(source).seed(), old(source).pos()) == email_neg_rec(
                    source.seed(),
                    source.pos(),
                    left,
                ),
            decreases left,
        {
            if left == 0 {
                return Err(GenError::Exhausted(EMAIL_NEG_RETRIES));
            }
            match from_regex(source, "[a-zA-Z0-9._%+-]+[a-zA-Z0-9.-]+\\.[a-zA-Z]{2,}") {
                Option::None => {
                    return Err(GenError::Unsupported);
                },
                Option::Some(cand) => {
                    if !is_valid_email_raw(cand.as_str()) {
                        return Ok(cand);
                    }
                },
            }
            left = left - 1;
        }
    }
}

impl StrictNegate for Email {
    proof fn negated_is_invalid(s: Seq<char>) {
    }
}

} // verus!
