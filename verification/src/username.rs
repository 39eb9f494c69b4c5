//! A handle for a user: a leading ASCII letter or digit followed by ASCII
//! letters, digits and underscores. The grammar is checked by a verified
//! character-level validator; generation leans on a name faker whose output
//! is normalised by a verified sanitiser, and negation samples the
//! complement grammar and keeps only texts the validator rejects.

use fake::Fake;
use vstd::prelude::*;

use crate::session::from_regex;
use crate::session::regex_sample_of;
use crate::source::rng_block;
use crate::source::RandomSource;
use crate::strutil::check_alnum_char;
use crate::strutil::check_word_char;
use crate::strutil::is_alnum_char;
use crate::strutil::is_word_char;
use crate::strutil::push_char;
use crate::value::GenError;
use crate::value::Generatable;
use crate::value::GeneratableValue;
use crate::value::NegateArbitrary;
use crate::value::StrictNegate;
use crate::value::ValidatedValue;
use crate::Error;
use crate::Kind;

verus! {

/// How many candidates negation tries before giving up.
pub const USERNAME_NEG_RETRIES: u32 = 8;

/// The texts accepted as usernames.
pub open spec fn username_valid(s: Seq<char>) -> bool {
    s.len() > 0 && is_alnum_char(s[0]) && (forall|i: int| 0 <= i < s.len() ==> is_word_char(s[i]))
}

/// The verified validator for the username grammar.
pub fn check_username(s: &str) -> (r: bool)
    ensures
        r == username_valid(s@),
{
    let n = s.unicode_len();
    if n == 0 {
        return false;
    }
    if !check_alnum_char(s.get_char(0)) {
        return false;
    }
    let mut i: usize = 0;
    while i < n
        invariant
            i <= n,
            n == s@.len(),
            forall|j: int| 0 <= j < i ==> is_word_char(s@[j]),
        decreases n - i,
    {
        if !check_word_char(s.get_char(i)) {
            return false;
        }
        i = i + 1;
    }
    true
}

/// A validated username.
#[derive(Debug, Clone, PartialEq, Eq, Hash)]
pub struct Username {
    text: String,
}

impl View for Username {
    type V = Seq<char>;

    closed spec fn view(&self) -> Seq<char> {
        self.text@
    }
}

impl Username {
    /// The username's text.
    pub fn as_text(&self) -> (r: &str)
        ensures
            r@ == self@,
    {
        self.text.as_str()
    }
}

impl ValidatedValue for Username {
    open spec fn valid_text(s: Seq<char>) -> bool {
        username_valid(s)
    }

    open spec fn kind_spec() -> Kind {
        Kind::Username
    }

    open spec fn text_of(&self) -> Seq<char> {
        self@
    }

    fn kind() -> (r: Kind) {
        Kind::Username
    }

    fn parse(s: &str) -> (r: Result<Self, Error>)
        ensures
            r matches Ok(v) ==> v@ == s@,
    {
        if check_username(s) {
            Ok(Username { text: s.to_owned() })
        } else {
            Err(Error::FailedParsing(Kind::Username, s.to_owned()))
        }
    }

    fn render(&self) -> (r: String) {
        self.text.clone()
    }
}

/// The characters kept when normalising a raw name: dots become
/// underscores, anything outside the username alphabet is dropped.
pub open spec fn squash_chars(s: Seq<char>) -> Seq<char>
    decreases s.len(),
{
    if s.len() == 0 {
        Seq::empty()
    } else {
        let kept = squash_chars(s.drop_last());
        let c = if s.last() == '.' {
            '_'
        } else {
            s.last()
        };
        if is_word_char(c) {
            kept.push(c)
        } else {
            kept
        }
    }
}

/// A raw name normalised into the username grammar: its squashed
/// characters, prefixed with `u` when they do not already start with a
/// letter or digit.
pub open spec fn sanitized_username(s: Seq<char>) -> Seq<char> {
    let kept = squash_chars(s);
    if kept.len() > 0 && is_alnum_char(kept[0]) {
        kept
    } else {
        "u"@ + kept
    }
}

proof fn lemma_squash_word(s: Seq<char>)
    ensures
        forall|i: int| 0 <= i < squash_chars(s).len() ==> is_word_char(#[trigger] squash_chars(s)[i]),
    decreases s.len(),
{
    if s.len() > 0 {
        lemma_squash_word(s.drop_last());
        let kept = squash_chars(s.drop_last());
        let c = if s.last() == '.' {
            '_'
        } else {
            s.last()
        };
        if is_word_char(c) {
            assert(squash_chars(s) == kept.push(c));
            assert forall|i: int| 0 <= i < squash_chars(s).len() implies is_word_char(
                squash_chars(s)[i],
            ) by {
                if i < kept.len() {
                    assert(squash_chars(s)[i] == kept[i]);
                } else {
                    assert(squash_chars(s)[i] == c);
                }
            }
        } else {
            assert(squash_chars(s) == kept);
        }
    }
}

/// Normalise a raw name into a valid username.
pub fn sanitize_username(s: &str) -> (r: String)
    ensures
        r@ == sanitized_username(s@),
        username_valid(r@),
{
    let n = s.unicode_len();
    let mut kept = String::new();
    let mut i: usize = 0;
    while i < n
        invariant
            i <= n,
            n == s@.len(),
            kept@ == squash_chars(s@.take(i as int)),
        decreases n - i,
    {
        let c0 = s.get_char(i);
        let c = if c0 == '.' {
            '_'
        } else {
            c0
        };
        if check_word_char(c) {
            push_char(&mut kept, c);
        }
        proof {
            assert(s@.take(i + 1).drop_last() =~= s@.take(i as int));
            assert(s@.take(i + 1).last() == s@[i as int]);
        }
        i = i + 1;
    }
    proof {
        assert(s@.take(n as int) =~= s@);
        lemma_squash_word(s@);
    }
    if !kept.as_str().is_empty() && check_alnum_char(kept.as_str().get_char(0)) {
        kept
    } else {
        proof {
            reveal_strlit("u");
        }
        let mut out = String::from_str("u");
        out.append(kept.as_str());
        out
    }
}

/// What the name faker yields for a 32-byte seed. The faker is driven by a
/// generator that is deterministic for a fixed seed, so this is a function
/// of the seed alone.
pub uninterp spec fn fake_username_of(seed: Seq<u8>) -> Seq<char>;

/// Relies on fake's `faker::internet::en::Username` driven by a `StdRng`
/// built from the seed: a plausible user name, deterministic for a fixed
/// seed.
#[verifier::external_body]
fn fake_username_raw(seed: &[u8; 32]) -> (r: String)
    ensures
        r@ == fake_username_of(seed@),
{
    let mut rng = <rand::rngs::StdRng as rand::SeedableRng>::from_seed(*seed);
    fake::faker::internet::en::Username().fake_with_rng::<String, _>(&mut rng)
}

impl Generatable for Username {
    open spec fn arb_model(seed: Seq<u8>, pos: int) -> (Result<Seq<char>, GenError>, int) {
        (Ok(sanitized_username(fake_username_of(rng_block(seed, pos)))), pos + 1)
    }

    open spec fn gen_ok(&self) -> bool {
        username_valid(self@)
    }

    fn arbitrary_from(source: &mut RandomSource) -> (r: Result<Self, GenError>) {
        let block = source.next_block();
        let raw = fake_username_raw(&block);
        let name = sanitize_username(raw.as_str());
        Ok(Username { text: name })
    }
}

impl GeneratableValue for Username {
    open spec fn model_text(v: Seq<char>) -> Seq<char> {
        v
    }

    proof fn generated_is_valid(v: &Self) {
    }
}

/// The complement pattern that negation samples: texts that start outside
/// the letter-digit alphabet or hold a character outside the word alphabet.
pub open spec fn username_neg_pattern() -> Seq<char> {
    "[^a-zA-Z0-9].*|.*[^a-zA-Z0-9_].*"@
}

/// The negation generator as a function of the source's state, with `left`
/// candidates still allowed: sample the complement pattern, keep the first
/// candidate the validator rejects.
pub open spec fn username_neg_rec(seed: Seq<u8>, pos: int, left: u32) -> (Result<
    Seq<char>,
    GenError,
>, int)
    decreases left,
{
    if left == 0 {
        (Err(GenError::Exhausted(USERNAME_NEG_RETRIES)), pos)
    } else {
        match regex_sample_of(username_neg_pattern(), rng_block(seed, pos)) {
            Option::None => (Err(GenError::Unsupported), pos + 1),
            Option::Some(t) => if !username_valid(t) {
                (Ok(t), pos + 1)
            } else {
                username_neg_rec(seed, pos + 1, (left - 1) as u32)
            },
        }
    }
}

impl NegateArbitrary for Username {
    open spec fn neg_model(seed: Seq<u8>, pos: int) -> (Result<Seq<char>, GenError>, int) {
        username_neg_rec(seed, pos, USERNAME_NEG_RETRIES)
    }

    open spec fn neg_guarantee(s: Seq<char>) -> bool {
        !username_valid(s)
    }

    fn negate_arbitrary(source: &mut RandomSource) -> (r: Result<String, GenError>) {
        let mut left: u32 = USERNAME_NEG_RETRIES;
        loop
            invariant
                source.seed() == old(source).seed(),
                left <= USERNAME_NEG_RETRIES,
                Self::neg_model(old(source).seed(), old(source).pos()) == username_neg_rec(
                    source.seed(),
                    source.pos(),
                    left,
                ),
            decreases left,
        {
            if left == 0 {
                return Err(GenError::Exhausted(USERNAME_NEG_RETRIES));
            }
            match from_regex(source, "[^a-zA-Z0-9].*|.*[^a-zA-Z0-9_].*") {
                Option::None => {
                    return Err(GenError::Unsupported);
                },
                Option::Some(cand) => {
                    if !check_username(cand.as_str()) {
                        return Ok(cand);
                    }
                },
            }
            left = left - 1;
        }
    }
}

impl StrictNegate for Username {
    proof fn negated_is_invalid(s: Seq<char>) {
    }
}

} // verus!
