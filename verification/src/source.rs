//! A deterministic, seedable random source.
//!
//! Every generator in this crate draws from a [`RandomSource`], which is
//! fully determined by its 32-byte seed: the `i`-th 32-byte block drawn from
//! a source is the mathematical function [`rng_block`] of the seed and `i`.
//! All further draws (words, bounded integers, forked sub-sources) are
//! verified code built on top of that single primitive.

use rand::RngCore;
use rand::SeedableRng;
use vstd::prelude::*;

verus! {

#[verifier::external_type_specification]
#[verifier::external_body]
pub struct ExStdRng(rand::rngs::StdRng);

/// The `i`-th 32-byte block that a `rand::rngs::StdRng` seeded with `seed`
/// yields through successive 32-byte `fill_bytes` calls. `StdRng` is
/// documented to be deterministic and portable for a fixed seed, so this is
/// a function of `seed` and `i` alone.
pub uninterp spec fn rng_block(seed: Seq<u8>, i: int) -> Seq<u8>;

/// A deterministic stream of random bytes, reproducible from its seed.
pub struct RandomSource {
    rng: rand::rngs::StdRng,
    seed_g: Ghost<Seq<u8>>,
    pos_g: Ghost<int>,
}

impl RandomSource {
    /// The seed this source was created from.
    pub closed spec fn seed(&self) -> Seq<u8> {
        self.seed_g@
    }

    /// How many 32-byte blocks have been drawn so far.
    pub closed spec fn pos(&self) -> int {
        self.pos_g@
    }
}

/// Relies on `rand::SeedableRng::from_seed` for `StdRng`: builds the
/// generator deterministically from the 32-byte seed. What the resulting
/// stream holds is stated on [`RandomSource::next_block`].
#[verifier::external_body]
fn std_rng_from_seed(seed: &[u8; 32]) -> rand::rngs::StdRng {
    rand::rngs::StdRng::from_seed(*seed)
}

impl RandomSource {
    pub fn new(seed: [u8; 32]) -> (r: RandomSource)
        ensures
            r.seed() == seed@,
            r.pos() == 0,
    {
        RandomSource { rng: std_rng_from_seed(&seed), seed_g: Ghost(seed@), pos_g: Ghost(0) }
    }

    /// Relies on `rand::RngCore::fill_bytes` for `StdRng`: fills the buffer
    /// with the next bytes of the stream, which for a fixed seed is
    /// deterministic and portable.
    #[verifier::external_body]
    pub fn next_block(&mut self) -> (r: [u8; 32])
        ensures
            final(self).seed() == old(self).seed(),
            final(self).pos() == old(self).pos() + 1,
            r@ == rng_block(old(self).seed(), old(self).pos()),
    {
        let mut block = [0u8; 32];
        self.rng.fill_bytes(&mut block);
        block
    }

    /// A fresh source whose seed is the next block of this one, so that
    /// composed generators can take independent sub-streams without
    /// correlating their draws.
    pub fn fork(&mut self) -> (r: RandomSource)
        ensures
            final(self).seed() == old(self).seed(),
            final(self).pos() == old(self).pos() + 1,
            r.seed() == rng_block(old(self).seed(), old(self).pos()),
            r.pos() == 0,
    {
        let block = self.next_block();
        RandomSource::new(block)
    }

    /// The next 64-bit word of the stream: the first eight bytes of the next
    /// block, little endian.
    pub fn next_u64(&mut self) -> (r: u64)
        ensures
            final(self).seed() == old(self).seed(),
            final(self).pos() == old(self).pos() + 1,
            r == word_of(rng_block(old(self).seed(), old(self).pos())),
    {
        let block = self.next_block();
        word_from_bytes(&block)
    }

    /// The next 128-bit value of the stream: the first sixteen bytes of the
    /// next block, little endian.
    pub fn next_u128(&mut self) -> (r: u128)
        ensures
            final(self).seed() == old(self).seed(),
            final(self).pos() == old(self).pos() + 1,
            r == wide_of(rng_block(old(self).seed(), old(self).pos())),
    {
        let block = self.next_block();
        wide_from_bytes(&block)
    }

    /// A uniform-ish draw below `bound`.
    pub fn next_below(&mut self, bound: u64) -> (r: u64)
        requires
            bound > 0,
        ensures
            final(self).seed() == old(self).seed(),
            final(self).pos() == old(self).pos() + 1,
            r == word_of(rng_block(old(self).seed(), old(self).pos())) % bound,
            r < bound,
    {
        let w = self.next_u64();
        w % bound
    }
}

/// The first eight bytes of a block, read as a little-endian 64-bit word.
pub open spec fn word_of(b: Seq<u8>) -> u64 {
    (b[0] + b[1] * 0x100 + b[2] * 0x1_0000 + b[3] * 0x100_0000 + b[4] * 0x1_0000_0000
        + b[5] * 0x100_0000_0000 + b[6] * 0x1_0000_0000_0000 + b[7] * 0x100_0000_0000_0000) as u64
}

/// The first sixteen bytes of a block, read as a little-endian 128-bit value.
pub open spec fn wide_of(b: Seq<u8>) -> u128 {
    (word_of(b) + word_of(b.skip(8)) * 0x1_0000_0000_0000_0000) as u128
}

fn word_from_bytes(b: &[u8; 32]) -> (r: u64)
    ensures
        r == word_of(b@),
{
    let r: u64 = (b[0] as u64) + (b[1] as u64) * 0x100 + (b[2] as u64) * 0x1_0000 + (b[3] as u64)
        * 0x100_0000 + (b[4] as u64) * 0x1_0000_0000 + (b[5] as u64) * 0x100_0000_0000 + (
    b[6] as u64) * 0x1_0000_0000_0000 + (b[7] as u64) * 0x100_0000_0000_0000;
    r
}

fn wide_from_bytes(b: &[u8; 32]) -> (r: u128)
    ensures
        r == wide_of(b@),
{
    let lo = word_from_bytes(b);
    let hi: u64 = (b[8] as u64) + (b[9] as u64) * 0x100 + (b[10] as u64) * 0x1_0000 + (b[11] as u64)
        * 0x100_0000 + (b[12] as u64) * 0x1_0000_0000 + (b[13] as u64) * 0x100_0000_0000 + (
    b[14] as u64) * 0x1_0000_0000_0000 + (b[15] as u64) * 0x100_0000_0000_0000;
    let r: u128 = (lo as u128) + (hi as u128) * 0x1_0000_0000_0000_0000;
    proof {
        assert(b@.skip(8)[0] == b@[8]);
        assert(b@.skip(8)[1] == b@[9]);
        assert(b@.skip(8)[2] == b@[10]);
        assert(b@.skip(8)[3] == b@[11]);
        assert(b@.skip(8)[4] == b@[12]);
        assert(b@.skip(8)[5] == b@[13]);
        assert(b@.skip(8)[6] == b@[14]);
        assert(b@.skip(8)[7] == b@[15]);
    }
    r
}

} // verus!
