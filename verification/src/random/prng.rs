//! A seeded pseudo-random source over the PCG generator `Lcg64Xsh32`.

use crate::random::seed::{Seed, SeedBuffer};
use rand_core::{RngCore, SeedableRng};
use rand_pcg::Lcg64Xsh32;
use vstd::prelude::*;

verus! {

/// `rand_pcg::Lcg64Xsh32`, the generator. Its fields are private to its
/// crate; what it holds is spoken of through `words`.
#[verifier::external_type_specification]
#[verifier::external_body]
pub struct ExLcg64Xsh32(Lcg64Xsh32);

/// What a generator holds: its state word and its stream word.
pub uninterp spec fn words(generator: Lcg64Xsh32) -> Seq<u64>;

/// The words of the generator that `Lcg64Xsh32::from_seed` builds from
/// sixteen bytes.
pub uninterp spec fn seeded(seed: Seq<u8>) -> Seq<u64>;

/// What `Lcg64Xsh32::next_u32` does on a generator that holds `words`: the
/// number it returns and the words it leaves.
pub uninterp spec fn drawn_u32(words: Seq<u64>) -> (u32, Seq<u64>);

/// Two draws of 32 bits in a row, the first taken as the low half of a
/// 64-bit number and the second as its high half, and the words left after
/// both.
pub open spec fn drawn_u64(words: Seq<u64>) -> (u64, Seq<u64>) {
    let (low, after_low) = drawn_u32(words);
    let (high, after_high) = drawn_u32(after_low);
    ((low + high * 0x1_0000_0000) as u64, after_high)
}

/// `<Lcg64Xsh32 as SeedableRng>::from_seed`: what the new generator holds is
/// a function of the sixteen seed bytes alone, here named `seeded`.
#[verifier::external_body]
fn generator_from_seed(seed: [u8; 16]) -> (generator: Lcg64Xsh32)
    ensures
        words(generator) == seeded(seed@),
{
    Lcg64Xsh32::from_seed(seed)
}

/// `<Lcg64Xsh32 as RngCore>::next_u32`: the number drawn and what the
/// generator holds afterwards are a function of what it held before, here
/// named `drawn_u32`.
#[verifier::external_body]
fn generator_next_u32(generator: &mut Lcg64Xsh32) -> (value: u32)
    ensures
        (value, words(*final(generator))) == drawn_u32(words(*old(generator))),
{
    generator.next_u32()
}

/// `<Lcg64Xsh32 as RngCore>::next_u64`: it calls `next_u32` twice and joins
/// the two numbers, the first as the low half and the second as the high
/// half.
#[verifier::external_body]
fn generator_next_u64(generator: &mut Lcg64Xsh32) -> (value: u64)
    ensures
        (value, words(*final(generator))) == drawn_u64(words(*old(generator))),
{
    generator.next_u64()
}

/// A pseudo-random source. Its view is what its generator holds, which
/// fixes every number that it will hand out.
pub struct Prng {
    rng: Lcg64Xsh32,
}

impl View for Prng {
    type V = Seq<u64>;

    closed spec fn view(&self) -> Seq<u64> {
        words(self.rng)
    }
}

impl Prng {
    /// Starts a generator from the sixteen bytes that `seed` fills.
    pub fn new(seed: Seed) -> (prng: Self)
        ensures
            prng@ == seeded(SeedBuffer::spec_from(seed).0@),
    {
        let buffer = SeedBuffer::from(seed);
        Self { rng: generator_from_seed(buffer.0) }
    }

    /// Draws 32 bits and advances the generator.
    pub fn next_u32(&mut self) -> (value: u32)
        ensures
            (value, final(self)@) == drawn_u32(old(self)@),
    {
        generator_next_u32(&mut self.rng)
    }

    /// Draws 64 bits and advances the generator: two draws of 32 bits, the
    /// low half first.
    pub fn next_u64(&mut self) -> (value: u64)
        ensures
            (value, final(self)@) == drawn_u64(old(self)@),
    {
        generator_next_u64(&mut self.rng)
    }
}

} // verus!
