//! The pseudo-random source of the patch run: one seeded generator,
//! consulted through a few narrow draws. Every verified decision takes the
//! drawn value as an argument, so it is proved for every outcome.

use vstd::prelude::*;

verus! {

/// The standard seeded generator of the `rand` crate.
#[verifier::external_type_specification]
#[verifier::external_body]
pub struct ExStdRng(rand::rngs::StdRng);

/// Relies on rand's `SeedableRng::seed_from_u64`: builds a deterministic
/// generator from the seed.
#[verifier::external_body]
pub fn rng_from_seed(seed: u64) -> rand::rngs::StdRng {
    <rand::rngs::StdRng as rand::SeedableRng>::seed_from_u64(seed)
}

/// Relies on rand's `Rng::gen_range`: the draw lies in the half-open range,
/// so the result is always below one hundred.
#[verifier::external_body]
pub fn roll_percent(rng: &mut rand::rngs::StdRng) -> (r: u8)
    ensures
        r < 100,
{
    rand::Rng::gen_range(rng, 0..100u8)
}

/// Relies on rand's `Rng::gen_ratio` with denominator 1024, which never
/// panics for a numerator of 1.
#[verifier::external_body]
pub fn one_in_1024(rng: &mut rand::rngs::StdRng) -> bool {
    rand::Rng::gen_ratio(rng, 1, 1024)
}

/// Relies on rand's `SliceRandom::shuffle`: the words are permuted in
/// place, so the multiset of values is unchanged.
#[verifier::external_body]
pub fn shuffle_u32s(rng: &mut rand::rngs::StdRng, v: &mut Vec<u32>)
    ensures
        final(v)@.len() == old(v)@.len(),
        final(v)@.to_multiset() == old(v)@.to_multiset(),
{
    rand::seq::SliceRandom::shuffle(v.as_mut_slice(), rng)
}

} // verus!
