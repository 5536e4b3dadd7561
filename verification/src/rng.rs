//! The game's pseudo-random number generator and the random choices drawn from it.

use vstd::prelude::*;

use rand::distr::Distribution;
use rand::distr::weighted::WeightedIndex;
use rand::TryRng;
use rand::rngs::SysRng;
use rand::RngExt;
use rand_chacha::ChaCha8Rng;
use rand_chacha::rand_core::SeedableRng;

verus! {

/// The game's random number generator, `rand_chacha::ChaCha8Rng`.
#[verifier::external_type_specification]
#[verifier::external_body]
pub struct ExChaCha8Rng(ChaCha8Rng);

/// The internal random number generator used by a game.
pub type GameRng = ChaCha8Rng;

/// The generator that `<ChaCha8Rng as SeedableRng>::seed_from_u64` makes from
/// a seed. Its documentation makes it value-stable: one seed gives one
/// generator on every run, version and architecture.
pub uninterp spec fn seeded_generator(seed: u64) -> GameRng;

/// Calls `<ChaCha8Rng as SeedableRng>::seed_from_u64`, which expands the seed
/// with a fixed PCG32 sequence into a ChaCha key and builds the generator from
/// it. The result is stated only as the named function of the seed; what it
/// will draw is not stated.
#[verifier::external_body]
pub(crate) fn seeded_rng(seed: u64) -> (r: GameRng)
    ensures
        r == seeded_generator(seed),
{
    ChaCha8Rng::seed_from_u64(seed)
}

/// Calls `TryRng::try_next_u64` on `rand::rngs::SysRng`, which asks the
/// operating system's random source for eight bytes and reports a failure of
/// that source as an error rather than panicking; the error becomes `None`.
/// Any value, or `None`, may come back.
#[verifier::external_body]
pub(crate) fn fresh_seed() -> Option<u64> {
    SysRng.try_next_u64().ok()
}

/// Calls `RngExt::random_range(rng, 0..=6)`, whose documentation promises a value
/// within the inclusive range.
#[verifier::external_body]
pub(crate) fn random_index_below_seven(rng: &mut GameRng) -> (r: usize)
    ensures
        r < 7,
{
    rng.random_range(0..=6)
}

/// The sum of seven weights.
pub open spec fn weight_sum(w: [u64; 7]) -> int {
    w[0] + w[1] + w[2] + w[3] + w[4] + w[5] + w[6]
}

/// Calls `WeightedIndex::new(weights)` and `Distribution::sample` on it. With a
/// positive sum that does not overflow, `new` succeeds, and the documentation
/// guarantees that the sampled index is that of an element of non-zero weight.
/// Which such index comes back depends on the generator.
#[verifier::external_body]
pub(crate) fn weighted_index(rng: &mut GameRng, weights: &[u64; 7]) -> (r: usize)
    requires
        0 < weight_sum(*weights) <= u64::MAX,
    ensures
        r < 7,
        weights[r as int] > 0,
{
    WeightedIndex::new(weights.iter()).unwrap().sample(rng)
}

/// The sum of seven weights of type `u32`.
pub open spec fn weight_sum_u32(w: [u32; 7]) -> int {
    w[0] + w[1] + w[2] + w[3] + w[4] + w[5] + w[6]
}

/// Calls `WeightedIndex::<u32>::new(weights)` and `Distribution::sample` on it.
/// With a positive sum that fits in a `u32`, `new` succeeds, and the sampled
/// index is that of an element of non-zero weight. The `u32` weights make the
/// sampler draw from a `u32` range, so for one generator state it gives another
/// index than [`weighted_index`] on the same weights widened to `u64`. Which
/// index comes back depends on the generator.
#[verifier::external_body]
pub(crate) fn weighted_index_u32(rng: &mut GameRng, weights: &[u32; 7]) -> (r: usize)
    requires
        0 < weight_sum_u32(*weights) <= u32::MAX,
    ensures
        r < 7,
        weights[r as int] > 0,
{
    WeightedIndex::new(weights.iter()).unwrap().sample(rng)
}

/// Calls `<ChaCha8Rng as Clone>::clone`. The clone is derived, down to the
/// block buffer and the ChaCha core, over plain copyable data (integers, arrays
/// and 128-bit vector storage), so the copy equals the original.
#[verifier::external_body]
pub(crate) fn clone_rng(rng: &GameRng) -> (r: GameRng)
    ensures
        r == *rng,
{
    rng.clone()
}

} // verus!
