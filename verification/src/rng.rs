//! Seedable randomness for spawn rolls.
//!
//! The simulation draws all of its random numbers from one `StdRng` owned by
//! the world, seeded once at construction, so that identical seeds and
//! identical input sequences replay identical runs. Nothing is assumed about
//! the drawn values beyond their range.

use vstd::prelude::*;

verus! {

/// rand's standard generator, opaque to verification; the simulation only
/// carries it and hands it to the range wrapper below.
#[verifier::external_type_specification]
#[verifier::external_body]
pub struct ExStdRng(rand::rngs::StdRng);

/// Relies on rand's `SeedableRng::seed_from_u64` for `StdRng`: builds a
/// generator from a seed. No property of the stream is assumed.
#[verifier::external_body]
pub(crate) fn rng_from_seed(seed: u64) -> rand::rngs::StdRng {
    <rand::rngs::StdRng as rand::SeedableRng>::seed_from_u64(seed)
}

/// Relies on rand's `Rng::gen_range` over `lo..hi`, which returns a value of
/// the half-open range and panics only when the range is empty.
#[verifier::external_body]
pub(crate) fn rng_range(rng: &mut rand::rngs::StdRng, lo: i64, hi: i64) -> (r: i64)
    requires
        lo < hi,
    ensures
        lo <= r < hi,
{
    rand::Rng::gen_range(rng, lo..hi)
}

} // verus!
