//! The simulation's randomness source.
//!
//! A single seedable generator drives asteroid spawning, explosion bursts and
//! upgrade selection, so a fixed seed replays a run exactly. The generator
//! type and its sampling method come from the `rand` crate and are trusted;
//! everything the simulation concludes from a sample rests only on the
//! documented range bound stated here.

use vstd::prelude::*;

verus! {

#[verifier::external_type_specification]
#[verifier::external_body]
pub struct ExStdRng(rand::rngs::StdRng);

/// Relies on rand's `SeedableRng::seed_from_u64` for `StdRng`: builds a
/// deterministic generator from a seed. Nothing is assumed about the values
/// it will produce.
#[verifier::external_body]
pub fn new_rng(seed: u64) -> rand::rngs::StdRng {
    <rand::rngs::StdRng as rand::SeedableRng>::seed_from_u64(seed)
}

/// Relies on rand's `Rng::gen_range`, which returns a value in the given
/// range and panics only when the range is empty; the precondition rules
/// the empty range out.
#[verifier::external_body]
pub fn rng_range_i64(rng: &mut rand::rngs::StdRng, lo: i64, hi: i64) -> (r: i64)
    requires
        lo < hi,
    ensures
        lo <= r < hi,
{
    rand::Rng::gen_range(rng, lo..hi)
}

} // verus!
