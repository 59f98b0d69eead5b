//! Random reel draws.
//!
//! Each reel of a spin is an independent, uniformly-random draw from the
//! symbol set. The randomness comes from rand's small PRNG; everything that
//! depends on the drawn values takes them as arguments and is verified for
//! every possible draw.

use vstd::prelude::*;
use rand::Rng;
use rand::SeedableRng;
use rand::rngs::SmallRng;
use crate::payout::{ReelResult, ReelSymbol, SYMBOL_COUNT, symbol_of_index};

verus! {

#[verifier::external_type_specification]
#[verifier::external_body]
pub struct ExSmallRng(SmallRng);

/// Relies on rand's SmallRng::seed_from_u64: builds a small deterministic
/// PRNG from a 64-bit seed.
#[verifier::external_body]
pub fn rng_from_seed(seed: u64) -> SmallRng {
    SmallRng::seed_from_u64(seed)
}

/// Relies on rand's Rng::gen_range over the range 0..n: returns a uniformly
/// drawn value inside the range, and panics only when the range is empty,
/// which the precondition rules out.
#[verifier::external_body]
fn draw_below(rng: &mut SmallRng, n: u32) -> (r: u32)
    requires
        n >= 1,
    ensures
        r < n,
{
    rng.gen_range(0..n)
}

/// One uniformly-random reel symbol.
pub fn draw_symbol(rng: &mut SmallRng) -> ReelSymbol {
    let i = draw_below(rng, SYMBOL_COUNT);
    symbol_of_index(i)
}

/// One spin outcome: a fresh independent draw for each of the three reels.
pub fn draw_reels(rng: &mut SmallRng) -> ReelResult {
    let left = draw_symbol(rng);
    let middle = draw_symbol(rng);
    let right = draw_symbol(rng);
    ReelResult { left, middle, right }
}

} // verus!
