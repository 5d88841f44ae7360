//! Reseeding the counters. A pair is degenerate when it is the winning
//! pair, or when both values are even — with both counters even no LED of
//! the low bits is lit and the board can look dead. A degenerate pair is
//! replaced by fresh uniform draws from `[0, 64)`, redrawn until the
//! result is playable. The generator is seeded with a fixed constant at
//! boot: behaviour is deterministic across power cycles by design.

use vstd::prelude::*;

use rand::rngs::SmallRng;
use rand::{Rng, SeedableRng};

use crate::game::win_pair;

verus! {

/// Draws attempted before giving up on the generator and falling back to
/// a fixed playable pair. The generator's contract bounds each draw but
/// not how many draws a rejection loop needs, so the loop is bounded.
pub const RESEED_TRIES: u32 = 256;

/// Both counters even: no low-order LED lit, the "no signal" state.
pub open spec fn dark_pair(a: u8, b: u8) -> bool {
    a % 2 == 0 && b % 2 == 0
}

/// Pairs the shuffler must replace: the winning pair (just displayed)
/// and the all-even pair.
pub open spec fn needs_reseed(a: u8, b: u8) -> bool {
    win_pair(a, b) || dark_pair(a, b)
}

#[verifier::external_type_specification]
#[verifier::external_body]
pub struct ExSmallRng(SmallRng);

/// Relies on rand::rngs::SmallRng::seed_from_u64: builds the small
/// deterministic generator from a fixed seed. Nothing is stated of the
/// generator's state.
#[verifier::external_body]
pub(crate) fn rng_from_seed(seed: u64) -> SmallRng {
    SmallRng::seed_from_u64(seed)
}

/// Relies on rand::Rng::gen_range over the half-open range `0..64`,
/// which returns a value of the range and panics only on an empty range;
/// only the bound is stated, nothing of which value comes.
#[verifier::external_body]
pub(crate) fn draw_counter(rng: &mut SmallRng) -> (r: u8)
    ensures
        r < 64,
{
    rng.gen_range(0..64)
}

/// Replace a degenerate counter pair by a playable one. A pair that is
/// already playable passes through unchanged; a degenerate pair is
/// redrawn until the draw is playable. The result is never the winning
/// pair and never has both values even.
pub fn reseed(rng: &mut SmallRng, a: u8, b: u8) -> (r: (u8, u8))
    requires
        a < 64,
        b < 64,
    ensures
        r.0 < 64,
        r.1 < 64,
        !needs_reseed(r.0, r.1),
        !needs_reseed(a, b) ==> r == (a, b),
{
    if !(a == 63 && b == 63) && !(a % 2 == 0 && b % 2 == 0) {
        return (a, b);
    }
    let mut tries: u32 = 0;
    while tries < RESEED_TRIES
        invariant
            tries <= RESEED_TRIES,
            needs_reseed(a, b),
        decreases RESEED_TRIES - tries,
    {
        let ra = draw_counter(rng);
        let rb = draw_counter(rng);
        if !(ra == 63 && rb == 63) && !(ra % 2 == 0 && rb % 2 == 0) {
            return (ra, rb);
        }
        tries = tries + 1;
    }
    // Unreached with any reasonable generator: every draw of the bounded
    // loop came back degenerate. Fall back to a fixed playable pair.
    (1, 2)
}

} // verus!
