//! The one place where the simulation asks for a random number.

use rand::Rng;
use vstd::prelude::*;

verus! {

/// Draws a whole number from `lo..=hi`.
///
/// Trusted: the body calls `rand::Rng::gen_range` with the inclusive range
/// `lo..=hi` on the generator that `rand::thread_rng` returns. The contract
/// claims only what holds of every draw: the result lies in the range.
/// `gen_range` panics on an empty range, which `requires` leaves out. Nothing
/// is claimed of how the draws are distributed, and two draws from one range
/// may differ. The generator panics where the system gives it no entropy,
/// when it is first seeded or when it reseeds; no argument decides that, so
/// no clause speaks of it.
#[verifier::external_body]
pub(crate) fn draw_between(lo: i64, hi: i64) -> (r: i64)
    requires
        lo <= hi,
    ensures
        lo <= r <= hi,
{
    rand::thread_rng().gen_range(lo..=hi)
}

} // verus!
