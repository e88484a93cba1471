//! The one call into the game engine that the verified logic makes: drawing
//! a pseudo-random integer for the toggle timers and the variant rolls.

use vstd::prelude::*;

verus! {

/// Relies on macroquad::rand::gen_range (quad-rand): for an integer type it
/// returns `low + floor((high - low) * u)` with `u` drawn in [0, 1) as an
/// exact multiple of 2^-32, so the result lies in [low, high). The bound on
/// `high` keeps the f64 arithmetic inside the generator exact enough that
/// the result never rounds up to `high`.
#[verifier::external_body]
pub(crate) fn rand_in_range(low: u64, high: u64) -> (r: u64)
    requires
        low < high,
        high <= 1_000_000,
    ensures
        low <= r < high,
{
    macroquad::rand::gen_range(low, high)
}

} // verus!
