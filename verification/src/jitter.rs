//! The jittered startup delay.
//!
//! Many instances booting at once would otherwise hit the provider's API at
//! the same moment. Each run therefore sleeps a uniformly drawn number of
//! seconds in `[0, max)` before doing any work, where `max` comes from
//! configuration. With `max == 0` the delay is skipped entirely.

use vstd::prelude::*;

verus! {

/// Reduces a raw random draw to a sleep duration below `max`.
///
/// With `max == 0` the result is `0`: no sleep happens at all. Otherwise the
/// result is `random % max`, so a uniformly distributed `random` gives a
/// uniformly distributed duration in `[0, max)`.
pub fn jitter_seconds(random: u32, max: u32) -> (r: u32)
    ensures
        max == 0 ==> r == 0,
        max > 0 ==> r == random % max && r < max,
{
    if max > 0 {
        random % max
    } else {
        0
    }
}

/// Relies on random_manager::u32: a fresh draw from the thread's random
/// number generator. Nothing is promised of the value.
#[verifier::external_body]
fn random_u32() -> u32 {
    random_manager::u32()
}

/// Draws the startup delay for one run: `0` when `max == 0` (the delay is
/// skipped), otherwise a random duration strictly below `max` seconds.
pub fn pick_sleep_seconds(max: u32) -> (r: u32)
    ensures
        max == 0 ==> r == 0,
        max > 0 ==> r < max,
{
    let raw = random_u32();
    jitter_seconds(raw, max)
}

} // verus!
