//! Hint generation: a randomized bracketing interval around the secret.

use vstd::prelude::*;
use crate::difficulty::Difficulty;

verus! {

/// Lower end of a hint interval: the secret pushed down by `radius`, floored
/// at 1.
pub open spec fn spec_hint_low(secret: u32, radius: u32) -> u32 {
    if secret as int - radius as int >= 1 {
        (secret - radius) as u32
    } else {
        1
    }
}

/// Upper end of a hint interval: the secret pushed up by `radius`, capped
/// at 100.
pub open spec fn spec_hint_high(secret: u32, radius: u32) -> u32 {
    if secret as int + radius as int <= 100 {
        (secret + radius) as u32
    } else {
        100
    }
}

/// Relies on rand::random_range: a value drawn uniformly from the inclusive
/// range, which always lies within it.  The precondition keeps the range
/// non-empty, on which the call would panic.
#[verifier::external_body]
fn random_in_range(lo: u32, hi: u32) -> (r: u32)
    requires
        lo <= hi,
    ensures
        lo <= r <= hi,
{
    rand::random_range(lo..=hi)
}

/// Draw a secret for a fresh round: a number in `[1, 100]`.
pub fn draw_secret() -> (r: u32)
    ensures
        1 <= r <= 100,
{
    random_in_range(1, 100)
}

/// The bracketing interval determined by the secret and the two radii drawn
/// for it: `[max(1, secret - radius_low), min(100, secret + radius_high)]`.
pub fn hint_interval(secret: u32, radius_low: u32, radius_high: u32) -> (r: (u32, u32))
    requires
        1 <= secret <= 100,
    ensures
        r.0 == spec_hint_low(secret, radius_low),
        r.1 == spec_hint_high(secret, radius_high),
        1 <= r.0 <= secret,
        secret <= r.1 <= 100,
{
    let low: u32 = if radius_low < secret {
        secret - radius_low
    } else {
        1
    };
    let high: u32 = if radius_high <= 100 - secret {
        secret + radius_high
    } else {
        100
    };
    (low, high)
}

/// Produce a hint for the given secret: an interval that contains it, with
/// both radii drawn independently from `1..=width(difficulty)`.  Repeated
/// calls re-randomize; nothing ties one hint to the last.
pub fn hint(secret: u32, difficulty: Difficulty) -> (r: (u32, u32))
    requires
        1 <= secret <= 100,
    ensures
        1 <= r.0 <= secret,
        secret <= r.1 <= 100,
        r.0 >= spec_hint_low(secret, difficulty.spec_hint_width()),
        r.0 <= spec_hint_low(secret, 1),
        r.1 <= spec_hint_high(secret, difficulty.spec_hint_width()),
        r.1 >= spec_hint_high(secret, 1),
{
    let width = difficulty.hint_width();
    let radius_low = random_in_range(1, width);
    let radius_high = random_in_range(1, width);
    hint_interval(secret, radius_low, radius_high)
}

} // verus!
