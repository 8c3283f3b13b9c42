//! Elapsed-time display for a finished round.

use vstd::prelude::*;

verus! {

/// How a duration is shown to the player.
#[derive(Clone, Copy, PartialEq, Eq, Structural, Debug)]
pub enum ElapsedDisplay {
    /// Shown as raw seconds.
    Seconds(u64),
    /// Shown as whole minutes and remainder seconds.
    MinutesSeconds(u64, u64),
}

/// The display form of `seconds`: minutes and remainder for durations in
/// `[60, 3600]`, raw seconds otherwise.  Durations over an hour thus fall
/// back to raw seconds — a quirk of the display rule that is kept as is.
pub open spec fn spec_format_elapsed(seconds: u64) -> ElapsedDisplay {
    if 60 <= seconds <= 3600 {
        ElapsedDisplay::MinutesSeconds((seconds as int / 60) as u64, (seconds as int % 60) as u64)
    } else {
        ElapsedDisplay::Seconds(seconds)
    }
}

/// Choose the display form of an elapsed duration.
pub fn format_elapsed(seconds: u64) -> (r: ElapsedDisplay)
    ensures
        r == spec_format_elapsed(seconds),
{
    if seconds >= 60 && seconds <= 3600 {
        ElapsedDisplay::MinutesSeconds(seconds / 60, seconds % 60)
    } else {
        ElapsedDisplay::Seconds(seconds)
    }
}

} // verus!
