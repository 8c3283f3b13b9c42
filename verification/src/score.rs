//! Session best score: the fewest attempts ever used to win.

use vstd::prelude::*;

verus! {

/// The best score after a win in `attempts` attempts: the old best if it was
/// already at least as good, otherwise `attempts`.
pub open spec fn spec_update_best(best: Option<u32>, attempts: u32) -> Option<u32> {
    match best {
        Option::None => Some(attempts),
        Option::Some(b) => if attempts < b {
            Some(attempts)
        } else {
            Some(b)
        },
    }
}

/// Record a win that took `attempts` attempts against the current best
/// score.  The best is unset until the first win and only ever improves.
pub fn update_best(best: Option<u32>, attempts: u32) -> (r: Option<u32>)
    ensures
        r == spec_update_best(best, attempts),
{
    match best {
        Option::None => Some(attempts),
        Option::Some(b) => if attempts < b {
            Some(attempts)
        } else {
            Some(b)
        },
    }
}

/// After a win the best score is always set, never worse than it was, and
/// never worse than the attempts of the win that was just recorded.
pub proof fn lemma_best_monotone(best: Option<u32>, attempts: u32)
    ensures
        spec_update_best(best, attempts) is Some,
        best is Some ==> spec_update_best(best, attempts).unwrap() <= best.unwrap(),
        spec_update_best(best, attempts).unwrap() <= attempts,
{
}

} // verus!
