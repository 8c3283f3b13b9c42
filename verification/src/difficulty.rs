//! Difficulty levels and the fixed budget table.

use vstd::prelude::*;

verus! {

/// Difficulty level chosen once per round.  It fixes how many guesses the
/// player gets, how many hints may be requested, and how wide the hint
/// intervals are.
#[derive(Clone, Copy, PartialEq, Eq, Structural, Debug)]
pub enum Difficulty {
    Easy,
    Medium,
    Hard,
}

impl Difficulty {
    /// Maximum number of guesses allowed in a round at this difficulty.
    pub open spec fn spec_attempt_budget(self) -> u32 {
        match self {
            Difficulty::Easy => 10,
            Difficulty::Medium => 5,
            Difficulty::Hard => 3,
        }
    }

    /// Number of hints available in a round at this difficulty.
    pub open spec fn spec_hint_budget(self) -> u32 {
        match self {
            Difficulty::Easy => 3,
            Difficulty::Medium => 2,
            Difficulty::Hard => 1,
        }
    }

    /// Largest radius a hint interval may extend on either side of the
    /// secret at this difficulty.
    pub open spec fn spec_hint_width(self) -> u32 {
        match self {
            Difficulty::Easy => 10,
            Difficulty::Medium => 25,
            Difficulty::Hard => 50,
        }
    }

    pub fn attempt_budget(self) -> (r: u32)
        ensures
            r == self.spec_attempt_budget(),
    {
        match self {
            Difficulty::Easy => 10,
            Difficulty::Medium => 5,
            Difficulty::Hard => 3,
        }
    }

    pub fn hint_budget(self) -> (r: u32)
        ensures
            r == self.spec_hint_budget(),
    {
        match self {
            Difficulty::Easy => 3,
            Difficulty::Medium => 2,
            Difficulty::Hard => 1,
        }
    }

    pub fn hint_width(self) -> (r: u32)
        ensures
            r == self.spec_hint_width(),
    {
        match self {
            Difficulty::Easy => 10,
            Difficulty::Medium => 25,
            Difficulty::Hard => 50,
        }
    }

    /// Menu selector: choice 1 is Easy, 2 is Medium, 3 is Hard; every other
    /// number is rejected.
    pub fn from_choice(choice: u32) -> (r: Option<Difficulty>)
        ensures
            choice == 1 ==> r == Some(Difficulty::Easy),
            choice == 2 ==> r == Some(Difficulty::Medium),
            choice == 3 ==> r == Some(Difficulty::Hard),
            !(1 <= choice <= 3) ==> r is None,
    {
        if choice == 1 {
            Some(Difficulty::Easy)
        } else if choice == 2 {
            Some(Difficulty::Medium)
        } else if choice == 3 {
            Some(Difficulty::Hard)
        } else {
            None
        }
    }

    /// Display name of the level.
    pub fn name(self) -> (r: &'static str)
        ensures
            self == Difficulty::Easy ==> r@ == "Easy"@,
            self == Difficulty::Medium ==> r@ == "Medium"@,
            self == Difficulty::Hard ==> r@ == "Hard"@,
    {
        match self {
            Difficulty::Easy => "Easy",
            Difficulty::Medium => "Medium",
            Difficulty::Hard => "Hard",
        }
    }
}

} // verus!
