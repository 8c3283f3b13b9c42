//! The round engine: one secret, one budget, one guess-evaluation step at a
//! time.

use vstd::prelude::*;
use crate::difficulty::Difficulty;
use crate::hint::hint;
use crate::parse::{classify_guess, GuessInput, spec_trim, is_u32_string, is_hint_marker,
    digits_value};

verus! {

/// How a guess relates to the secret.
#[derive(Clone, Copy, PartialEq, Eq, Structural, Debug)]
pub enum GuessOutcome {
    /// The guess equals the secret.
    Correct,
    /// The secret is greater than the guess.
    SecretGreater,
    /// The secret is less than the guess.
    SecretLess,
}

/// Compare a guess with the secret.
pub fn compare_guess(guess: u32, secret: u32) -> (r: GuessOutcome)
    ensures
        r == GuessOutcome::Correct <==> guess == secret,
        r == GuessOutcome::SecretGreater <==> guess < secret,
        r == GuessOutcome::SecretLess <==> guess > secret,
{
    if guess == secret {
        GuessOutcome::Correct
    } else if guess < secret {
        GuessOutcome::SecretGreater
    } else {
        GuessOutcome::SecretLess
    }
}

/// What one submitted line did to the round.
#[derive(Clone, Copy, PartialEq, Eq, Structural, Debug)]
pub enum StepResult {
    /// The guess matched: the round is won after `attempts` attempts.
    Won { attempts: u32 },
    /// A wrong guess with chances left; `outcome` is the feedback to show.
    Incorrect { guess: u32, outcome: GuessOutcome },
    /// A wrong guess on the last chance: the round is lost and the secret
    /// revealed.
    Lost { guess: u32, outcome: GuessOutcome, secret: u32 },
    /// A hint was granted: the secret lies in `[low, high]`.
    HintGiven { low: u32, high: u32 },
    /// The line consumed nothing: it was unparsable, or a hint request with
    /// no hints left.  `hint_available` says whether hints remain.
    Rejected { hint_available: bool },
}

/// State of one round in play.
#[derive(Clone, Copy, PartialEq, Eq, Structural, Debug)]
pub struct Round {
    pub secret: u32,
    pub difficulty: Difficulty,
    pub attempts_used: u32,
    pub hints_remaining: u32,
}

impl Round {
    /// The attempt budget of this round.
    pub open spec fn budget(self) -> u32 {
        self.difficulty.spec_attempt_budget()
    }

    /// Well-formed round state: the secret is in range and neither counter
    /// has passed its budget.
    pub open spec fn wf(self) -> bool {
        &&& 1 <= self.secret <= 100
        &&& self.attempts_used <= self.budget()
        &&& self.hints_remaining <= self.difficulty.spec_hint_budget()
    }

    /// Start a round: no attempts used yet, the full hint budget available.
    pub fn new(secret: u32, difficulty: Difficulty) -> (r: Round)
        requires
            1 <= secret <= 100,
        ensures
            r == (Round {
                secret,
                difficulty,
                attempts_used: 0,
                hints_remaining: difficulty.spec_hint_budget(),
            }),
            r.wf(),
    {
        Round { secret, difficulty, attempts_used: 0, hints_remaining: difficulty.hint_budget() }
    }

    /// Feed one input line to the round.
    ///
    /// A valid guess consumes an attempt and is answered with the win, the
    /// loss, or the direction of the secret; a hint request grants an
    /// interval around the secret while hints remain; anything else leaves
    /// the round untouched.
    pub fn step(&mut self, line: &str) -> (r: StepResult)
        requires
            old(self).wf(),
            old(self).attempts_used < old(self).budget(),
        ensures
            final(self).wf(),
            final(self).secret == old(self).secret,
            final(self).difficulty == old(self).difficulty,
            ({
                let t = spec_trim(line@);
                let g = digits_value(t) as u32;
                &&& (is_u32_string(t) ==> {
                    &&& final(self).attempts_used == old(self).attempts_used + 1
                    &&& final(self).hints_remaining == old(self).hints_remaining
                    &&& (g == old(self).secret ==> r == (StepResult::Won {
                        attempts: (old(self).attempts_used + 1) as u32,
                    }))
                    &&& (g < old(self).secret && old(self).attempts_used + 1 < old(self).budget()
                        ==> r == (StepResult::Incorrect {
                        guess: g,
                        outcome: GuessOutcome::SecretGreater,
                    }))
                    &&& (g > old(self).secret && old(self).attempts_used + 1 < old(self).budget()
                        ==> r == (StepResult::Incorrect {
                        guess: g,
                        outcome: GuessOutcome::SecretLess,
                    }))
                    &&& (g < old(self).secret && old(self).attempts_used + 1 == old(self).budget()
                        ==> r == (StepResult::Lost {
                        guess: g,
                        outcome: GuessOutcome::SecretGreater,
                        secret: old(self).secret,
                    }))
                    &&& (g > old(self).secret && old(self).attempts_used + 1 == old(self).budget()
                        ==> r == (StepResult::Lost {
                        guess: g,
                        outcome: GuessOutcome::SecretLess,
                        secret: old(self).secret,
                    }))
                })
                &&& (!is_u32_string(t) && is_hint_marker(t) && old(self).hints_remaining > 0 ==> {
                    &&& final(self).attempts_used == old(self).attempts_used
                    &&& final(self).hints_remaining == old(self).hints_remaining - 1
                    &&& (r matches StepResult::HintGiven { low, high } && 1 <= low <= old(
                        self,
                    ).secret <= high <= 100)
                })
                &&& (!is_u32_string(t) && !(is_hint_marker(t) && old(self).hints_remaining > 0)
                    ==> {
                    &&& *final(self) == *old(self)
                    &&& r == (StepResult::Rejected {
                        hint_available: old(self).hints_remaining > 0,
                    })
                })
            }),
    {
        match classify_guess(line) {
            GuessInput::Guess(g) => {
                self.attempts_used = self.attempts_used + 1;
                match compare_guess(g, self.secret) {
                    GuessOutcome::Correct => StepResult::Won { attempts: self.attempts_used },
                    outcome => {
                        if self.attempts_used == self.difficulty.attempt_budget() {
                            StepResult::Lost { guess: g, outcome, secret: self.secret }
                        } else {
                            StepResult::Incorrect { guess: g, outcome }
                        }
                    },
                }
            },
            GuessInput::HintRequest => {
                if self.hints_remaining > 0 {
                    self.hints_remaining = self.hints_remaining - 1;
                    let interval = hint(self.secret, self.difficulty);
                    StepResult::HintGiven { low: interval.0, high: interval.1 }
                } else {
                    StepResult::Rejected { hint_available: false }
                }
            },
            GuessInput::Malformed => StepResult::Rejected {
                hint_available: self.hints_remaining > 0,
            },
        }
    }
}

} // verus!
