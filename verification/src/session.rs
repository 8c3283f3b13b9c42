//! The session state machine: difficulty selection, the round in play, the
//! end-of-round report and the play-again decision.
//!
//! The machine is driven from outside by validated events: each raw input
//! line, the secret drawn for a fresh round, and the measured elapsed
//! seconds.  Every transition is a verified function; the driver only reads
//! lines, measures time and prints.

use vstd::prelude::*;
use crate::difficulty::Difficulty;
use crate::parse::{classify_choice, classify_replay, ChoiceInput, ReplayInput, spec_trim,
    is_u32_string, is_hint_marker, is_yes_marker, is_no_marker, digits_value};
use crate::round::{Round, StepResult, GuessOutcome};
use crate::score::{update_best, spec_update_best};
use crate::timefmt::{format_elapsed, spec_format_elapsed, ElapsedDisplay};
use vstd::pervasive::unreached;

verus! {

/// Where the session stands between two input events.
#[derive(Clone, Copy, PartialEq, Eq, Structural, Debug)]
pub enum SessionState {
    /// At the difficulty menu.
    SelectingDifficulty,
    /// A round is in play.
    Playing(Round),
    /// The round just ended; the end-of-round report is owed.
    RoundEnded,
    /// At the play-again prompt.
    AwaitingReplay,
    /// The player declined another round.
    Terminated,
}

/// A whole game session: the state and the best score across its rounds.
#[derive(Clone, Copy, PartialEq, Eq, Structural, Debug)]
pub struct Session {
    pub best: Option<u32>,
    pub state: SessionState,
}

impl Session {
    /// Well-formed session: any round in play is well-formed and still has
    /// an attempt left.
    pub open spec fn wf(self) -> bool {
        match self.state {
            SessionState::Playing(r) => r.wf() && r.attempts_used
                < r.difficulty.spec_attempt_budget(),
            _ => true,
        }
    }

    /// A fresh session: no best score yet, at the difficulty menu.
    pub fn new() -> (s: Session)
        ensures
            s == (Session { best: None, state: SessionState::SelectingDifficulty }),
            s.wf(),
    {
        Session { best: None, state: SessionState::SelectingDifficulty }
    }

    /// Feed the line typed at the difficulty menu, together with the secret
    /// drawn for the round that would start.  A menu number starts the
    /// round; anything else leaves the menu as it was.
    pub fn choose_difficulty(&mut self, line: &str, secret: u32) -> (r: ChoiceInput)
        requires
            old(self).wf(),
            old(self).state matches SessionState::SelectingDifficulty,
            1 <= secret <= 100,
        ensures
            final(self).wf(),
            final(self).best == old(self).best,
            ({
                let t = spec_trim(line@);
                &&& (!is_u32_string(t) ==> r == ChoiceInput::NotANumber)
                &&& (is_u32_string(t) && !(1 <= digits_value(t) <= 3) ==> r
                    == ChoiceInput::InvalidChoice)
                &&& (is_u32_string(t) && digits_value(t) == 1 ==> r == ChoiceInput::Chosen(
                    Difficulty::Easy,
                ))
                &&& (is_u32_string(t) && digits_value(t) == 2 ==> r == ChoiceInput::Chosen(
                    Difficulty::Medium,
                ))
                &&& (is_u32_string(t) && digits_value(t) == 3 ==> r == ChoiceInput::Chosen(
                    Difficulty::Hard,
                ))
            }),
            (r matches ChoiceInput::Chosen(d) ==> final(self).state == SessionState::Playing(
                Round {
                    secret,
                    difficulty: d,
                    attempts_used: 0,
                    hints_remaining: d.spec_hint_budget(),
                },
            )),
            (!(r matches ChoiceInput::Chosen(_)) ==> final(self).state == old(self).state),
    {
        let r = classify_choice(line);
        if let ChoiceInput::Chosen(d) = r {
            self.state = SessionState::Playing(Round::new(secret, d));
        }
        r
    }

    /// Feed the line typed at the guess prompt to the round in play.  The
    /// round's own step rules apply; on a win the best score is updated, and
    /// on a win or a loss the session moves on to the end-of-round report.
    pub fn guess_line(&mut self, line: &str) -> (r: StepResult)
        requires
            old(self).wf(),
            old(self).state matches SessionState::Playing(_),
        ensures
            final(self).wf(),
            ({
                let round0 = old(self).state->Playing_0;
                let t = spec_trim(line@);
                let g = digits_value(t) as u32;
                &&& (is_u32_string(t) && g == round0.secret ==> {
                    &&& r == (StepResult::Won { attempts: (round0.attempts_used + 1) as u32 })
                    &&& final(self).state == SessionState::RoundEnded
                    &&& final(self).best == spec_update_best(
                        old(self).best,
                        (round0.attempts_used + 1) as u32,
                    )
                })
                &&& (is_u32_string(t) && g != round0.secret ==> final(self).best == old(
                    self,
                ).best)
                &&& (is_u32_string(t) && g < round0.secret && round0.attempts_used + 1
                    < round0.budget() ==> {
                    &&& r == (StepResult::Incorrect {
                        guess: g,
                        outcome: GuessOutcome::SecretGreater,
                    })
                    &&& final(self).state == SessionState::Playing(
                        Round { attempts_used: (round0.attempts_used + 1) as u32, ..round0 },
                    )
                })
                &&& (is_u32_string(t) && g > round0.secret && round0.attempts_used + 1
                    < round0.budget() ==> {
                    &&& r == (StepResult::Incorrect {
                        guess: g,
                        outcome: GuessOutcome::SecretLess,
                    })
                    &&& final(self).state == SessionState::Playing(
                        Round { attempts_used: (round0.attempts_used + 1) as u32, ..round0 },
                    )
                })
                &&& (is_u32_string(t) && g < round0.secret && round0.attempts_used + 1
                    == round0.budget() ==> {
                    &&& r == (StepResult::Lost {
                        guess: g,
                        outcome: GuessOutcome::SecretGreater,
                        secret: round0.secret,
                    })
                    &&& final(self).state == SessionState::RoundEnded
                })
                &&& (is_u32_string(t) && g > round0.secret && round0.attempts_used + 1
                    == round0.budget() ==> {
                    &&& r == (StepResult::Lost {
                        guess: g,
                        outcome: GuessOutcome::SecretLess,
                        secret: round0.secret,
                    })
                    &&& final(self).state == SessionState::RoundEnded
                })
                &&& (!is_u32_string(t) && is_hint_marker(t)
                    && round0.hints_remaining > 0 ==> {
                    &&& (r matches StepResult::HintGiven { low, high } && 1 <= low
                        <= round0.secret <= high <= 100)
                    &&& final(self).state == SessionState::Playing(
                        Round { hints_remaining: (round0.hints_remaining - 1) as u32, ..round0 },
                    )
                    &&& final(self).best == old(self).best
                })
                &&& (!is_u32_string(t) && !(is_hint_marker(t)
                    && round0.hints_remaining > 0) ==> {
                    &&& r == (StepResult::Rejected {
                        hint_available: round0.hints_remaining > 0,
                    })
                    &&& final(self).state == old(self).state
                    &&& final(self).best == old(self).best
                })
            }),
    {
        let mut round = match self.state {
            SessionState::Playing(r) => r,
            _ => unreached(),
        };
        let result = round.step(line);
        match result {
            StepResult::Won { attempts } => {
                self.best = update_best(self.best, attempts);
                self.state = SessionState::RoundEnded;
            },
            StepResult::Lost { .. } => {
                self.state = SessionState::RoundEnded;
            },
            _ => {
                self.state = SessionState::Playing(round);
            },
        }
        result
    }

    /// Close the round that just ended: hand in the measured elapsed seconds
    /// and move on to the play-again prompt.  Returns the display form of
    /// the duration.
    pub fn finish_round(&mut self, elapsed_seconds: u64) -> (r: ElapsedDisplay)
        requires
            old(self).wf(),
            old(self).state matches SessionState::RoundEnded,
        ensures
            final(self).wf(),
            final(self).best == old(self).best,
            final(self).state == SessionState::AwaitingReplay,
            r == spec_format_elapsed(elapsed_seconds),
    {
        self.state = SessionState::AwaitingReplay;
        format_elapsed(elapsed_seconds)
    }

    /// Feed the line typed at the play-again prompt: `y` starts difficulty
    /// selection for a fresh round, `n` ends the session, anything else
    /// re-prompts.
    pub fn replay_line(&mut self, line: &str) -> (r: ReplayInput)
        requires
            old(self).wf(),
            old(self).state matches SessionState::AwaitingReplay,
        ensures
            final(self).wf(),
            final(self).best == old(self).best,
            ({
                let t = spec_trim(line@);
                &&& (is_yes_marker(t) ==> r == ReplayInput::Yes && final(self).state
                    == SessionState::SelectingDifficulty)
                &&& (is_no_marker(t) ==> r == ReplayInput::No && final(self).state
                    == SessionState::Terminated)
                &&& (!is_yes_marker(t) && !is_no_marker(t) ==> r == ReplayInput::Malformed
                    && final(self).state == old(self).state)
            }),
    {
        let r = classify_replay(line);
        match r {
            ReplayInput::Yes => {
                self.state = SessionState::SelectingDifficulty;
            },
            ReplayInput::No => {
                self.state = SessionState::Terminated;
            },
            ReplayInput::Malformed => {},
        }
        r
    }
}

} // verus!
