//! Decimal rendering of the numbers the game shows, and the elapsed-time
//! message built from it.

use vstd::prelude::*;
use crate::parse::{is_digit, digit_value, all_digits, digits_value};
use crate::round::{GuessOutcome, StepResult};
use crate::timefmt::ElapsedDisplay;

verus! {

/// The character for one decimal digit.
pub open spec fn digit_char(d: int) -> char {
    if d == 0 {
        '0'
    } else if d == 1 {
        '1'
    } else if d == 2 {
        '2'
    } else if d == 3 {
        '3'
    } else if d == 4 {
        '4'
    } else if d == 5 {
        '5'
    } else if d == 6 {
        '6'
    } else if d == 7 {
        '7'
    } else if d == 8 {
        '8'
    } else {
        '9'
    }
}

/// The decimal writing of `n`, most significant digit first, without leading
/// zeros (`0` itself is written as one digit).
pub open spec fn spec_digits(n: int) -> Seq<char>
    decreases n,
{
    if n < 10 {
        seq![digit_char(n)]
    } else {
        spec_digits(n / 10).push(digit_char(n % 10))
    }
}

proof fn lemma_digit_char_value(d: int)
    requires
        0 <= d < 10,
    ensures
        is_digit(digit_char(d)),
        digit_value(digit_char(d)) == d,
{
}

/// Rendering and parsing agree: the decimal writing of `n` is all digits and
/// reads back as `n`.
pub proof fn lemma_digits_roundtrip(n: int)
    requires
        0 <= n,
    ensures
        spec_digits(n).len() >= 1,
        all_digits(spec_digits(n)),
        digits_value(spec_digits(n)) == n,
    decreases n,
{
    if n < 10 {
        lemma_digit_char_value(n);
        assert(spec_digits(n).drop_last() =~= Seq::<char>::empty());
        assert(digits_value(spec_digits(n)) == digits_value(Seq::<char>::empty()) * 10
            + digit_value(digit_char(n)));
    } else {
        lemma_digits_roundtrip(n / 10);
        lemma_digit_char_value(n % 10);
        assert(spec_digits(n).drop_last() =~= spec_digits(n / 10));
        assert(digits_value(spec_digits(n)) == digits_value(spec_digits(n / 10)) * 10 + digit_value(
            digit_char(n % 10),
        ));
        assert(n == (n / 10) * 10 + n % 10) by {
            vstd::arithmetic::div_mod::lemma_fundamental_div_mod(n, 10);
        }
    }
}

fn digit_str(d: u64) -> (r: &'static str)
    requires
        d < 10,
    ensures
        r@ =~= seq![digit_char(d as int)],
{
    proof {
        reveal_strlit("0");
        reveal_strlit("1");
        reveal_strlit("2");
        reveal_strlit("3");
        reveal_strlit("4");
        reveal_strlit("5");
        reveal_strlit("6");
        reveal_strlit("7");
        reveal_strlit("8");
        reveal_strlit("9");
    }
    if d == 0 {
        "0"
    } else if d == 1 {
        "1"
    } else if d == 2 {
        "2"
    } else if d == 3 {
        "3"
    } else if d == 4 {
        "4"
    } else if d == 5 {
        "5"
    } else if d == 6 {
        "6"
    } else if d == 7 {
        "7"
    } else if d == 8 {
        "8"
    } else {
        "9"
    }
}

/// Write `n` in decimal.
pub fn u64_to_string(n: u64) -> (r: String)
    ensures
        r@ == spec_digits(n as int),
    decreases n,
{
    if n < 10 {
        String::from_str(digit_str(n))
    } else {
        let mut s = u64_to_string(n / 10);
        s.append(digit_str(n % 10));
        proof {
            assert(spec_digits(n as int) =~= spec_digits(n as int / 10).push(
                digit_char(n as int % 10),
            ));
            assert(spec_digits(n as int / 10).push(digit_char(n as int % 10)) =~= spec_digits(
                n as int / 10,
            ) + seq![digit_char(n as int % 10)]);
        }
        s
    }
}

/// A prefix followed by a number in decimal.
fn num_after(prefix: &str, n: u64) -> (r: String)
    ensures
        r@ == prefix@ + spec_digits(n as int),
{
    let mut out = String::from_str(prefix);
    let mid = u64_to_string(n);
    out.append(mid.as_str());
    out
}

/// The feedback line for a wrong guess: which side of it the secret lies on.
pub open spec fn spec_feedback_message(guess: u32, outcome: GuessOutcome) -> Seq<char> {
    match outcome {
        GuessOutcome::SecretGreater => "Incorrect! The number is greater than "@ + spec_digits(
            guess as int,
        ),
        GuessOutcome::SecretLess => "Incorrect! The number is less than "@ + spec_digits(
            guess as int,
        ),
        GuessOutcome::Correct => Seq::empty(),
    }
}

/// Build the feedback line for a wrong guess.
pub fn feedback_message(guess: u32, outcome: GuessOutcome) -> (r: String)
    ensures
        r@ == spec_feedback_message(guess, outcome),
{
    match outcome {
        GuessOutcome::SecretGreater => num_after(
            "Incorrect! The number is greater than ",
            guess as u64,
        ),
        GuessOutcome::SecretLess => num_after("Incorrect! The number is less than ", guess as u64),
        GuessOutcome::Correct => String::new(),
    }
}

/// The text printed in answer to one guess-prompt input.
pub open spec fn spec_step_message(r: StepResult) -> Seq<char> {
    match r {
        StepResult::Won { attempts } => "\nCongratulations! You guessed the correct number in "@
            + spec_digits(attempts as int) + " attempts."@,
        StepResult::Incorrect { guess, outcome } => spec_feedback_message(guess, outcome),
        StepResult::Lost { guess, outcome, secret } => spec_feedback_message(guess, outcome)
            + "\n\nYou lose the number was "@ + spec_digits(secret as int) + "!"@,
        StepResult::HintGiven { low, high } => "The number is between "@ + spec_digits(low as int)
            + " and "@ + spec_digits(high as int),
        StepResult::Rejected { hint_available } => if hint_available {
            "Please just enter numbers or 'H' for a hint!"@
        } else {
            "Please just enter numbers!"@
        },
    }
}

impl StepResult {
    /// Build the text this step is answered with, ready to print.
    pub fn message(self) -> (r: String)
        ensures
            r@ == spec_step_message(self),
    {
        match self {
            StepResult::Won { attempts } => {
                let mut out = num_after(
                    "\nCongratulations! You guessed the correct number in ",
                    attempts as u64,
                );
                out.append(" attempts.");
                proof {
                    assert(out@ =~= spec_step_message(self));
                }
                out
            },
            StepResult::Incorrect { guess, outcome } => feedback_message(guess, outcome),
            StepResult::Lost { guess, outcome, secret } => {
                let mut out = feedback_message(guess, outcome);
                let tail = num_after("\n\nYou lose the number was ", secret as u64);
                out.append(tail.as_str());
                out.append("!");
                proof {
                    assert(out@ =~= spec_step_message(self));
                }
                out
            },
            StepResult::HintGiven { low, high } => {
                let mut out = num_after("The number is between ", low as u64);
                out.append(" and ");
                let second = u64_to_string(high as u64);
                out.append(second.as_str());
                proof {
                    assert(out@ =~= spec_step_message(self));
                }
                out
            },
            StepResult::Rejected { hint_available } => {
                if hint_available {
                    String::from_str("Please just enter numbers or 'H' for a hint!")
                } else {
                    String::from_str("Please just enter numbers!")
                }
            },
        }
    }
}

/// The end-of-round best-score line.
pub open spec fn spec_best_score_message(best: Option<u32>) -> Seq<char> {
    match best {
        Option::Some(b) => "Highest Score (attempts to win): "@ + spec_digits(b as int),
        Option::None => "Highest Score (attempts to win): None"@,
    }
}

/// Build the end-of-round best-score line.
pub fn best_score_message(best: Option<u32>) -> (r: String)
    ensures
        r@ == spec_best_score_message(best),
{
    match best {
        Option::Some(b) => num_after("Highest Score (attempts to win): ", b as u64),
        Option::None => String::from_str("Highest Score (attempts to win): None"),
    }
}

/// The text of an elapsed-time display.
pub open spec fn spec_elapsed_message(d: ElapsedDisplay) -> Seq<char> {
    match d {
        ElapsedDisplay::Seconds(s) => spec_digits(s as int) + " seconds"@,
        ElapsedDisplay::MinutesSeconds(m, s) => spec_digits(m as int) + " minutes and "@
            + spec_digits(s as int) + " seconds."@,
    }
}

impl ElapsedDisplay {
    /// The line shown for this duration, e.g. `45 seconds` or
    /// `1 minutes and 30 seconds.`.
    pub fn message(self) -> (r: String)
        ensures
            r@ == spec_elapsed_message(self),
    {
        match self {
            ElapsedDisplay::Seconds(s) => {
                let mut out = u64_to_string(s);
                out.append(" seconds");
                out
            },
            ElapsedDisplay::MinutesSeconds(m, s) => {
                let mut out = u64_to_string(m);
                out.append(" minutes and ");
                let secs = u64_to_string(s);
                out.append(secs.as_str());
                out.append(" seconds.");
                proof {
                    assert(out@ =~= spec_elapsed_message(self));
                }
                out
            },
        }
    }
}

} // verus!
