//! Core logic of a number guessing game.
//!
//! The program draws a secret number in `[1, 100]`; the player picks a
//! difficulty, which fixes an attempt budget and a hint budget, and guesses
//! until the secret is found or the budget runs out.  This crate holds the
//! verified core: the difficulty table, input parsing, guess evaluation,
//! hint intervals, best-score bookkeeping, elapsed-time formatting and the
//! session state machine.  Terminal I/O and wall-clock timing live outside.

pub mod difficulty;
pub mod hint;
pub mod parse;
pub mod render;
pub mod round;
pub mod session;
pub mod score;
pub mod timefmt;
