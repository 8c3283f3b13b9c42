use guessing_game::difficulty::Difficulty;
use guessing_game::hint::{draw_secret, hint, hint_interval};
use guessing_game::parse::{
    classify_choice, classify_guess, classify_replay, parse_u32, trim_line, ChoiceInput,
    GuessInput, ReplayInput,
};
use guessing_game::render::{best_score_message, u64_to_string};
use guessing_game::round::{compare_guess, GuessOutcome, Round, StepResult};
use guessing_game::score::update_best;
use guessing_game::session::{Session, SessionState};
use guessing_game::timefmt::{format_elapsed, ElapsedDisplay};

#[test]
fn budget_table() {
    assert_eq!(Difficulty::Easy.attempt_budget(), 10);
    assert_eq!(Difficulty::Easy.hint_budget(), 3);
    assert_eq!(Difficulty::Medium.attempt_budget(), 5);
    assert_eq!(Difficulty::Medium.hint_budget(), 2);
    assert_eq!(Difficulty::Hard.attempt_budget(), 3);
    assert_eq!(Difficulty::Hard.hint_budget(), 1);
}

#[test]
fn hint_width_table() {
    assert_eq!(Difficulty::Easy.hint_width(), 10);
    assert_eq!(Difficulty::Medium.hint_width(), 25);
    assert_eq!(Difficulty::Hard.hint_width(), 50);
}

#[test]
fn difficulty_selector() {
    assert_eq!(Difficulty::from_choice(1), Some(Difficulty::Easy));
    assert_eq!(Difficulty::from_choice(2), Some(Difficulty::Medium));
    assert_eq!(Difficulty::from_choice(3), Some(Difficulty::Hard));
    assert_eq!(Difficulty::from_choice(0), None);
    assert_eq!(Difficulty::from_choice(4), None);
    assert_eq!(Difficulty::from_choice(100), None);
}

#[test]
fn difficulty_names() {
    assert_eq!(Difficulty::Easy.name(), "Easy");
    assert_eq!(Difficulty::Medium.name(), "Medium");
    assert_eq!(Difficulty::Hard.name(), "Hard");
}

#[test]
fn trim_strips_ascii_whitespace() {
    assert_eq!(trim_line("  42 \n"), "42");
    assert_eq!(trim_line("\r\n"), "");
    assert_eq!(trim_line(""), "");
    assert_eq!(trim_line("h"), "h");
    assert_eq!(trim_line("\ta b\t"), "a b");
}

#[test]
fn parse_u32_accepts_digit_strings() {
    assert_eq!(parse_u32("0"), Some(0));
    assert_eq!(parse_u32("123"), Some(123));
    assert_eq!(parse_u32("042"), Some(42));
    assert_eq!(parse_u32("4294967295"), Some(u32::MAX));
}

#[test]
fn parse_u32_rejects_everything_else() {
    assert_eq!(parse_u32(""), None);
    assert_eq!(parse_u32("12a"), None);
    assert_eq!(parse_u32("-5"), None);
    assert_eq!(parse_u32(" 12"), None);
    assert_eq!(parse_u32("4294967296"), None);
    assert_eq!(parse_u32("99999999999999999999"), None);
}

#[test]
fn guess_tokens() {
    assert_eq!(classify_guess(" 30 \n"), GuessInput::Guess(30));
    assert_eq!(classify_guess("h"), GuessInput::HintRequest);
    assert_eq!(classify_guess(" H \n"), GuessInput::HintRequest);
    assert_eq!(classify_guess("abc"), GuessInput::Malformed);
    assert_eq!(classify_guess("hh"), GuessInput::Malformed);
    assert_eq!(classify_guess("-3"), GuessInput::Malformed);
    assert_eq!(classify_guess(""), GuessInput::Malformed);
}

#[test]
fn replay_tokens() {
    assert_eq!(classify_replay("y\n"), ReplayInput::Yes);
    assert_eq!(classify_replay(" Y "), ReplayInput::Yes);
    assert_eq!(classify_replay("n"), ReplayInput::No);
    assert_eq!(classify_replay("N\r\n"), ReplayInput::No);
    assert_eq!(classify_replay("maybe"), ReplayInput::Malformed);
    assert_eq!(classify_replay(""), ReplayInput::Malformed);
}

#[test]
fn choice_tokens() {
    assert_eq!(classify_choice("2\n"), ChoiceInput::Chosen(Difficulty::Medium));
    assert_eq!(classify_choice("1"), ChoiceInput::Chosen(Difficulty::Easy));
    assert_eq!(classify_choice("3"), ChoiceInput::Chosen(Difficulty::Hard));
    assert_eq!(classify_choice("abc"), ChoiceInput::NotANumber);
    assert_eq!(classify_choice(""), ChoiceInput::NotANumber);
    assert_eq!(classify_choice("0"), ChoiceInput::InvalidChoice);
    assert_eq!(classify_choice("7"), ChoiceInput::InvalidChoice);
}

#[test]
fn guess_comparison() {
    assert_eq!(compare_guess(25, 30), GuessOutcome::SecretGreater);
    assert_eq!(compare_guess(35, 30), GuessOutcome::SecretLess);
    assert_eq!(compare_guess(30, 30), GuessOutcome::Correct);
}

#[test]
fn hint_interval_exact_values() {
    assert_eq!(hint_interval(30, 5, 7), (25, 37));
    assert_eq!(hint_interval(3, 10, 2), (1, 5));
    assert_eq!(hint_interval(98, 5, 10), (93, 100));
    assert_eq!(hint_interval(1, 1, 1), (1, 2));
    assert_eq!(hint_interval(100, 1, 1), (99, 100));
}

#[test]
fn hint_brackets_every_secret() {
    for secret in 1..=100u32 {
        for difficulty in [Difficulty::Easy, Difficulty::Medium, Difficulty::Hard] {
            let (low, high) = hint(secret, difficulty);
            assert!(1 <= low && low <= secret);
            assert!(secret <= high && high <= 100);
            let width = difficulty.hint_width();
            assert!(low as u64 + width as u64 >= secret as u64);
            assert!(high as u64 <= secret as u64 + width as u64);
        }
    }
}

#[test]
fn secrets_stay_in_range() {
    for _ in 0..200 {
        let s = draw_secret();
        assert!((1..=100).contains(&s));
    }
}

#[test]
fn elapsed_formatting() {
    assert_eq!(format_elapsed(45), ElapsedDisplay::Seconds(45));
    assert_eq!(format_elapsed(90), ElapsedDisplay::MinutesSeconds(1, 30));
    assert_eq!(format_elapsed(4000), ElapsedDisplay::Seconds(4000));
    assert_eq!(format_elapsed(59), ElapsedDisplay::Seconds(59));
    assert_eq!(format_elapsed(60), ElapsedDisplay::MinutesSeconds(1, 0));
    assert_eq!(format_elapsed(3600), ElapsedDisplay::MinutesSeconds(60, 0));
    assert_eq!(format_elapsed(3601), ElapsedDisplay::Seconds(3601));
    assert_eq!(format_elapsed(0), ElapsedDisplay::Seconds(0));
}

#[test]
fn renders_numbers_in_decimal() {
    assert_eq!(u64_to_string(0), "0");
    assert_eq!(u64_to_string(7), "7");
    assert_eq!(u64_to_string(45), "45");
    assert_eq!(u64_to_string(100), "100");
    assert_eq!(u64_to_string(3600), "3600");
    assert_eq!(u64_to_string(u64::MAX), "18446744073709551615");
}

#[test]
fn elapsed_messages() {
    assert_eq!(format_elapsed(45).message(), "45 seconds");
    assert_eq!(format_elapsed(90).message(), "1 minutes and 30 seconds.");
    assert_eq!(format_elapsed(4000).message(), "4000 seconds");
    assert_eq!(format_elapsed(0).message(), "0 seconds");
}

#[test]
fn step_messages() {
    assert_eq!(
        StepResult::Won { attempts: 4 }.message(),
        "\nCongratulations! You guessed the correct number in 4 attempts."
    );
    assert_eq!(
        StepResult::Incorrect { guess: 25, outcome: GuessOutcome::SecretGreater }.message(),
        "Incorrect! The number is greater than 25"
    );
    assert_eq!(
        StepResult::Incorrect { guess: 35, outcome: GuessOutcome::SecretLess }.message(),
        "Incorrect! The number is less than 35"
    );
    assert_eq!(
        StepResult::Lost { guess: 99, outcome: GuessOutcome::SecretLess, secret: 42 }.message(),
        "Incorrect! The number is less than 99\n\nYou lose the number was 42!"
    );
    assert_eq!(
        StepResult::HintGiven { low: 25, high: 37 }.message(),
        "The number is between 25 and 37"
    );
    assert_eq!(
        StepResult::Rejected { hint_available: true }.message(),
        "Please just enter numbers or 'H' for a hint!"
    );
    assert_eq!(
        StepResult::Rejected { hint_available: false }.message(),
        "Please just enter numbers!"
    );
}

#[test]
fn best_score_messages() {
    assert_eq!(best_score_message(None), "Highest Score (attempts to win): None");
    assert_eq!(best_score_message(Some(3)), "Highest Score (attempts to win): 3");
}

#[test]
fn best_score_updates() {
    assert_eq!(update_best(None, 5), Some(5));
    assert_eq!(update_best(Some(5), 7), Some(5));
    assert_eq!(update_best(Some(5), 3), Some(3));
    assert_eq!(update_best(Some(5), 5), Some(5));
}

#[test]
fn medium_round_won_in_four() {
    let mut session = Session::new();
    assert_eq!(session.best, None);
    assert_eq!(
        session.choose_difficulty("2\n", 30),
        ChoiceInput::Chosen(Difficulty::Medium)
    );
    assert_eq!(
        session.guess_line("50\n"),
        StepResult::Incorrect { guess: 50, outcome: GuessOutcome::SecretLess }
    );
    assert_eq!(
        session.guess_line("25\n"),
        StepResult::Incorrect { guess: 25, outcome: GuessOutcome::SecretGreater }
    );
    assert_eq!(
        session.guess_line("35\n"),
        StepResult::Incorrect { guess: 35, outcome: GuessOutcome::SecretLess }
    );
    assert_eq!(session.guess_line("30\n"), StepResult::Won { attempts: 4 });
    assert_eq!(session.best, Some(4));
    assert_eq!(session.state, SessionState::RoundEnded);
    assert_eq!(session.finish_round(100), ElapsedDisplay::MinutesSeconds(1, 40));
    assert_eq!(session.state, SessionState::AwaitingReplay);
    assert_eq!(session.replay_line("n\n"), ReplayInput::No);
    assert_eq!(session.state, SessionState::Terminated);
}

#[test]
fn hard_round_lost_after_three() {
    let mut session = Session::new();
    assert_eq!(
        session.choose_difficulty("3\n", 42),
        ChoiceInput::Chosen(Difficulty::Hard)
    );
    assert_eq!(
        session.guess_line("10\n"),
        StepResult::Incorrect { guess: 10, outcome: GuessOutcome::SecretGreater }
    );
    assert_eq!(
        session.guess_line("20\n"),
        StepResult::Incorrect { guess: 20, outcome: GuessOutcome::SecretGreater }
    );
    assert_eq!(
        session.guess_line("99\n"),
        StepResult::Lost { guess: 99, outcome: GuessOutcome::SecretLess, secret: 42 }
    );
    assert_eq!(session.state, SessionState::RoundEnded);
    assert_eq!(session.best, None);
}

#[test]
fn malformed_guess_costs_nothing() {
    let mut round = Round::new(30, Difficulty::Medium);
    assert_eq!(round.step("abc\n"), StepResult::Rejected { hint_available: true });
    assert_eq!(round.attempts_used, 0);
    assert_eq!(round.hints_remaining, 2);
    assert_eq!(
        round.step("50\n"),
        StepResult::Incorrect { guess: 50, outcome: GuessOutcome::SecretLess }
    );
    assert_eq!(round.attempts_used, 1);
}

#[test]
fn hints_consume_budget_not_attempts() {
    let mut round = Round::new(64, Difficulty::Medium);
    match round.step("h\n") {
        StepResult::HintGiven { low, high } => {
            assert!(1 <= low && low <= 64);
            assert!(64 <= high && high <= 100);
        }
        other => panic!("expected a hint, got {:?}", other),
    }
    assert_eq!(round.attempts_used, 0);
    assert_eq!(round.hints_remaining, 1);
    match round.step("H\n") {
        StepResult::HintGiven { .. } => {}
        other => panic!("expected a hint, got {:?}", other),
    }
    assert_eq!(round.hints_remaining, 0);
    assert_eq!(round.step("h\n"), StepResult::Rejected { hint_available: false });
    assert_eq!(round.attempts_used, 0);
}

#[test]
fn invalid_menu_choice_keeps_selecting() {
    let mut session = Session::new();
    assert_eq!(session.choose_difficulty("abc\n", 42), ChoiceInput::NotANumber);
    assert_eq!(session.state, SessionState::SelectingDifficulty);
    assert_eq!(session.choose_difficulty("9\n", 42), ChoiceInput::InvalidChoice);
    assert_eq!(session.state, SessionState::SelectingDifficulty);
    assert_eq!(
        session.choose_difficulty("1\n", 42),
        ChoiceInput::Chosen(Difficulty::Easy)
    );
    match session.state {
        SessionState::Playing(round) => {
            assert_eq!(round.secret, 42);
            assert_eq!(round.difficulty, Difficulty::Easy);
            assert_eq!(round.attempts_used, 0);
            assert_eq!(round.hints_remaining, 3);
        }
        other => panic!("expected a round in play, got {:?}", other),
    }
}

#[test]
fn best_score_improves_across_wins() {
    let mut session = Session::new();
    assert_eq!(session.best, None);

    // First win: 2 attempts.
    session.choose_difficulty("2", 10);
    session.guess_line("5");
    assert_eq!(session.guess_line("10"), StepResult::Won { attempts: 2 });
    assert_eq!(session.best, Some(2));
    session.finish_round(5);
    assert_eq!(session.replay_line("y"), ReplayInput::Yes);
    assert_eq!(session.state, SessionState::SelectingDifficulty);

    // Second win takes 3 attempts: the best stays at 2.
    session.choose_difficulty("2", 77);
    session.guess_line("1");
    session.guess_line("2");
    assert_eq!(session.guess_line("77"), StepResult::Won { attempts: 3 });
    assert_eq!(session.best, Some(2));
    session.finish_round(5);
    assert_eq!(session.replay_line("y"), ReplayInput::Yes);

    // Third win in 1 attempt improves it.
    session.choose_difficulty("1", 50);
    assert_eq!(session.guess_line("50"), StepResult::Won { attempts: 1 });
    assert_eq!(session.best, Some(1));
}

#[test]
fn replay_prompt_repeats_on_malformed() {
    let mut session = Session::new();
    session.choose_difficulty("3", 5);
    session.guess_line("5");
    session.finish_round(12);
    assert_eq!(session.replay_line("what\n"), ReplayInput::Malformed);
    assert_eq!(session.state, SessionState::AwaitingReplay);
    assert_eq!(session.replay_line("Y\n"), ReplayInput::Yes);
    assert_eq!(session.state, SessionState::SelectingDifficulty);
}
