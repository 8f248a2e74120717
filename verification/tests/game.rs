use guessing_game::begin_round;
use guessing_game::evaluate_guess;
use guessing_game::is_quit_command;
use guessing_game::post_win_command;
use guessing_game::select_difficulty;
use guessing_game::step;
use guessing_game::tier_upper_bound;
use guessing_game::Effect;
use guessing_game::GuessOutcome;
use guessing_game::PostWinOutcome;
use guessing_game::SelectorOutcome;
use guessing_game::State;
use guessing_game::CAP_BOTTOM;
use guessing_game::NUMBER_OF_DIFFICULTIES;

#[test]
fn tier_bounds_increase() {
    assert_eq!(CAP_BOTTOM, 1);
    assert_eq!(NUMBER_OF_DIFFICULTIES, 5);
    let expected = [10, 100, 1000, 10000, 100000];
    for i in 0..NUMBER_OF_DIFFICULTIES {
        assert_eq!(tier_upper_bound(i), expected[i]);
        assert!(CAP_BOTTOM <= tier_upper_bound(i));
        if i > 0 {
            assert!(tier_upper_bound(i - 1) < tier_upper_bound(i));
        }
    }
}

#[test]
fn selector_accepts_each_tier() {
    assert_eq!(select_difficulty("1"), SelectorOutcome::Selected(0));
    assert_eq!(select_difficulty("2"), SelectorOutcome::Selected(1));
    assert_eq!(select_difficulty("3"), SelectorOutcome::Selected(2));
    assert_eq!(select_difficulty("4"), SelectorOutcome::Selected(3));
    assert_eq!(select_difficulty("5"), SelectorOutcome::Selected(4));
}

#[test]
fn selector_rejects_out_of_range_and_garbage() {
    assert_eq!(select_difficulty("0"), SelectorOutcome::Unknown);
    assert_eq!(select_difficulty("6"), SelectorOutcome::Unknown);
    assert_eq!(select_difficulty("abc"), SelectorOutcome::Unknown);
    assert_eq!(select_difficulty("-1"), SelectorOutcome::Unknown);
    assert_eq!(select_difficulty(""), SelectorOutcome::Unknown);
}

#[test]
fn selector_menu_command_stays() {
    assert_eq!(select_difficulty("menu"), SelectorOutcome::StayOnMenu);
    assert_eq!(select_difficulty("m"), SelectorOutcome::StayOnMenu);
    // Case-sensitive: a capital form is not the command.
    assert_eq!(select_difficulty("Menu"), SelectorOutcome::Unknown);
}

#[test]
fn selector_trims_and_takes_plus_sign() {
    assert_eq!(select_difficulty(" 3 \n"), SelectorOutcome::Selected(2));
    assert_eq!(select_difficulty("+2"), SelectorOutcome::Selected(1));
}

#[test]
fn draws_stay_within_tier_range() {
    let mut seen_bottom = false;
    let mut seen_top = false;
    for _ in 0..2000 {
        match begin_round(0) {
            State::Guessing { tier, secret } => {
                assert_eq!(tier, 0);
                assert!(CAP_BOTTOM <= secret);
                assert!(secret <= tier_upper_bound(0));
                if secret == CAP_BOTTOM {
                    seen_bottom = true;
                }
                if secret == tier_upper_bound(0) {
                    seen_top = true;
                }
            }
            other => panic!("begin_round left an unexpected state: {:?}", other),
        }
    }
    assert!(seen_bottom);
    assert!(seen_top);
}

#[test]
fn draws_stay_within_every_tier() {
    for i in 0..NUMBER_OF_DIFFICULTIES {
        match begin_round(i) {
            State::Guessing { tier, secret } => {
                assert_eq!(tier, i);
                assert!(CAP_BOTTOM <= secret && secret <= tier_upper_bound(i));
            }
            other => panic!("begin_round left an unexpected state: {:?}", other),
        }
    }
}

#[test]
fn guess_feedback_against_fixed_secret() {
    assert_eq!(evaluate_guess("3", 7), GuessOutcome::TooSmall);
    assert_eq!(evaluate_guess("9", 7), GuessOutcome::TooBig);
    assert_eq!(evaluate_guess("7", 7), GuessOutcome::Win);
    assert_eq!(evaluate_guess("seven", 7), GuessOutcome::NotANumber);
    assert_eq!(evaluate_guess("-2", 7), GuessOutcome::NotANumber);
}

#[test]
fn guess_loop_commands_are_case_sensitive() {
    assert_eq!(evaluate_guess("replay", 7), GuessOutcome::Replay);
    assert_eq!(evaluate_guess("r", 7), GuessOutcome::Replay);
    assert_eq!(evaluate_guess("menu", 7), GuessOutcome::ToMenu);
    assert_eq!(evaluate_guess("m", 7), GuessOutcome::ToMenu);
    // A capital "R" fails the integer parse instead of replaying.
    assert_eq!(evaluate_guess("R", 7), GuessOutcome::NotANumber);
    assert_eq!(evaluate_guess("Menu", 7), GuessOutcome::NotANumber);
}

#[test]
fn post_win_ignores_ascii_case() {
    assert_eq!(post_win_command("r"), PostWinOutcome::Replay);
    assert_eq!(post_win_command("R"), PostWinOutcome::Replay);
    assert_eq!(post_win_command("Replay"), PostWinOutcome::Replay);
    assert_eq!(post_win_command("REPLAY"), PostWinOutcome::Replay);
    assert_eq!(post_win_command("m"), PostWinOutcome::ToMenu);
    assert_eq!(post_win_command("Menu"), PostWinOutcome::ToMenu);
    assert_eq!(post_win_command("again"), PostWinOutcome::Wrong);
    assert_eq!(post_win_command(""), PostWinOutcome::Wrong);
}

#[test]
fn quit_matches_at_any_prompt() {
    // The same check guards every prompt; the process exit on a match
    // stays with the caller.
    assert!(is_quit_command("quit"));
    assert!(is_quit_command("q"));
    assert!(is_quit_command("  q \n"));
    assert!(!is_quit_command("Q"));
    assert!(!is_quit_command("quit now"));
}

#[test]
fn menu_inside_guess_loop_abandons_round() {
    let playing = State::Guessing { tier: 2, secret: 500 };
    let (next, effect) = step(playing, "menu");
    assert_eq!(next, State::SelectingDifficulty);
    assert_eq!(effect, Effect::BackToMenu);
    let (next, effect) = step(playing, "m");
    assert_eq!(next, State::SelectingDifficulty);
    assert_eq!(effect, Effect::BackToMenu);
}

#[test]
fn full_round_with_forced_secret() {
    // Tier 0 (easy, bound 10), secret forced to 7.
    let (state, effect) = step(State::SelectingDifficulty, "1");
    assert_eq!(state, State::RoundStart { tier: 0 });
    assert_eq!(effect, Effect::EnterRound);

    let state = State::Guessing { tier: 0, secret: 7 };
    let (state, effect) = step(state, "3");
    assert_eq!(effect, Effect::TooSmall);
    assert_eq!(state, State::Guessing { tier: 0, secret: 7 });
    let (state, effect) = step(state, "9");
    assert_eq!(effect, Effect::TooBig);
    assert_eq!(state, State::Guessing { tier: 0, secret: 7 });
    let (state, effect) = step(state, "7");
    assert_eq!(effect, Effect::Win);
    assert_eq!(state, State::PostWin { tier: 0 });
    let (state, effect) = step(state, "m");
    assert_eq!(effect, Effect::BackToMenu);
    assert_eq!(state, State::SelectingDifficulty);
}

#[test]
fn replay_returns_to_round_start() {
    let (state, effect) = step(State::Guessing { tier: 3, secret: 42 }, "replay");
    assert_eq!(state, State::RoundStart { tier: 3 });
    assert_eq!(effect, Effect::EnterRound);
    let (state, effect) = step(State::PostWin { tier: 4 }, "REPLAY");
    assert_eq!(state, State::RoundStart { tier: 4 });
    assert_eq!(effect, Effect::EnterRound);
}

#[test]
fn selector_state_reports_notices() {
    let (state, effect) = step(State::SelectingDifficulty, "m");
    assert_eq!(state, State::SelectingDifficulty);
    assert_eq!(effect, Effect::ShowMenuAgain);
    let (state, effect) = step(State::SelectingDifficulty, "what");
    assert_eq!(state, State::SelectingDifficulty);
    assert_eq!(effect, Effect::UnknownCommand);
}

#[test]
fn post_win_wrong_command_reprompts() {
    let (state, effect) = step(State::PostWin { tier: 1 }, "again");
    assert_eq!(state, State::PostWin { tier: 1 });
    assert_eq!(effect, Effect::WrongCommand);
}
