//! The game's state machine: the difficulty selector, the guess loop and
//! the post-win prompt, as a transition function from state and input
//! line to next state and display effect.
//!
//! Input lines are trimmed of surrounding whitespace before
//! interpretation. The selector and the guess loop match their commands
//! case-sensitively; the post-win prompt matches up to ASCII case.

use vstd::prelude::*;

use crate::text::ci_eq;
use crate::text::eq_ignore_ascii_case;
use crate::text::is_u32_numeral;
use crate::text::numeral_value;
use crate::text::parse_u32;
use crate::text::str_eq;
use crate::text::trim;
use crate::text::trim_spec;
use crate::tiers::spec_upper_bound;
use crate::tiers::tier_upper_bound;
use crate::tiers::CAP_BOTTOM;
use crate::tiers::NUMBER_OF_DIFFICULTIES;

verus! {

/// What one line of input to the difficulty selector leads to.
#[derive(Clone, Copy, PartialEq, Eq, Debug, Structural)]
pub enum SelectorOutcome {
    /// A tier was chosen, by its zero-based index.
    Selected(usize),
    /// The input asked for the menu: show it again with a notice that
    /// the selector is already there.
    StayOnMenu,
    /// Anything else: show the menu again and echo the unknown command.
    Unknown,
}

/// What one line of input to the guess loop leads to.
#[derive(Clone, Copy, PartialEq, Eq, Debug, Structural)]
pub enum GuessOutcome {
    /// Leave the session for the difficulty selector.
    ToMenu,
    /// Abandon the round and start a fresh one at the same tier.
    Replay,
    /// The guess is below the secret.
    TooSmall,
    /// The guess is above the secret.
    TooBig,
    /// The guess equals the secret.
    Win,
    /// The input is neither a command nor a numeral.
    NotANumber,
}

/// What one line of input to the post-win prompt leads to.
#[derive(Clone, Copy, PartialEq, Eq, Debug, Structural)]
pub enum PostWinOutcome {
    /// Start a fresh round at the same tier.
    Replay,
    /// Leave the session for the difficulty selector.
    ToMenu,
    /// Anything else: echo the wrong command and ask again.
    Wrong,
}

/// The selector's reading of a trimmed input line.
pub open spec fn spec_select(t: Seq<char>) -> SelectorOutcome {
    if t == "menu"@ || t == "m"@ {
        SelectorOutcome::StayOnMenu
    } else if is_u32_numeral(t) && 1 <= numeral_value(t) && numeral_value(t)
        <= NUMBER_OF_DIFFICULTIES {
        SelectorOutcome::Selected((numeral_value(t) - 1) as usize)
    } else {
        SelectorOutcome::Unknown
    }
}

/// The guess loop's reading of a trimmed input line, against the secret.
pub open spec fn spec_guess(t: Seq<char>, secret: u32) -> GuessOutcome {
    if t == "menu"@ || t == "m"@ {
        GuessOutcome::ToMenu
    } else if t == "replay"@ || t == "r"@ {
        GuessOutcome::Replay
    } else if is_u32_numeral(t) {
        if numeral_value(t) < secret {
            GuessOutcome::TooSmall
        } else if numeral_value(t) > secret {
            GuessOutcome::TooBig
        } else {
            GuessOutcome::Win
        }
    } else {
        GuessOutcome::NotANumber
    }
}

/// The post-win prompt's reading of a trimmed input line, up to ASCII
/// case.
pub open spec fn spec_post_win(t: Seq<char>) -> PostWinOutcome {
    if ci_eq(t, "r"@) || ci_eq(t, "replay"@) {
        PostWinOutcome::Replay
    } else if ci_eq(t, "m"@) || ci_eq(t, "menu"@) {
        PostWinOutcome::ToMenu
    } else {
        PostWinOutcome::Wrong
    }
}

/// Whether a trimmed input line is the global quit command.
pub open spec fn spec_is_quit(t: Seq<char>) -> bool {
    t == "quit"@ || t == "q"@
}

/// Read one selector input line: a choice of tier, a menu command, or
/// neither.
pub fn select_difficulty(line: &str) -> (r: SelectorOutcome)
    ensures
        r == spec_select(trim_spec(line@)),
        r matches SelectorOutcome::Selected(i) ==> i < NUMBER_OF_DIFFICULTIES,
{
    let t = trim(line);
    if str_eq(t, "menu") || str_eq(t, "m") {
        return SelectorOutcome::StayOnMenu;
    }
    match parse_u32(t) {
        Some(n) => {
            if 1 <= n && n as usize <= NUMBER_OF_DIFFICULTIES {
                SelectorOutcome::Selected((n - 1) as usize)
            } else {
                SelectorOutcome::Unknown
            }
        },
        None => SelectorOutcome::Unknown,
    }
}

/// Read one guess-loop input line: a command, or a guess compared
/// against the secret.
pub fn evaluate_guess(line: &str, secret: u32) -> (r: GuessOutcome)
    ensures
        r == spec_guess(trim_spec(line@), secret),
{
    let t = trim(line);
    if str_eq(t, "menu") || str_eq(t, "m") {
        return GuessOutcome::ToMenu;
    }
    if str_eq(t, "replay") || str_eq(t, "r") {
        return GuessOutcome::Replay;
    }
    match parse_u32(t) {
        Some(n) => {
            if n < secret {
                GuessOutcome::TooSmall
            } else if n > secret {
                GuessOutcome::TooBig
            } else {
                GuessOutcome::Win
            }
        },
        None => GuessOutcome::NotANumber,
    }
}

/// Read one post-win input line, matching its commands up to ASCII case.
pub fn post_win_command(line: &str) -> (r: PostWinOutcome)
    ensures
        r == spec_post_win(trim_spec(line@)),
{
    let t = trim(line);
    if eq_ignore_ascii_case(t, "r") || eq_ignore_ascii_case(t, "replay") {
        return PostWinOutcome::Replay;
    }
    if eq_ignore_ascii_case(t, "m") || eq_ignore_ascii_case(t, "menu") {
        return PostWinOutcome::ToMenu;
    }
    PostWinOutcome::Wrong
}

/// Whether an input line, once trimmed, is the global quit command,
/// honoured at every prompt.
pub fn is_quit_command(line: &str) -> (r: bool)
    ensures
        r == spec_is_quit(trim_spec(line@)),
{
    let t = trim(line);
    str_eq(t, "quit") || str_eq(t, "q")
}

/// Where the game stands between two lines of input.
#[derive(Clone, Copy, PartialEq, Eq, Debug, Structural)]
pub enum State {
    /// Waiting at the main menu for a difficulty to be chosen.
    SelectingDifficulty,
    /// A tier is chosen; a fresh secret is yet to be drawn.
    RoundStart { tier: usize },
    /// A round is under way against the drawn secret.
    Guessing { tier: usize, secret: u32 },
    /// The round was won; waiting for replay or menu.
    PostWin { tier: usize },
}

/// What the caller should show after a transition.
#[derive(Clone, Copy, PartialEq, Eq, Debug, Structural)]
pub enum Effect {
    /// Redisplay the menu with an already-on-the-menu notice.
    ShowMenuAgain,
    /// Redisplay the menu and echo the unknown command.
    UnknownCommand,
    /// A round is about to start: clear the display and show the tier's
    /// guess-range prompt.
    EnterRound,
    /// The guess is below the secret.
    TooSmall,
    /// The guess is above the secret.
    TooBig,
    /// The guess hit the secret: announce the win and the three-way
    /// choice.
    Win,
    /// The guess-loop input was neither a command nor a number.
    AskNumber,
    /// The session ends: clear the display and return to the menu.
    BackToMenu,
    /// The post-win input matched no command: echo it and ask again.
    WrongCommand,
}

impl State {
    /// A state the game can actually be in: the tier index names one of
    /// the tiers, and the secret lies within the tier's range.
    pub open spec fn wf(self) -> bool {
        match self {
            State::SelectingDifficulty => true,
            State::RoundStart { tier } => tier < NUMBER_OF_DIFFICULTIES,
            State::Guessing { tier, secret } => tier < NUMBER_OF_DIFFICULTIES && CAP_BOTTOM
                <= secret && secret <= spec_upper_bound(tier as int),
            State::PostWin { tier } => tier < NUMBER_OF_DIFFICULTIES,
        }
    }
}

/// The machine's reading of one trimmed input line: the next state and
/// what to display. `RoundStart` consumes no input and is not handled
/// here; `begin_round` leaves it.
pub open spec fn spec_step(s: State, t: Seq<char>) -> (State, Effect) {
    match s {
        State::SelectingDifficulty => match spec_select(t) {
            SelectorOutcome::Selected(i) => (State::RoundStart { tier: i }, Effect::EnterRound),
            SelectorOutcome::StayOnMenu => (State::SelectingDifficulty, Effect::ShowMenuAgain),
            SelectorOutcome::Unknown => (State::SelectingDifficulty, Effect::UnknownCommand),
        },
        State::RoundStart { tier } => (s, Effect::EnterRound),
        State::Guessing { tier, secret } => match spec_guess(t, secret) {
            GuessOutcome::ToMenu => (State::SelectingDifficulty, Effect::BackToMenu),
            GuessOutcome::Replay => (State::RoundStart { tier }, Effect::EnterRound),
            GuessOutcome::TooSmall => (s, Effect::TooSmall),
            GuessOutcome::TooBig => (s, Effect::TooBig),
            GuessOutcome::Win => (State::PostWin { tier }, Effect::Win),
            GuessOutcome::NotANumber => (s, Effect::AskNumber),
        },
        State::PostWin { tier } => match spec_post_win(t) {
            PostWinOutcome::Replay => (State::RoundStart { tier }, Effect::EnterRound),
            PostWinOutcome::ToMenu => (State::SelectingDifficulty, Effect::BackToMenu),
            PostWinOutcome::Wrong => (s, Effect::WrongCommand),
        },
    }
}

/// Feed one input line to the machine: dispatch it to the selector, the
/// guess loop or the post-win prompt, and say what to display. The quit
/// command is not handled here: the caller tests `is_quit_command` on
/// every line first and exits the process on it.
pub fn step(s: State, line: &str) -> (r: (State, Effect))
    requires
        s.wf(),
        !(s is RoundStart),
    ensures
        r == spec_step(s, trim_spec(line@)),
        r.0.wf(),
{
    match s {
        State::SelectingDifficulty => match select_difficulty(line) {
            SelectorOutcome::Selected(i) => (State::RoundStart { tier: i }, Effect::EnterRound),
            SelectorOutcome::StayOnMenu => (State::SelectingDifficulty, Effect::ShowMenuAgain),
            SelectorOutcome::Unknown => (State::SelectingDifficulty, Effect::UnknownCommand),
        },
        State::RoundStart { tier } => (s, Effect::EnterRound),
        State::Guessing { tier, secret } => match evaluate_guess(line, secret) {
            GuessOutcome::ToMenu => (State::SelectingDifficulty, Effect::BackToMenu),
            GuessOutcome::Replay => (State::RoundStart { tier }, Effect::EnterRound),
            GuessOutcome::TooSmall => (s, Effect::TooSmall),
            GuessOutcome::TooBig => (s, Effect::TooBig),
            GuessOutcome::Win => (State::PostWin { tier }, Effect::Win),
            GuessOutcome::NotANumber => (s, Effect::AskNumber),
        },
        State::PostWin { tier } => match post_win_command(line) {
            PostWinOutcome::Replay => (State::RoundStart { tier }, Effect::EnterRound),
            PostWinOutcome::ToMenu => (State::SelectingDifficulty, Effect::BackToMenu),
            PostWinOutcome::Wrong => (s, Effect::WrongCommand),
        },
    }
}

/// Relies on rand::random_range over `lo..=hi`: a draw within the
/// inclusive range, which panics only on an empty range, excluded here
/// by the precondition.
#[verifier::external_body]
fn random_in_range(lo: u32, hi: u32) -> (r: u32)
    requires
        lo <= hi,
    ensures
        lo <= r <= hi,
{
    rand::random_range(lo..=hi)
}

/// Start a round at the given tier: draw a fresh secret within the
/// tier's range and hand back the guessing state.
pub fn begin_round(tier: usize) -> (r: State)
    requires
        tier < NUMBER_OF_DIFFICULTIES,
    ensures
        r == (State::Guessing { tier, secret: r->Guessing_secret }),
        r.wf(),
{
    let secret = random_in_range(CAP_BOTTOM, tier_upper_bound(tier));
    State::Guessing { tier, secret }
}

} // verus!
