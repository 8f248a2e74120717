//! The game's stated laws, proved over the transition functions: what a
//! valid selection returns, how a guess is answered, that the post-win
//! prompt ignores ASCII case, and that a menu command abandons the
//! round.

use vstd::prelude::*;

use crate::game::spec_guess;
use crate::game::spec_post_win;
use crate::game::spec_select;
use crate::game::spec_step;
use crate::game::Effect;
use crate::game::GuessOutcome;
use crate::game::SelectorOutcome;
use crate::game::State;
use crate::text::ci_eq;
use crate::text::is_digit;
use crate::text::is_u32_numeral;
use crate::text::lower_scalar;
use crate::text::numeral_digits;
use crate::text::numeral_value;
use crate::tiers::NUMBER_OF_DIFFICULTIES;

verus! {

/// A numeral is all digits past an optional plus sign, so it is none of
/// the session's letter commands.
proof fn lemma_numeral_is_no_command(t: Seq<char>)
    requires
        is_u32_numeral(t),
    ensures
        t != "menu"@,
        t != "m"@,
        t != "replay"@,
        t != "r"@,
{
    reveal_strlit("menu");
    reveal_strlit("m");
    reveal_strlit("replay");
    reveal_strlit("r");
    if t == "menu"@ || t == "m"@ || t == "replay"@ || t == "r"@ {
        assert(t[0] == 'm' || t[0] == 'r');
        assert(numeral_digits(t) == t);
        assert(is_digit(t[0]));
        assert(false);
    }
}

/// A selector input that is a numeral from 1 to the number of tiers
/// selects the tier with the zero-based index one below its value.
pub proof fn lemma_select_valid(t: Seq<char>)
    requires
        is_u32_numeral(t),
        1 <= numeral_value(t),
        numeral_value(t) <= NUMBER_OF_DIFFICULTIES,
    ensures
        spec_select(t) == SelectorOutcome::Selected((numeral_value(t) - 1) as usize),
        ((numeral_value(t) - 1) as usize) < NUMBER_OF_DIFFICULTIES,
{
    lemma_numeral_is_no_command(t);
}

/// While guessing against a fixed secret, a numeral below it answers
/// "too small" and the round goes on; one above it answers "too big"
/// and the round goes on; one equal to it wins and leaves the guess
/// loop for the post-win prompt.
pub proof fn lemma_guess_feedback(tier: usize, secret: u32, t: Seq<char>)
    requires
        is_u32_numeral(t),
    ensures
        numeral_value(t) < secret ==> spec_step(State::Guessing { tier, secret }, t) == (
            State::Guessing { tier, secret },
            Effect::TooSmall,
        ),
        numeral_value(t) > secret ==> spec_step(State::Guessing { tier, secret }, t) == (
            State::Guessing { tier, secret },
            Effect::TooBig,
        ),
        numeral_value(t) == secret ==> spec_step(State::Guessing { tier, secret }, t) == (
            State::PostWin { tier },
            Effect::Win,
        ),
{
    lemma_numeral_is_no_command(t);
}

/// Two inputs equal up to ASCII case read the same at the post-win
/// prompt.
pub proof fn lemma_post_win_case_insensitive(a: Seq<char>, b: Seq<char>)
    requires
        ci_eq(a, b),
    ensures
        spec_post_win(a) == spec_post_win(b),
{
    assert forall|c: Seq<char>| ci_eq(a, c) implies ci_eq(b, c) by {
        assert(forall|i: int| 0 <= i < b.len() ==> lower_scalar(b[i]) == lower_scalar(c[i]));
    }
    assert forall|c: Seq<char>| ci_eq(b, c) implies ci_eq(a, c) by {
        assert(forall|i: int| 0 <= i < a.len() ==> lower_scalar(a[i]) == lower_scalar(c[i]));
    }
}

/// A menu command inside the guess loop returns control to the
/// difficulty selector without completing the round: the secret is
/// discarded with the state.
pub proof fn lemma_menu_abandons_round(tier: usize, secret: u32, t: Seq<char>)
    requires
        t == "menu"@ || t == "m"@,
    ensures
        spec_step(State::Guessing { tier, secret }, t) == (
            State::SelectingDifficulty,
            Effect::BackToMenu,
        ),
{
    assert(spec_guess(t, secret) == GuessOutcome::ToMenu);
}

} // verus!
