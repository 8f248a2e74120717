//! A number-guessing game, verified: difficulty tiers, guess evaluation,
//! and the menu-driven command dispatcher as an explicit state machine.
//!
//! Input lines come from the caller; what each one means in each state —
//! selector, guess loop, post-win prompt — is decided here, under
//! contract. Reading lines, colours and clearing the screen stay with
//! the caller.

pub mod game;
pub mod laws;
pub mod text;
pub mod tiers;

pub use game::begin_round;
pub use game::evaluate_guess;
pub use game::is_quit_command;
pub use game::post_win_command;
pub use game::select_difficulty;
pub use game::step;
pub use game::Effect;
pub use game::GuessOutcome;
pub use game::PostWinOutcome;
pub use game::SelectorOutcome;
pub use game::State;
pub use text::eq_ignore_ascii_case;
pub use text::parse_u32;
pub use text::str_eq;
pub use text::trim;
pub use tiers::tier_color;
pub use tiers::tier_name;
pub use tiers::tier_upper_bound;
pub use tiers::CAP_BOTTOM;
pub use tiers::NUMBER_OF_DIFFICULTIES;
