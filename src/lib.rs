//! Rules of a baseball game as a pure, deterministic state machine: each pitch
//! moves a count, a plate appearance, a half-inning and a game to their next
//! state, or ends them.
//!
//! Each layer has a spec function `after(pitch)` that states its transition,
//! and an `advance` whose result is proved equal to it:
//! - `pa`: the count and the plate appearance;
//! - `baserunners`: who is on base, and what a walk or a ball in play does to them;
//! - `inning`: outs, the batting order and the runs of one half-inning;
//! - `game`: the score, the innings, and when the game ends;
//! - `lemmas`: what holds over several pitches or whole families of states;
//! - `text`: decimal numerals for the text forms of the values.
//!
//! A finished layer ignores further pitches. Run totals are `u32`; `advance`
//! asks that the pitch not overflow them, which `can_advance` tests.
use vstd::prelude::*;

pub mod baserunners;
pub mod game;
pub mod inning;
pub mod lemmas;
pub mod lineup;
pub mod pa;
pub mod text;

pub use baserunners::{Base, BaseOutcome, BaserunnerState, HomeOutcome, PlayOutcome};
pub use game::{Game, GameResult, GameScore, GameState, GameSummary, GameWinner, InningNumber};
pub use inning::{HalfInning, HalfInningAdvance, HalfInningSummary, InningHalf, Outs};
pub use lineup::BattingPosition;
pub use pa::{
    BallInPlay, Balls, Count, CountAdvance, PitchOutcome, PlateAppearance, PlateAppearanceResult,
    Strikes,
};

verus! {

/// A number of runs, or of outs.
pub type Runs = u32;

} // verus!
