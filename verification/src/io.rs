//! The messages that cross the host boundary, and the game state they act on.

use vstd::prelude::*;

verus! {

/// Difficulty level chosen at creation; stored in the state.
/// The automated strategy currently plays the same fixed move at
/// either level, so the value has no effect on play.
#[derive(Clone, Copy, Debug, PartialEq, Eq, Structural)]
pub enum DifficultyLevel {
    Easy,
    Hard,
}

/// The two parties of a game.
#[derive(Clone, Copy, Debug, PartialEq, Eq, Structural)]
pub enum Player {
    User,
    Program,
}

/// Configuration supplied when a game process is created.
#[derive(Clone, Copy, Debug, PartialEq, Eq, Structural)]
pub struct PebblesInit {
    pub difficulty: DifficultyLevel,
    pub pebbles_count: u32,
    pub max_pebbles_per_turn: u32,
}

/// One external action per invocation.
#[derive(Clone, Copy, Debug, PartialEq, Eq, Structural)]
pub enum PebblesAction {
    Turn(u32),
    GiveUp,
    Restart { difficulty: DifficultyLevel, pebbles_count: u32, max_pebbles_per_turn: u32 },
}

/// Replies emitted while an action is processed.
#[derive(Clone, Copy, Debug, PartialEq, Eq, Structural)]
pub enum PebblesEvent {
    CounterTurn(u32),
    Won(Player),
}

/// The two ways an invocation can be rejected.
#[derive(Clone, Copy, Debug, PartialEq, Eq, Structural)]
pub enum GameError {
    /// Creation parameters violate the configuration rules.
    InvalidConfiguration,
    /// A turn asked for an illegal number of pebbles.
    InvalidMove,
}

/// The whole state of one game instance.
#[derive(Clone, Copy, Debug)]
pub struct GameState {
    /// Total pebbles of the current configuration; fixed after creation.
    pub pebbles_count: u32,
    /// Per-turn cap; fixed after creation.
    pub max_pebbles_per_turn: u32,
    /// Pebbles still on the pile; reduced by every applied move.
    pub pebbles_remaining: u32,
    pub difficulty: DifficultyLevel,
    /// Who moved first in this game instance.
    pub first_player: Player,
    /// `None` until a move empties the pile or the user gives up.
    pub winner: Option<Player>,
}

impl GameState {
    /// The state invariant: the pile never exceeds the configured total.
    pub open spec fn wf(self) -> bool {
        self.pebbles_remaining <= self.pebbles_count
    }
}

/// The configuration rule checked at creation: a nonempty pile, a nonzero
/// cap, and a cap no larger than the pile.
pub open spec fn valid_config(pebbles_count: u32, max_pebbles_per_turn: u32) -> bool {
    pebbles_count > 0 && max_pebbles_per_turn > 0 && max_pebbles_per_turn <= pebbles_count
}

} // verus!
