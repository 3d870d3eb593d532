//! Win detection and the automated opponent's move.

use vstd::prelude::*;

use crate::io::{DifficultyLevel, GameState, PebblesEvent, Player};
use crate::first_player_of;

verus! {

/// A freshly configured game: full pile, no winner, the starting player
/// drawn from `random`. Installed at creation and, without any validation
/// of the fields, at restart.
pub open spec fn fresh_game(
    difficulty: DifficultyLevel,
    pebbles_count: u32,
    max_pebbles_per_turn: u32,
    random: u32,
) -> GameState {
    GameState {
        pebbles_count,
        max_pebbles_per_turn,
        pebbles_remaining: pebbles_count,
        difficulty,
        first_player: first_player_of(random),
        winner: None,
    }
}

/// A restart always installs the full reset, whatever the prior state and
/// whatever the fields — even a zero pile or a cap above it, since restart
/// validates nothing: no winner, the pile at the given total, and the given
/// configuration. (When the drawn starting player is the program, its opening
/// move is then applied to this reset state.)
pub proof fn lemma_restart_resets(
    difficulty: DifficultyLevel,
    pebbles_count: u32,
    max_pebbles_per_turn: u32,
    random: u32,
)
    ensures
        ({
            let g = fresh_game(difficulty, pebbles_count, max_pebbles_per_turn, random);
            &&& g.winner is None
            &&& g.pebbles_remaining == pebbles_count
            &&& g.pebbles_count == pebbles_count
            &&& g.max_pebbles_per_turn == max_pebbles_per_turn
            &&& g.difficulty == difficulty
            &&& g.wf()
        }),
{
}

/// How many pebbles the automated opponent takes from `g`: one, unless the
/// pile is already empty. The stored difficulty does not change this.
pub open spec fn program_take(g: GameState) -> u32 {
    if g.pebbles_remaining == 0 {
        0u32
    } else {
        1u32
    }
}

/// The state after the automated opponent has moved on `g`: its take is
/// deducted, and it is recorded as winner exactly when the pile is then
/// empty.
pub open spec fn after_program_turn(g: GameState) -> GameState {
    let rem = (g.pebbles_remaining - program_take(g)) as u32;
    GameState {
        pebbles_remaining: rem,
        winner: if rem == 0 {
            Some(Player::Program)
        } else {
            g.winner
        },
        ..g
    }
}

/// The events an automated move on `g` emits: its counter-turn, followed by
/// a win notice when that move empties the pile.
pub open spec fn program_turn_events(g: GameState) -> Seq<PebblesEvent> {
    let counter = PebblesEvent::CounterTurn(program_take(g));
    if after_program_turn(g).pebbles_remaining == 0 {
        seq![counter, PebblesEvent::Won(Player::Program)]
    } else {
        seq![counter]
    }
}

/// Records `player` as the winner exactly when the pile is empty, and
/// returns the win event to emit; on a nonempty pile the state is untouched.
pub fn check_win_condition(game: &mut GameState, player: Player) -> (event: Option<PebblesEvent>)
    ensures
        old(game).pebbles_remaining == 0 ==> {
            &&& *final(game) == (GameState { winner: Some(player), ..*old(game) })
            &&& event == Some(PebblesEvent::Won(player))
        },
        old(game).pebbles_remaining != 0 ==> {
            &&& *final(game) == *old(game)
            &&& event is None
        },
{
    if game.pebbles_remaining == 0 {
        game.winner = Some(player);
        Some(PebblesEvent::Won(player))
    } else {
        None
    }
}

/// Plays the automated opponent's move: take one pebble (none when the pile
/// is already empty), reply with the counter-turn, and record the program as
/// winner when the pile is then empty.
pub fn program_turn(game: &mut GameState) -> (events: Vec<PebblesEvent>)
    ensures
        *final(game) == after_program_turn(*old(game)),
        events@ =~= program_turn_events(*old(game)),
{
    let take: u32 = if game.pebbles_remaining == 0 {
        0
    } else {
        1
    };
    game.pebbles_remaining = game.pebbles_remaining - take;

    let mut events: Vec<PebblesEvent> = Vec::new();
    events.push(PebblesEvent::CounterTurn(take));
    if let Some(won) = check_win_condition(game, Player::Program) {
        events.push(won);
    }
    events
}

} // verus!
