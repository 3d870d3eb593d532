//! A two-party pebble-removal game: a pile of pebbles, a per-turn cap, and
//! alternating moves between an external user and an automated opponent.
//! Whoever removes the last pebble wins.
//!
//! This crate is the game-state machine alone: parameter validation, turn
//! handling, win detection and restart semantics. The hosting runtime that
//! delivers messages, persists the state and supplies randomness stands
//! outside; it hands each handler plain values (an action, a 32-bit random
//! draw) and forwards the returned events.

use vstd::prelude::*;

pub mod game;
pub mod io;

use crate::game::{after_program_turn, check_win_condition, fresh_game, program_turn,
    program_turn_events};
use crate::io::{valid_config, GameError, GameState, PebblesAction, PebblesEvent, PebblesInit,
    Player};

verus! {

/// Whether a user turn taking `count` pebbles is legal on `g`: at least one
/// pebble, within the per-turn cap, and no more than the pile holds.
pub open spec fn turn_valid(g: GameState, count: u32) -> bool {
    1 <= count && count <= g.max_pebbles_per_turn && count <= g.pebbles_remaining
}

/// The state after the user's deduction alone, before the win check and the
/// automated reply.
pub open spec fn user_deducted(g: GameState, count: u32) -> GameState {
    GameState { pebbles_remaining: (g.pebbles_remaining - count) as u32, ..g }
}

/// Creates a game from its configuration and a host random draw.
///
/// Rejected with `InvalidConfiguration` exactly when the pile is empty, the
/// cap is zero, or the cap exceeds the pile. On success the fresh state holds
/// the full pile and no winner; when the drawn starting player is the
/// program, its opening move has already been applied and its events are
/// returned.
pub fn init(params: PebblesInit, random: u32) -> (r: Result<
    (GameState, Vec<PebblesEvent>),
    GameError,
>)
    ensures
        r is Ok <==> valid_config(params.pebbles_count, params.max_pebbles_per_turn),
        r is Err ==> r == Err::<(GameState, Vec<PebblesEvent>), GameError>(
            GameError::InvalidConfiguration,
        ),
        r matches Ok((game, events)) ==> {
            let fresh = fresh_game(
                params.difficulty,
                params.pebbles_count,
                params.max_pebbles_per_turn,
                random,
            );
            &&& game.wf()
            &&& if first_player_of(random) == Player::User {
                game == fresh && events@.len() == 0
            } else {
                game == after_program_turn(fresh) && events@ =~= program_turn_events(fresh)
            }
        },
{
    if params.pebbles_count == 0 || params.max_pebbles_per_turn == 0
        || params.max_pebbles_per_turn > params.pebbles_count {
        return Err(GameError::InvalidConfiguration);
    }

    let first_player = select_first_player(random);
    let mut game = GameState {
        pebbles_count: params.pebbles_count,
        max_pebbles_per_turn: params.max_pebbles_per_turn,
        pebbles_remaining: params.pebbles_count,
        difficulty: params.difficulty,
        first_player,
        winner: None,
    };

    let events: Vec<PebblesEvent> = if first_player == Player::Program {
        program_turn(&mut game)
    } else {
        Vec::new()
    };
    Ok((game, events))
}

/// Applies one external action to the game, handing back the events to emit.
///
/// `Turn(count)` succeeds exactly when `turn_valid` holds; a rejected turn
/// leaves the state untouched and fails with `InvalidMove`. After a legal
/// deduction the user wins if the pile is now empty; only otherwise does the
/// automated opponent reply, so a decided game is never re-decided within the
/// same turn. `GiveUp` records the program as winner and touches nothing
/// else. `Restart` installs a fresh game from the given fields without any
/// validation, drawing the starting player from `random`; as at creation,
/// the program moves at once when it starts.
pub fn handle(game: &mut GameState, action: PebblesAction, random: u32) -> (r: Result<
    Vec<PebblesEvent>,
    GameError,
>)
    requires
        old(game).wf(),
    ensures
        final(game).wf(),
        match action {
            PebblesAction::Turn(count) => {
                &&& (r is Ok <==> turn_valid(*old(game), count))
                &&& r is Err ==> r == Err::<Vec<PebblesEvent>, GameError>(GameError::InvalidMove)
                    && *final(game) == *old(game)
                &&& r matches Ok(events) ==> {
                    let mid = user_deducted(*old(game), count);
                    if mid.pebbles_remaining == 0 {
                        &&& *final(game) == (GameState { winner: Some(Player::User), ..mid })
                        &&& events@ =~= seq![PebblesEvent::Won(Player::User)]
                    } else {
                        &&& *final(game) == after_program_turn(mid)
                        &&& events@ =~= program_turn_events(mid)
                    }
                }
            },
            PebblesAction::GiveUp => {
                &&& *final(game) == (GameState { winner: Some(Player::Program), ..*old(game) })
                &&& r matches Ok(events) && events@ =~= seq![PebblesEvent::Won(Player::Program)]
            },
            PebblesAction::Restart { difficulty, pebbles_count, max_pebbles_per_turn } => {
                let fresh = fresh_game(difficulty, pebbles_count, max_pebbles_per_turn, random);
                &&& first_player_of(random) == Player::User ==> *final(game) == fresh
                    && (r matches Ok(events) && events@.len() == 0)
                &&& first_player_of(random) == Player::Program ==> *final(game)
                    == after_program_turn(fresh)
                    && (r matches Ok(events) && events@ =~= program_turn_events(fresh))
            },
        },
{
    match action {
        PebblesAction::Turn(count) => {
            if count == 0 || count > game.max_pebbles_per_turn
                || count > game.pebbles_remaining {
                return Err(GameError::InvalidMove);
            }
            game.pebbles_remaining = game.pebbles_remaining - count;
            if let Some(won) = check_win_condition(game, Player::User) {
                let mut events: Vec<PebblesEvent> = Vec::new();
                events.push(won);
                Ok(events)
            } else {
                Ok(program_turn(game))
            }
        },
        PebblesAction::GiveUp => {
            game.winner = Some(Player::Program);
            let mut events: Vec<PebblesEvent> = Vec::new();
            events.push(PebblesEvent::Won(Player::Program));
            Ok(events)
        },
        PebblesAction::Restart { difficulty, pebbles_count, max_pebbles_per_turn } => {
            let first_player = select_first_player(random);
            *game = GameState {
                pebbles_count,
                max_pebbles_per_turn,
                pebbles_remaining: pebbles_count,
                difficulty,
                first_player,
                winner: None,
            };
            if first_player == Player::Program {
                Ok(program_turn(game))
            } else {
                Ok(Vec::new())
            }
        },
    }
}

/// A read-only snapshot of the current state.
pub fn state(game: &GameState) -> (snapshot: GameState)
    ensures
        snapshot == *game,
{
    *game
}

/// The starting player derived from a host random draw: the user on an even
/// value, the program on an odd one.
pub open spec fn first_player_of(random: u32) -> Player {
    if random % 2 == 0 {
        Player::User
    } else {
        Player::Program
    }
}

/// The 32-bit value the first four bytes of a host random seed stand for,
/// read little-endian.
pub open spec fn u32_le(b0: u8, b1: u8, b2: u8, b3: u8) -> u32 {
    (b0 + b1 * 0x100 + b2 * 0x1_0000 + b3 * 0x100_0000) as u32
}

/// Reads a 32-bit value from four bytes, least significant first: the step
/// that turns the head of a host random seed into the draw `init` and
/// `handle` take.
pub fn u32_from_le_bytes(b0: u8, b1: u8, b2: u8, b3: u8) -> (r: u32)
    ensures
        r == u32_le(b0, b1, b2, b3),
{
    (b0 as u32) + (b1 as u32) * 0x100 + (b2 as u32) * 0x1_0000 + (b3 as u32) * 0x100_0000
}

/// Picks the starting player from a 32-bit random draw.
pub fn select_first_player(random: u32) -> (p: Player)
    ensures
        p == first_player_of(random),
{
    if random % 2 == 0 {
        Player::User
    } else {
        Player::Program
    }
}

} // verus!
