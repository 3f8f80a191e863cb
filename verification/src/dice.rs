//! Dice and movement: requesting randomness and resolving the callback.
//!
//! The callback derives the two dice from independent bytes of the
//! random payload, applies movement modulo the board size, tracks the
//! consecutive-doubles streak (three in a row force jail entry), and
//! performs the jail doubles-escape check for a jailed roller.

use vstd::prelude::*;
use crate::board::{spec_space, space_at, BOARD_SIZE, SPACE_RUGPULL_ZONE, SPACE_TYPE_GO_TO_JAIL};
use crate::errors::BlockpolyError;
use crate::game::{GameState, GameStatus, TurnPhase, RUGPULL_MAX_TURNS, RUGPULL_BAIL_AMOUNT};
use crate::player::{PlayerState, PlayerStatus};

verus! {

/// A die derived from one random byte: always in 1..=6.
pub open spec fn spec_die(byte: u8) -> u8 {
    ((byte % 6) + 1) as u8
}

/// Every die derived from a random byte lies in 1..=6, whatever the
/// payload holds.
pub proof fn lemma_die_in_range(byte: u8)
    ensures 1 <= spec_die(byte) <= 6,
{
}

/// Movement is always `(old_position + roll) mod 40`.
pub open spec fn spec_new_position(old_pos: u8, roll: int) -> u8 {
    ((old_pos + roll) % 40) as u8
}

/// The start space was passed iff the position wrapped, or the move
/// began on the start space itself.
pub open spec fn spec_passed_start(old_pos: u8, new_pos: u8, roll: int) -> bool {
    new_pos < old_pos || (old_pos == 0 && roll > 0)
}

/// What a fulfilled dice roll did.
#[derive(Clone, Copy, Debug, PartialEq, Eq, Structural)]
pub enum RollOutcome {
    /// Ordinary movement; the landing effect is now pending.
    Moved { die1: u8, die2: u8, new_position: u8, passed_start: bool },
    /// Third consecutive double: straight to the Rug Pull Zone, no movement.
    TripleDoubles { die1: u8, die2: u8 },
    /// The move landed on the go-to-jail space.
    SentToJail { die1: u8, die2: u8 },
    /// A jailed player rolled doubles and escaped, moving by the roll.
    JailEscape { die1: u8, die2: u8, new_position: u8, passed_start: bool },
    /// A jailed player failed the doubles attempt and stays put.
    JailHeld { die1: u8, die2: u8, turns_remaining: u8 },
    /// A jailed player's last attempt failed: the fixed bail was charged
    /// (player pays the bank) and the player moved by the roll.
    JailForcedBail { die1: u8, die2: u8, new_position: u8, passed_start: bool },
}

/// The current player asks the host for randomness; play waits for the
/// callback.
pub fn request_dice_roll(game: &mut GameState, player: &PlayerState)
    -> (r: Result<(), BlockpolyError>)
    requires
        old(game).wf(),
    ensures
        final(game).wf(),
        r is Err ==> *final(game) == *old(game),
        !(old(game).status is InProgress)
            ==> r == Err::<(), _>(BlockpolyError::GameNotStarted),
        old(game).status is InProgress
            && old(game).current_player_index != player.player_index
            ==> r == Err::<(), _>(BlockpolyError::NotYourTurn),
        old(game).status is InProgress
            && old(game).current_player_index == player.player_index
            && !(old(game).turn_phase is RollDice)
            ==> r == Err::<(), _>(BlockpolyError::WrongTurnPhase),
        old(game).status is InProgress
            && old(game).current_player_index == player.player_index
            && old(game).turn_phase is RollDice
            && old(game).vrf_request is Some
            ==> r == Err::<(), _>(BlockpolyError::VRFPending),
        old(game).status is InProgress
            && old(game).current_player_index == player.player_index
            && old(game).turn_phase is RollDice
            && old(game).vrf_request is None
            ==> r is Ok
                && *final(game) == (GameState {
                    turn_phase: TurnPhase::AwaitingVRF,
                    ..*old(game)
                }),
{
    if !matches!(game.status, GameStatus::InProgress) {
        return Err(BlockpolyError::GameNotStarted);
    }
    if game.current_player_index != player.player_index {
        return Err(BlockpolyError::NotYourTurn);
    }
    if !matches!(game.turn_phase, TurnPhase::RollDice) {
        return Err(BlockpolyError::WrongTurnPhase);
    }
    if game.vrf_request.is_some() {
        return Err(BlockpolyError::VRFPending);
    }
    game.turn_phase = TurnPhase::AwaitingVRF;
    Ok(())
}

/// The randomness callback: derive the dice, resolve the jail attempt
/// or the movement, and hand play to the landing-effect phase (or, for
/// a failed jail attempt, to the next player).
pub fn consume_randomness(
    game: &mut GameState, player: &mut PlayerState, random_bytes: &Vec<u8>,
) -> (r: Result<RollOutcome, BlockpolyError>)
    requires
        old(game).wf(),
        old(player).wf(),
        random_bytes@.len() == 32,
        old(game).turn_number < u32::MAX,
        old(game).round_number < u32::MAX,
    ensures
        final(game).wf(),
        final(player).wf(),
        r is Err ==> *final(game) == *old(game) && *final(player) == *old(player),
        ({
            let d1 = spec_die(random_bytes@[0]);
            let d2 = spec_die(random_bytes@[1]);
            let doubles = d1 == d2;
            let roll = d1 + d2;
            let valid = old(game).status is InProgress
                && old(game).turn_phase is AwaitingVRF
                && old(game).current_player_index == old(player).player_index
                && !old(player).is_bankrupt;
            let jailed = old(player).spec_is_in_rugpull();
            let new_pos = spec_new_position(old(player).position, roll);
            let passed = spec_passed_start(old(player).position, new_pos, roll);
            let landing_game = (GameState {
                turn_phase: TurnPhase::LandingEffect,
                vrf_request: None,
                pending_dice: Some((d1, d2)),
                ..*old(game)
            });
            &&& (!(old(game).status is InProgress)
                ==> r == Err::<RollOutcome, _>(BlockpolyError::GameNotStarted))
            &&& (old(game).status is InProgress && !(old(game).turn_phase is AwaitingVRF)
                ==> r == Err::<RollOutcome, _>(BlockpolyError::WrongTurnPhase))
            &&& (old(game).status is InProgress && old(game).turn_phase is AwaitingVRF
                && old(game).current_player_index != old(player).player_index
                ==> r == Err::<RollOutcome, _>(BlockpolyError::NotYourTurn))
            &&& (old(game).status is InProgress && old(game).turn_phase is AwaitingVRF
                && old(game).current_player_index == old(player).player_index
                && old(player).is_bankrupt
                ==> r == Err::<RollOutcome, _>(BlockpolyError::PlayerBankrupt))
            // Jailed roller, doubles: escape and move.
            &&& (valid && jailed && doubles ==> {
                &&& r == Ok::<_, BlockpolyError>(RollOutcome::JailEscape {
                    die1: d1, die2: d2, new_position: new_pos, passed_start: passed,
                })
                &&& *final(player) == (PlayerState {
                    position: new_pos,
                    status: PlayerStatus::Active,
                    rugpull_turns_remaining: 0,
                    doubles_streak: 0,
                    ..*old(player)
                })
                &&& *final(game) == landing_game
            })
            // Jailed roller, no doubles, turns remain: stay, turn passes.
            &&& (valid && jailed && !doubles && old(player).rugpull_turns_remaining > 1 ==> {
                &&& r == Ok::<_, BlockpolyError>(RollOutcome::JailHeld {
                    die1: d1, die2: d2,
                    turns_remaining: (old(player).rugpull_turns_remaining - 1) as u8,
                })
                &&& *final(player) == (PlayerState {
                    rugpull_turns_remaining: (old(player).rugpull_turns_remaining - 1) as u8,
                    doubles_streak: 0,
                    ..*old(player)
                })
                &&& *final(game) == (GameState {
                    vrf_request: None,
                    ..*old(game)
                }).spec_advanced()
            })
            // Jailed roller, no doubles, last turn: forced bail, then move.
            &&& (valid && jailed && !doubles && old(player).rugpull_turns_remaining <= 1
                && old(player).bpoly_balance < RUGPULL_BAIL_AMOUNT
                ==> r == Err::<RollOutcome, _>(BlockpolyError::InsufficientBalance))
            &&& (valid && jailed && !doubles && old(player).rugpull_turns_remaining <= 1
                && old(player).bpoly_balance >= RUGPULL_BAIL_AMOUNT ==> {
                &&& r == Ok::<_, BlockpolyError>(RollOutcome::JailForcedBail {
                    die1: d1, die2: d2, new_position: new_pos, passed_start: passed,
                })
                &&& *final(player) == (PlayerState {
                    position: new_pos,
                    status: PlayerStatus::Active,
                    rugpull_turns_remaining: 0,
                    doubles_streak: 0,
                    bpoly_balance: (old(player).bpoly_balance - RUGPULL_BAIL_AMOUNT) as u64,
                    ..*old(player)
                })
                &&& *final(game) == landing_game
            })
            // Third consecutive double: jail, overriding any landing effect.
            &&& (valid && !jailed && doubles && old(player).doubles_streak >= 2 ==> {
                &&& r == Ok::<_, BlockpolyError>(RollOutcome::TripleDoubles { die1: d1, die2: d2 })
                &&& *final(player) == (PlayerState {
                    doubles_streak: 0,
                    position: SPACE_RUGPULL_ZONE,
                    rugpull_turns_remaining: RUGPULL_MAX_TURNS,
                    status: PlayerStatus::InRugPullZone,
                    ..*old(player)
                })
                &&& *final(game) == landing_game
            })
            // Moved onto the go-to-jail space.
            &&& (valid && !jailed && !(doubles && old(player).doubles_streak >= 2)
                && spec_space(new_pos as int).space_type == SPACE_TYPE_GO_TO_JAIL ==> {
                &&& r == Ok::<_, BlockpolyError>(RollOutcome::SentToJail { die1: d1, die2: d2 })
                &&& *final(player) == (PlayerState {
                    doubles_streak: 0,
                    position: SPACE_RUGPULL_ZONE,
                    rugpull_turns_remaining: RUGPULL_MAX_TURNS,
                    status: PlayerStatus::InRugPullZone,
                    ..*old(player)
                })
                &&& *final(game) == landing_game
            })
            // Ordinary movement.
            &&& (valid && !jailed && !(doubles && old(player).doubles_streak >= 2)
                && spec_space(new_pos as int).space_type != SPACE_TYPE_GO_TO_JAIL ==> {
                &&& r == Ok::<_, BlockpolyError>(RollOutcome::Moved {
                    die1: d1, die2: d2, new_position: new_pos, passed_start: passed,
                })
                &&& *final(player) == (PlayerState {
                    position: new_pos,
                    doubles_streak: if doubles {
                        (old(player).doubles_streak + 1) as u8
                    } else {
                        0
                    },
                    ..*old(player)
                })
                &&& *final(game) == landing_game
            })
        }),
{
    if !matches!(game.status, GameStatus::InProgress) {
        return Err(BlockpolyError::GameNotStarted);
    }
    if !matches!(game.turn_phase, TurnPhase::AwaitingVRF) {
        return Err(BlockpolyError::WrongTurnPhase);
    }
    if game.current_player_index != player.player_index {
        return Err(BlockpolyError::NotYourTurn);
    }
    if player.is_bankrupt {
        return Err(BlockpolyError::PlayerBankrupt);
    }

    let die1 = (random_bytes[0] % 6) + 1;
    let die2 = (random_bytes[1] % 6) + 1;
    let roll_total = die1 + die2;
    let is_doubles = die1 == die2;

    // A jailed player's roll is the doubles-escape attempt.
    if player.is_in_rugpull() {
        if is_doubles {
            player.status = PlayerStatus::Active;
            player.rugpull_turns_remaining = 0;
            player.doubles_streak = 0;
            let old_position = player.position;
            let new_position = (old_position + roll_total) % BOARD_SIZE;
            let passed = new_position < old_position || (old_position == 0 && roll_total > 0);
            player.position = new_position;
            game.turn_phase = TurnPhase::LandingEffect;
            game.vrf_request = None;
            game.pending_dice = Some((die1, die2));
            return Ok(RollOutcome::JailEscape {
                die1, die2, new_position, passed_start: passed,
            });
        }
        if player.rugpull_turns_remaining > 1 {
            player.rugpull_turns_remaining = player.rugpull_turns_remaining - 1;
            player.doubles_streak = 0;
            let turns_remaining = player.rugpull_turns_remaining;
            game.vrf_request = None;
            game.advance_turn();
            return Ok(RollOutcome::JailHeld { die1, die2, turns_remaining });
        }
        // Last allowed stay: bail is forced before the move.
        if player.bpoly_balance < RUGPULL_BAIL_AMOUNT {
            return Err(BlockpolyError::InsufficientBalance);
        }
        player.bpoly_balance = player.bpoly_balance - RUGPULL_BAIL_AMOUNT;
        player.status = PlayerStatus::Active;
        player.rugpull_turns_remaining = 0;
        player.doubles_streak = 0;
        let old_position = player.position;
        let new_position = (old_position + roll_total) % BOARD_SIZE;
        let passed = new_position < old_position || (old_position == 0 && roll_total > 0);
        player.position = new_position;
        game.turn_phase = TurnPhase::LandingEffect;
        game.vrf_request = None;
        game.pending_dice = Some((die1, die2));
        return Ok(RollOutcome::JailForcedBail {
            die1, die2, new_position, passed_start: passed,
        });
    }

    // Three consecutive doubles short-circuit straight into jail.
    if is_doubles {
        if player.doubles_streak >= 2 {
            player.doubles_streak = 0;
            player.position = SPACE_RUGPULL_ZONE;
            player.rugpull_turns_remaining = RUGPULL_MAX_TURNS;
            player.status = PlayerStatus::InRugPullZone;
            game.turn_phase = TurnPhase::LandingEffect;
            game.vrf_request = None;
            game.pending_dice = Some((die1, die2));
            return Ok(RollOutcome::TripleDoubles { die1, die2 });
        }
        player.doubles_streak = player.doubles_streak + 1;
    } else {
        player.doubles_streak = 0;
    }

    let old_position = player.position;
    let new_position = (old_position + roll_total) % BOARD_SIZE;
    let passed = new_position < old_position || (old_position == 0 && roll_total > 0);
    player.position = new_position;

    let landed = space_at(new_position);
    if landed.space_type == SPACE_TYPE_GO_TO_JAIL {
        player.position = SPACE_RUGPULL_ZONE;
        player.rugpull_turns_remaining = RUGPULL_MAX_TURNS;
        player.status = PlayerStatus::InRugPullZone;
        player.doubles_streak = 0;
        game.turn_phase = TurnPhase::LandingEffect;
        game.vrf_request = None;
        game.pending_dice = Some((die1, die2));
        return Ok(RollOutcome::SentToJail { die1, die2 });
    }

    game.turn_phase = TurnPhase::LandingEffect;
    game.vrf_request = None;
    game.pending_dice = Some((die1, die2));
    Ok(RollOutcome::Moved { die1, die2, new_position, passed_start: passed })
}

} // verus!
