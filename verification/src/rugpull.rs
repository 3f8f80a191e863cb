//! Rug Pull Zone (jail) exits: paying bail, spending a jail-free card,
//! or electing a doubles attempt (whose outcome the randomness
//! callback decides).

use vstd::prelude::*;
use crate::errors::BlockpolyError;
use crate::game::{GameState, GameStatus, TurnPhase, RUGPULL_BAIL_AMOUNT};
use crate::player::{PlayerState, PlayerStatus};

verus! {

/// Pay the fixed bail to leave the Rug Pull Zone at once; the player
/// may then roll this turn.  The returned bail moves from the player
/// to the bank.
pub fn rugpull_pay_bail(game: &mut GameState, player: &mut PlayerState)
    -> (r: Result<u64, BlockpolyError>)
    requires
        old(game).wf(),
        old(player).wf(),
    ensures
        final(game).wf(),
        final(player).wf(),
        r is Err ==> *final(game) == *old(game) && *final(player) == *old(player),
        !(old(game).status is InProgress)
            ==> r == Err::<u64, _>(BlockpolyError::GameNotStarted),
        old(game).status is InProgress
            && old(game).current_player_index != old(player).player_index
            ==> r == Err::<u64, _>(BlockpolyError::NotYourTurn),
        ({
            let valid = old(game).status is InProgress
                && old(game).current_player_index == old(player).player_index;
            let phase_ok = old(game).turn_phase is RugPullDecision
                || old(game).turn_phase is RollDice;
            &&& (valid && !old(player).spec_is_in_rugpull()
                ==> r == Err::<u64, _>(BlockpolyError::NotInRugPullZone))
            &&& (valid && old(player).spec_is_in_rugpull() && !phase_ok
                ==> r == Err::<u64, _>(BlockpolyError::WrongTurnPhase))
            &&& (valid && old(player).spec_is_in_rugpull() && phase_ok
                && old(player).bpoly_balance < RUGPULL_BAIL_AMOUNT
                ==> r == Err::<u64, _>(BlockpolyError::InsufficientBalance))
            &&& (valid && old(player).spec_is_in_rugpull() && phase_ok
                && old(player).bpoly_balance >= RUGPULL_BAIL_AMOUNT ==> {
                &&& r == Ok::<u64, BlockpolyError>(RUGPULL_BAIL_AMOUNT)
                &&& *final(player) == (PlayerState {
                    bpoly_balance: (old(player).bpoly_balance - RUGPULL_BAIL_AMOUNT) as u64,
                    rugpull_turns_remaining: 0,
                    status: PlayerStatus::Active,
                    ..*old(player)
                })
                &&& *final(game) == (GameState {
                    turn_phase: TurnPhase::RollDice,
                    ..*old(game)
                })
            })
        }),
{
    if !matches!(game.status, GameStatus::InProgress) {
        return Err(BlockpolyError::GameNotStarted);
    }
    if game.current_player_index != player.player_index {
        return Err(BlockpolyError::NotYourTurn);
    }
    if !player.is_in_rugpull() {
        return Err(BlockpolyError::NotInRugPullZone);
    }
    let phase_ok = matches!(game.turn_phase, TurnPhase::RugPullDecision)
        || matches!(game.turn_phase, TurnPhase::RollDice);
    if !phase_ok {
        return Err(BlockpolyError::WrongTurnPhase);
    }
    if player.bpoly_balance < RUGPULL_BAIL_AMOUNT {
        return Err(BlockpolyError::InsufficientBalance);
    }

    player.bpoly_balance = player.bpoly_balance - RUGPULL_BAIL_AMOUNT;
    player.rugpull_turns_remaining = 0;
    player.status = PlayerStatus::Active;
    game.turn_phase = TurnPhase::RollDice;
    Ok(RUGPULL_BAIL_AMOUNT)
}

/// Spend a held jail-free card to leave the Rug Pull Zone at once.
pub fn rugpull_use_jail_free_card(game: &mut GameState, player: &mut PlayerState)
    -> (r: Result<(), BlockpolyError>)
    requires
        old(game).wf(),
        old(player).wf(),
    ensures
        final(game).wf(),
        final(player).wf(),
        r is Err ==> *final(game) == *old(game) && *final(player) == *old(player),
        !(old(game).status is InProgress)
            ==> r == Err::<(), _>(BlockpolyError::GameNotStarted),
        old(game).status is InProgress
            && old(game).current_player_index != old(player).player_index
            ==> r == Err::<(), _>(BlockpolyError::NotYourTurn),
        ({
            let valid = old(game).status is InProgress
                && old(game).current_player_index == old(player).player_index;
            let phase_ok = old(game).turn_phase is RugPullDecision
                || old(game).turn_phase is RollDice;
            &&& (valid && !old(player).spec_is_in_rugpull()
                ==> r == Err::<(), _>(BlockpolyError::NotInRugPullZone))
            &&& (valid && old(player).spec_is_in_rugpull() && !phase_ok
                ==> r == Err::<(), _>(BlockpolyError::WrongTurnPhase))
            &&& (valid && old(player).spec_is_in_rugpull() && phase_ok
                && !old(player).has_jail_free_card
                ==> r == Err::<(), _>(BlockpolyError::NoJailFreeCard))
            &&& (valid && old(player).spec_is_in_rugpull() && phase_ok
                && old(player).has_jail_free_card ==> {
                &&& r is Ok
                &&& *final(player) == (PlayerState {
                    has_jail_free_card: false,
                    jail_free_card_type: 0,
                    rugpull_turns_remaining: 0,
                    status: PlayerStatus::Active,
                    ..*old(player)
                })
                &&& *final(game) == (GameState {
                    turn_phase: TurnPhase::RollDice,
                    ..*old(game)
                })
            })
        }),
{
    if !matches!(game.status, GameStatus::InProgress) {
        return Err(BlockpolyError::GameNotStarted);
    }
    if game.current_player_index != player.player_index {
        return Err(BlockpolyError::NotYourTurn);
    }
    if !player.is_in_rugpull() {
        return Err(BlockpolyError::NotInRugPullZone);
    }
    let phase_ok = matches!(game.turn_phase, TurnPhase::RugPullDecision)
        || matches!(game.turn_phase, TurnPhase::RollDice);
    if !phase_ok {
        return Err(BlockpolyError::WrongTurnPhase);
    }
    if !player.has_jail_free_card {
        return Err(BlockpolyError::NoJailFreeCard);
    }

    player.has_jail_free_card = false;
    player.jail_free_card_type = 0;
    player.rugpull_turns_remaining = 0;
    player.status = PlayerStatus::Active;
    game.turn_phase = TurnPhase::RollDice;
    Ok(())
}

/// Elect the doubles attempt: the player proceeds to roll, and the
/// randomness callback decides the exit or the stay.
pub fn rugpull_attempt_doubles(game: &mut GameState, player: &PlayerState)
    -> (r: Result<(), BlockpolyError>)
    requires
        old(game).wf(),
        player.wf(),
    ensures
        final(game).wf(),
        r is Err ==> *final(game) == *old(game),
        !(old(game).status is InProgress)
            ==> r == Err::<(), _>(BlockpolyError::GameNotStarted),
        old(game).status is InProgress
            && old(game).current_player_index != player.player_index
            ==> r == Err::<(), _>(BlockpolyError::NotYourTurn),
        old(game).status is InProgress
            && old(game).current_player_index == player.player_index
            && !player.spec_is_in_rugpull()
            ==> r == Err::<(), _>(BlockpolyError::NotInRugPullZone),
        old(game).status is InProgress
            && old(game).current_player_index == player.player_index
            && player.spec_is_in_rugpull()
            && !(old(game).turn_phase is RugPullDecision || old(game).turn_phase is RollDice)
            ==> r == Err::<(), _>(BlockpolyError::WrongTurnPhase),
        old(game).status is InProgress
            && old(game).current_player_index == player.player_index
            && player.spec_is_in_rugpull()
            && (old(game).turn_phase is RugPullDecision || old(game).turn_phase is RollDice) ==> {
            &&& r is Ok
            &&& *final(game) == (GameState {
                turn_phase: TurnPhase::RollDice,
                ..*old(game)
            })
        },
{
    if !matches!(game.status, GameStatus::InProgress) {
        return Err(BlockpolyError::GameNotStarted);
    }
    if game.current_player_index != player.player_index {
        return Err(BlockpolyError::NotYourTurn);
    }
    if !player.is_in_rugpull() {
        return Err(BlockpolyError::NotInRugPullZone);
    }
    let phase_ok = matches!(game.turn_phase, TurnPhase::RugPullDecision)
        || matches!(game.turn_phase, TurnPhase::RollDice);
    if !phase_ok {
        return Err(BlockpolyError::WrongTurnPhase);
    }
    game.turn_phase = TurnPhase::RollDice;
    Ok(())
}

} // verus!
