//! Landing-effect resolution: what happens on the space the dice left
//! the player on.  Start pays the salary, tax spaces charge, card
//! spaces hand play to the draw phase, ownable spaces to the buy
//! decision, and everything else passes the turn.

use vstd::prelude::*;
use crate::board::{
    spec_space, space_at, SPACE_TYPE_CARD_ALPHA, SPACE_TYPE_CARD_GOVERNANCE,
    SPACE_TYPE_GENESIS, SPACE_TYPE_TAX,
};
use crate::errors::BlockpolyError;
use crate::game::{spec_sat_add, sat_add, GameState, GameStatus, TurnPhase, GENESIS_SALARY};
use crate::player::PlayerState;

verus! {

/// What resolving a landing did; currency legs name the amount the
/// host must move on the ledger.
#[derive(Clone, Copy, Debug, PartialEq, Eq, Structural)]
pub enum LandingOutcome {
    /// Landed on the start space: the bank pays the salary.
    SalaryCollected(u64),
    /// Landed on a tax space: the player pays the bank.
    TaxCharged(u64),
    /// Nothing happens (free parking, just visiting, and the like).
    NoEffect,
    /// Landed on a card space: a draw is now due.
    CardToDraw,
    /// Landed on an ownable space: the buy decision is now due.
    AwaitingBuyDecision,
}

/// Resolve the effect of the space the current player stands on.
pub fn resolve_landing(game: &mut GameState, player: &mut PlayerState)
    -> (r: Result<LandingOutcome, BlockpolyError>)
    requires
        old(game).wf(),
        old(player).wf(),
        old(game).turn_number < u32::MAX,
        old(game).round_number < u32::MAX,
    ensures
        final(game).wf(),
        final(player).wf(),
        r is Err ==> *final(game) == *old(game) && *final(player) == *old(player),
        !(old(game).status is InProgress)
            ==> r == Err::<LandingOutcome, _>(BlockpolyError::GameNotStarted),
        old(game).status is InProgress && !(old(game).turn_phase is LandingEffect)
            ==> r == Err::<LandingOutcome, _>(BlockpolyError::WrongTurnPhase),
        old(game).status is InProgress && old(game).turn_phase is LandingEffect
            && old(game).current_player_index != old(player).player_index
            ==> r == Err::<LandingOutcome, _>(BlockpolyError::NotYourTurn),
        ({
            let valid = old(game).status is InProgress
                && old(game).turn_phase is LandingEffect
                && old(game).current_player_index == old(player).player_index;
            let space = spec_space(old(player).position as int);
            let tax = space.base_rent;
            &&& (valid && space.space_type == SPACE_TYPE_GENESIS ==> {
                &&& r == Ok::<_, BlockpolyError>(LandingOutcome::SalaryCollected(GENESIS_SALARY))
                &&& *final(player) == (PlayerState {
                    bpoly_balance: spec_sat_add(old(player).bpoly_balance, GENESIS_SALARY),
                    ..*old(player)
                })
                &&& *final(game) == old(game).spec_advanced()
            })
            &&& (valid && space.space_type == SPACE_TYPE_TAX
                && old(player).bpoly_balance < tax
                ==> r == Err::<LandingOutcome, _>(BlockpolyError::InsufficientBalance))
            &&& (valid && space.space_type == SPACE_TYPE_TAX
                && old(player).bpoly_balance >= tax ==> {
                &&& r == Ok::<_, BlockpolyError>(LandingOutcome::TaxCharged(tax))
                &&& *final(player) == (PlayerState {
                    bpoly_balance: (old(player).bpoly_balance - tax) as u64,
                    ..*old(player)
                })
                &&& *final(game) == old(game).spec_advanced()
            })
            &&& (valid && space.space_type == SPACE_TYPE_CARD_ALPHA
                || valid && space.space_type == SPACE_TYPE_CARD_GOVERNANCE ==> {
                &&& r == Ok::<_, BlockpolyError>(LandingOutcome::CardToDraw)
                &&& *final(player) == *old(player)
                &&& *final(game) == (GameState {
                    turn_phase: TurnPhase::DrawCard,
                    ..*old(game)
                })
            })
            &&& (valid && space.spec_is_purchasable() ==> {
                &&& r == Ok::<_, BlockpolyError>(LandingOutcome::AwaitingBuyDecision)
                &&& *final(player) == *old(player)
                &&& *final(game) == (GameState {
                    turn_phase: TurnPhase::BuyDecision,
                    ..*old(game)
                })
            })
            &&& (valid && space.space_type != SPACE_TYPE_GENESIS
                && space.space_type != SPACE_TYPE_TAX
                && space.space_type != SPACE_TYPE_CARD_ALPHA
                && space.space_type != SPACE_TYPE_CARD_GOVERNANCE
                && !space.spec_is_purchasable() ==> {
                &&& r == Ok::<_, BlockpolyError>(LandingOutcome::NoEffect)
                &&& *final(player) == *old(player)
                &&& *final(game) == old(game).spec_advanced()
            })
        }),
{
    if !matches!(game.status, GameStatus::InProgress) {
        return Err(BlockpolyError::GameNotStarted);
    }
    if !matches!(game.turn_phase, TurnPhase::LandingEffect) {
        return Err(BlockpolyError::WrongTurnPhase);
    }
    if game.current_player_index != player.player_index {
        return Err(BlockpolyError::NotYourTurn);
    }

    let space = space_at(player.position);
    if space.space_type == SPACE_TYPE_GENESIS {
        player.bpoly_balance = sat_add(player.bpoly_balance, GENESIS_SALARY);
        game.advance_turn();
        Ok(LandingOutcome::SalaryCollected(GENESIS_SALARY))
    } else if space.space_type == SPACE_TYPE_TAX {
        let tax = space.base_rent;
        if player.bpoly_balance < tax {
            return Err(BlockpolyError::InsufficientBalance);
        }
        player.bpoly_balance = player.bpoly_balance - tax;
        game.advance_turn();
        Ok(LandingOutcome::TaxCharged(tax))
    } else if space.space_type == SPACE_TYPE_CARD_ALPHA
        || space.space_type == SPACE_TYPE_CARD_GOVERNANCE {
        game.turn_phase = TurnPhase::DrawCard;
        Ok(LandingOutcome::CardToDraw)
    } else if space.is_purchasable() {
        game.turn_phase = TurnPhase::BuyDecision;
        Ok(LandingOutcome::AwaitingBuyDecision)
    } else {
        game.advance_turn();
        Ok(LandingOutcome::NoEffect)
    }
}

} // verus!
