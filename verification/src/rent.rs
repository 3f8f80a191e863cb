//! Rent computation and collection.
//!
//! Bridges rent by how many bridges the owner holds, utilities by the
//! dice roll and whether both utilities are held, ordinary properties
//! by their improvement tier.  A running Bull Run doubles rent for
//! unimproved ordinary property only.  Self-payment and mortgaged
//! property are errors, never zero charges.

use vstd::prelude::*;
use crate::board::{
    spec_space, space_at, MICRO, SPACE_TYPE_BRIDGE, SPACE_TYPE_PROPERTY, SPACE_TYPE_UTILITY,
};
use crate::errors::BlockpolyError;
use crate::game::{spec_sat_mul, sat_mul, GameState, GameStatus, TurnPhase};
use crate::player::PlayerState;
use crate::property::PropertyState;

verus! {

/// The rent owed on `space_index` under the given ownership facts:
/// `dice_total` is the roll that landed here (utilities), and
/// `bridges_owned` / `utilities_owned` count the owner's holdings of
/// those types.
pub open spec fn spec_rent(
    space_index: u8, property: PropertyState, game: GameState,
    dice_total: u8, bridges_owned: u8, utilities_owned: u8,
) -> u64 {
    let space = spec_space(space_index as int);
    let base = if space.space_type == SPACE_TYPE_BRIDGE {
        space.spec_bridge_rent(bridges_owned)
    } else if space.space_type == SPACE_TYPE_UTILITY {
        let multiplier: u64 = if utilities_owned >= 2 { 10 } else { 4 };
        (dice_total * MICRO * multiplier) as u64
    } else if space.space_type == SPACE_TYPE_PROPERTY {
        if property.is_full_protocol {
            space.protocol_rent
        } else if property.liquidity_pools > 0 {
            space.spec_lp_rent(property.liquidity_pools)
        } else {
            space.base_rent
        }
    } else {
        0
    };
    if game.bull_run_active
        && game.round_number <= game.bull_run_ends_round
        && space.space_type == SPACE_TYPE_PROPERTY
        && !property.is_full_protocol
        && property.liquidity_pools == 0 {
        spec_sat_mul(base, 2)
    } else {
        base
    }
}

/// Pure rent calculation; never fails.
pub fn calculate_rent(
    space_index: u8, property: &PropertyState, game: &GameState,
    dice_total: u8, bridges_owned: u8, utilities_owned: u8,
) -> (r: Result<u64, BlockpolyError>)
    requires
        space_index < 40,
    ensures
        r == Ok::<u64, BlockpolyError>(spec_rent(
            space_index, *property, *game, dice_total, bridges_owned, utilities_owned,
        )),
{
    let space = space_at(space_index);
    let base: u64 = if space.space_type == SPACE_TYPE_BRIDGE {
        space.bridge_rent(bridges_owned)
    } else if space.space_type == SPACE_TYPE_UTILITY {
        let multiplier: u64 = if utilities_owned >= 2 { 10 } else { 4 };
        (dice_total as u64) * MICRO * multiplier
    } else if space.space_type == SPACE_TYPE_PROPERTY {
        if property.is_full_protocol {
            space.protocol_rent
        } else if property.liquidity_pools > 0 {
            space.lp_rent(property.liquidity_pools)
        } else {
            space.base_rent
        }
    } else {
        0
    };

    let rent = if game.bull_run_active
        && game.round_number <= game.bull_run_ends_round
        && space.space_type == SPACE_TYPE_PROPERTY
        && !property.is_full_protocol
        && property.liquidity_pools == 0 {
        sat_mul(base, 2)
    } else {
        base
    };
    Ok(rent)
}

/// Collect rent from the current player for the space they stand on.
/// On success the returned amount moves from the payer to the owner on
/// the ledger, and the last-rent memo records it.
pub fn pay_rent(
    game: &mut GameState, payer: &mut PlayerState, property: &PropertyState,
    dice_total: u8, bridges_owned: u8, utilities_owned: u8,
) -> (r: Result<u64, BlockpolyError>)
    requires
        old(game).wf(),
        old(payer).wf(),
        old(game).turn_number < u32::MAX,
        old(game).round_number < u32::MAX,
    ensures
        final(game).wf(),
        final(payer).wf(),
        r is Err ==> *final(game) == *old(game) && *final(payer) == *old(payer),
        !(old(game).status is InProgress)
            ==> r == Err::<u64, _>(BlockpolyError::GameNotStarted),
        old(game).status is InProgress && !(old(game).turn_phase is BuyDecision)
            ==> r == Err::<u64, _>(BlockpolyError::WrongTurnPhase),
        old(game).status is InProgress && old(game).turn_phase is BuyDecision
            && old(game).current_player_index != old(payer).player_index
            ==> r == Err::<u64, _>(BlockpolyError::NotYourTurn),
        ({
            let valid = old(game).status is InProgress
                && old(game).turn_phase is BuyDecision
                && old(game).current_player_index == old(payer).player_index;
            let rent = spec_rent(
                old(payer).position, *property, *old(game),
                dice_total, bridges_owned, utilities_owned,
            );
            &&& (valid && property.space_index != old(payer).position
                ==> r == Err::<u64, _>(BlockpolyError::InvalidSpaceIndex))
            &&& (valid && property.space_index == old(payer).position
                && property.is_mortgaged
                ==> r == Err::<u64, _>(BlockpolyError::PropertyMortgaged))
            &&& (valid && property.space_index == old(payer).position
                && !property.is_mortgaged && property.owner == old(payer).wallet
                ==> r == Err::<u64, _>(BlockpolyError::PropertyNotAvailable))
            &&& (valid && property.space_index == old(payer).position
                && !property.is_mortgaged && property.owner != old(payer).wallet
                && old(payer).bpoly_balance < rent
                ==> r == Err::<u64, _>(BlockpolyError::InsufficientBalance))
            &&& (valid && property.space_index == old(payer).position
                && !property.is_mortgaged && property.owner != old(payer).wallet
                && old(payer).bpoly_balance >= rent ==> {
                &&& r == Ok::<u64, BlockpolyError>(rent)
                &&& *final(payer) == (PlayerState {
                    bpoly_balance: (old(payer).bpoly_balance - rent) as u64,
                    ..*old(payer)
                })
                &&& *final(game) == (GameState {
                    last_rent_payer: Some(old(payer).wallet),
                    last_rent_amount: rent,
                    ..*old(game)
                }).spec_advanced()
            })
        }),
{
    if !matches!(game.status, GameStatus::InProgress) {
        return Err(BlockpolyError::GameNotStarted);
    }
    if !matches!(game.turn_phase, TurnPhase::BuyDecision) {
        return Err(BlockpolyError::WrongTurnPhase);
    }
    if game.current_player_index != payer.player_index {
        return Err(BlockpolyError::NotYourTurn);
    }
    if property.space_index != payer.position {
        return Err(BlockpolyError::InvalidSpaceIndex);
    }
    if property.is_mortgaged {
        return Err(BlockpolyError::PropertyMortgaged);
    }
    if property.owner == payer.wallet {
        return Err(BlockpolyError::PropertyNotAvailable);
    }

    let rent = match calculate_rent(
        payer.position, property, game, dice_total, bridges_owned, utilities_owned,
    ) {
        Ok(amount) => amount,
        Err(e) => {
            return Err(e);
        },
    };
    if payer.bpoly_balance < rent {
        return Err(BlockpolyError::InsufficientBalance);
    }
    payer.bpoly_balance = payer.bpoly_balance - rent;
    game.last_rent_payer = Some(payer.wallet);
    game.last_rent_amount = rent;
    game.advance_turn();
    Ok(rent)
}

/// Bridge rent is monotonic, non-decreasing in the owner's bridge
/// count: more bridges never lower the rent of any bridge space.
pub proof fn lemma_bridge_rent_monotonic(space_index: u8, a: u8, b: u8)
    requires
        space_index < 40,
        spec_space(space_index as int).space_type == SPACE_TYPE_BRIDGE,
        a <= b,
    ensures
        spec_space(space_index as int).spec_bridge_rent(a)
            <= spec_space(space_index as int).spec_bridge_rent(b),
{
}

/// An active, unexpired Bull Run exactly doubles the rent of an
/// unimproved ordinary property.
pub proof fn lemma_bull_run_doubles_unimproved(
    space_index: u8, property: PropertyState, game: GameState,
    dice_total: u8, bridges_owned: u8, utilities_owned: u8,
)
    requires
        space_index < 40,
        spec_space(space_index as int).space_type == SPACE_TYPE_PROPERTY,
        property.liquidity_pools == 0,
        !property.is_full_protocol,
        game.bull_run_active,
        game.round_number <= game.bull_run_ends_round,
    ensures
        spec_rent(space_index, property, game, dice_total, bridges_owned, utilities_owned)
            == 2 * spec_space(space_index as int).base_rent,
{
}

/// Bull Run never touches bridge or utility rent: it equals the plain
/// ownership-count (or dice-driven) amount, exactly as if no Bull Run
/// were running.
pub proof fn lemma_bull_run_ignores_bridges_and_utilities(
    space_index: u8, property: PropertyState, game: GameState,
    dice_total: u8, bridges_owned: u8, utilities_owned: u8,
)
    requires
        space_index < 40,
        spec_space(space_index as int).space_type == SPACE_TYPE_BRIDGE
            || spec_space(space_index as int).space_type == SPACE_TYPE_UTILITY,
    ensures
        spec_rent(space_index, property, game, dice_total, bridges_owned, utilities_owned)
            == if spec_space(space_index as int).space_type == SPACE_TYPE_BRIDGE {
                spec_space(space_index as int).spec_bridge_rent(bridges_owned)
            } else {
                (dice_total * MICRO * (if utilities_owned >= 2 { 10u64 } else { 4u64 })) as u64
            },
{
}

/// Bull Run leaves improved property untouched: rent equals the plain
/// improvement tier, exactly as if no Bull Run were running.
pub proof fn lemma_bull_run_ignores_improved(
    space_index: u8, property: PropertyState, game: GameState,
    dice_total: u8, bridges_owned: u8, utilities_owned: u8,
)
    requires
        space_index < 40,
        spec_space(space_index as int).space_type == SPACE_TYPE_PROPERTY,
        property.liquidity_pools > 0 || property.is_full_protocol,
    ensures
        spec_rent(space_index, property, game, dice_total, bridges_owned, utilities_owned)
            == if property.is_full_protocol {
                spec_space(space_index as int).protocol_rent
            } else {
                spec_space(space_index as int).spec_lp_rent(property.liquidity_pools)
            },
{
}

} // verus!
