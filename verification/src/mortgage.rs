//! Mortgaging: the bank advances half the list price against a
//! building-free property; unmortgaging repays it plus a tenth
//! interest.

use vstd::prelude::*;
use crate::board::{spec_space, space_at};
use crate::errors::BlockpolyError;
use crate::game::{spec_sat_add, sat_add, GameState, GameStatus};
use crate::player::PlayerState;
use crate::property::PropertyState;

verus! {

/// Mortgage an owned, building-free property.  The returned mortgage
/// value moves from the bank to the player.
pub fn mortgage_property(
    game: &GameState, player: &mut PlayerState, property: &mut PropertyState, space_index: u8,
) -> (r: Result<u64, BlockpolyError>)
    requires
        game.wf(),
        old(player).wf(),
        old(property).wf(),
    ensures
        final(player).wf(),
        final(property).wf(),
        r is Err ==> *final(player) == *old(player) && *final(property) == *old(property),
        !(game.status is InProgress)
            ==> r == Err::<u64, _>(BlockpolyError::GameNotStarted),
        ({
            let valid = game.status is InProgress;
            let value = spec_space(space_index as int).mortgage_value;
            &&& (valid && space_index != old(property).space_index
                ==> r == Err::<u64, _>(BlockpolyError::InvalidSpaceIndex))
            &&& (valid && space_index == old(property).space_index
                && old(property).owner != old(player).wallet
                ==> r == Err::<u64, _>(BlockpolyError::NotPropertyOwner))
            &&& (valid && space_index == old(property).space_index
                && old(property).owner == old(player).wallet
                && old(property).is_mortgaged
                ==> r == Err::<u64, _>(BlockpolyError::PropertyMortgaged))
            &&& (valid && space_index == old(property).space_index
                && old(property).owner == old(player).wallet
                && !old(property).is_mortgaged
                && old(property).spec_has_buildings()
                ==> r == Err::<u64, _>(BlockpolyError::CannotMortgageWithBuildings))
            &&& (valid && space_index == old(property).space_index
                && old(property).owner == old(player).wallet
                && !old(property).is_mortgaged
                && !old(property).spec_has_buildings() ==> {
                &&& r == Ok::<u64, BlockpolyError>(value)
                &&& *final(player) == (PlayerState {
                    bpoly_balance: spec_sat_add(old(player).bpoly_balance, value),
                    ..*old(player)
                })
                &&& *final(property) == (PropertyState {
                    is_mortgaged: true,
                    ..*old(property)
                })
            })
        }),
{
    if !matches!(game.status, GameStatus::InProgress) {
        return Err(BlockpolyError::GameNotStarted);
    }
    if space_index != property.space_index {
        return Err(BlockpolyError::InvalidSpaceIndex);
    }
    if property.owner != player.wallet {
        return Err(BlockpolyError::NotPropertyOwner);
    }
    if property.is_mortgaged {
        return Err(BlockpolyError::PropertyMortgaged);
    }
    if property.has_buildings() {
        return Err(BlockpolyError::CannotMortgageWithBuildings);
    }

    let space = space_at(space_index);
    let mortgage_value = space.mortgage_value;
    player.bpoly_balance = sat_add(player.bpoly_balance, mortgage_value);
    property.is_mortgaged = true;
    Ok(mortgage_value)
}

/// Lift a mortgage against repayment of the mortgage value plus a
/// tenth interest.  The returned cost moves from the player to the
/// bank.
pub fn unmortgage_property(
    player: &mut PlayerState, property: &mut PropertyState, space_index: u8,
) -> (r: Result<u64, BlockpolyError>)
    requires
        old(player).wf(),
        old(property).wf(),
    ensures
        final(player).wf(),
        final(property).wf(),
        r is Err ==> *final(player) == *old(player) && *final(property) == *old(property),
        ({
            let value = spec_space(space_index as int).mortgage_value;
            let cost = (value + value / 10) as u64;
            &&& (space_index != old(property).space_index
                ==> r == Err::<u64, _>(BlockpolyError::InvalidSpaceIndex))
            &&& (space_index == old(property).space_index
                && old(property).owner != old(player).wallet
                ==> r == Err::<u64, _>(BlockpolyError::NotPropertyOwner))
            &&& (space_index == old(property).space_index
                && old(property).owner == old(player).wallet
                && !old(property).is_mortgaged
                ==> r == Err::<u64, _>(BlockpolyError::WrongTurnPhase))
            &&& (space_index == old(property).space_index
                && old(property).owner == old(player).wallet
                && old(property).is_mortgaged
                && old(player).bpoly_balance < cost
                ==> r == Err::<u64, _>(BlockpolyError::CannotUnmortgage))
            &&& (space_index == old(property).space_index
                && old(property).owner == old(player).wallet
                && old(property).is_mortgaged
                && old(player).bpoly_balance >= cost ==> {
                &&& r == Ok::<u64, BlockpolyError>(cost)
                &&& *final(player) == (PlayerState {
                    bpoly_balance: (old(player).bpoly_balance - cost) as u64,
                    ..*old(player)
                })
                &&& *final(property) == (PropertyState {
                    is_mortgaged: false,
                    ..*old(property)
                })
            })
        }),
{
    if space_index != property.space_index {
        return Err(BlockpolyError::InvalidSpaceIndex);
    }
    if property.owner != player.wallet {
        return Err(BlockpolyError::NotPropertyOwner);
    }
    if !property.is_mortgaged {
        return Err(BlockpolyError::WrongTurnPhase);
    }
    let space = space_at(space_index);
    proof {
        assert(spec_space(space_index as int).mortgage_value <= 200_000_000);
    }
    let unmortgage_cost = space.mortgage_value + space.mortgage_value / 10;
    if player.bpoly_balance < unmortgage_cost {
        return Err(BlockpolyError::CannotUnmortgage);
    }
    player.bpoly_balance = player.bpoly_balance - unmortgage_cost;
    property.is_mortgaged = false;
    Ok(unmortgage_cost)
}

} // verus!
