//! The buy decision: purchasing the landed-on space, or declining it
//! and opening the fallback auction.

use vstd::prelude::*;
use crate::board::{spec_space, space_at};
use crate::errors::BlockpolyError;
use crate::game::{GameState, GameStatus, TurnPhase, AUCTION_DURATION_TURNS};
use crate::player::PlayerState;
use crate::property::PropertyState;

verus! {

/// Buy the space the current player stands on at list price.  The
/// returned record is the new ownership record the host persists; the
/// price moves from the player to the bank.
pub fn buy_property(
    game: &mut GameState, player: &mut PlayerState, space_index: u8, nft_asset: u64,
) -> (r: Result<PropertyState, BlockpolyError>)
    requires
        old(game).wf(),
        old(player).wf(),
        old(game).turn_number < u32::MAX,
        old(game).round_number < u32::MAX,
    ensures
        final(game).wf(),
        final(player).wf(),
        r is Err ==> *final(game) == *old(game) && *final(player) == *old(player),
        !(old(game).status is InProgress)
            ==> r == Err::<PropertyState, _>(BlockpolyError::GameNotStarted),
        old(game).status is InProgress && !(old(game).turn_phase is BuyDecision)
            ==> r == Err::<PropertyState, _>(BlockpolyError::WrongTurnPhase),
        old(game).status is InProgress && old(game).turn_phase is BuyDecision
            && old(game).current_player_index != old(player).player_index
            ==> r == Err::<PropertyState, _>(BlockpolyError::NotYourTurn),
        ({
            let valid = old(game).status is InProgress
                && old(game).turn_phase is BuyDecision
                && old(game).current_player_index == old(player).player_index;
            let space = spec_space(space_index as int);
            &&& (valid && space_index != old(player).position
                ==> r == Err::<PropertyState, _>(BlockpolyError::InvalidSpaceIndex))
            &&& (valid && space_index == old(player).position
                && !space.spec_is_purchasable()
                ==> r == Err::<PropertyState, _>(BlockpolyError::PropertyNotAvailable))
            &&& (valid && space_index == old(player).position
                && space.spec_is_purchasable()
                && old(player).properties_owned@.contains(space_index)
                ==> r == Err::<PropertyState, _>(BlockpolyError::PropertyAlreadyOwned))
            &&& (valid && space_index == old(player).position
                && space.spec_is_purchasable()
                && !old(player).properties_owned@.contains(space_index)
                && old(player).bpoly_balance < space.price
                ==> r == Err::<PropertyState, _>(BlockpolyError::InsufficientBalance))
            &&& (valid && space_index == old(player).position
                && space.spec_is_purchasable()
                && !old(player).properties_owned@.contains(space_index)
                && old(player).bpoly_balance >= space.price ==> {
                &&& r == Ok::<_, BlockpolyError>(PropertyState::spec_new(
                    space_index, old(player).wallet, nft_asset,
                ))
                &&& *final(player) == (PlayerState {
                    bpoly_balance: (old(player).bpoly_balance - space.price) as u64,
                    properties_owned: final(player).properties_owned,
                    ..*old(player)
                })
                &&& final(player).properties_owned@
                    == old(player).properties_owned@.push(space_index)
                &&& *final(game) == old(game).spec_advanced()
            })
        }),
{
    if !matches!(game.status, GameStatus::InProgress) {
        return Err(BlockpolyError::GameNotStarted);
    }
    if !matches!(game.turn_phase, TurnPhase::BuyDecision) {
        return Err(BlockpolyError::WrongTurnPhase);
    }
    if game.current_player_index != player.player_index {
        return Err(BlockpolyError::NotYourTurn);
    }
    if space_index != player.position {
        return Err(BlockpolyError::InvalidSpaceIndex);
    }
    let space = space_at(space_index);
    if !space.is_purchasable() {
        return Err(BlockpolyError::PropertyNotAvailable);
    }
    if player.owns_property(space_index) {
        return Err(BlockpolyError::PropertyAlreadyOwned);
    }
    let price = space.price;
    if player.bpoly_balance < price {
        return Err(BlockpolyError::InsufficientBalance);
    }

    player.bpoly_balance = player.bpoly_balance - price;
    player.add_property(space_index);
    game.advance_turn();

    Ok(PropertyState {
        space_index,
        owner: player.wallet,
        liquidity_pools: 0,
        is_full_protocol: false,
        is_mortgaged: false,
        nft_asset,
    })
}

/// Decline the purchase: open an auction on the space with a starting
/// bid of a tenth of the list price, running a fixed number of turns.
/// The starting bid is returned.
pub fn decline_buy(game: &mut GameState, player: &PlayerState)
    -> (r: Result<u64, BlockpolyError>)
    requires
        old(game).wf(),
        player.wf(),
        old(game).turn_number + AUCTION_DURATION_TURNS <= u32::MAX,
    ensures
        final(game).wf(),
        r is Err ==> *final(game) == *old(game),
        !(old(game).status is InProgress)
            ==> r == Err::<u64, _>(BlockpolyError::GameNotStarted),
        old(game).status is InProgress && !(old(game).turn_phase is BuyDecision)
            ==> r == Err::<u64, _>(BlockpolyError::WrongTurnPhase),
        old(game).status is InProgress && old(game).turn_phase is BuyDecision
            && old(game).current_player_index != player.player_index
            ==> r == Err::<u64, _>(BlockpolyError::NotYourTurn),
        ({
            let valid = old(game).status is InProgress
                && old(game).turn_phase is BuyDecision
                && old(game).current_player_index == player.player_index;
            let space = spec_space(player.position as int);
            &&& (valid && !space.spec_is_purchasable()
                ==> r == Err::<u64, _>(BlockpolyError::PropertyNotAvailable))
            &&& (valid && space.spec_is_purchasable() ==> {
                &&& r == Ok::<u64, BlockpolyError>(space.price / 10)
                &&& *final(game) == (GameState {
                    auction_space: Some(player.position),
                    auction_highest_bid: space.price / 10,
                    auction_highest_bidder: None,
                    auction_end_turn: (old(game).turn_number + AUCTION_DURATION_TURNS) as u32,
                    turn_phase: TurnPhase::AuctionPhase,
                    ..*old(game)
                })
            })
        }),
{
    if !matches!(game.status, GameStatus::InProgress) {
        return Err(BlockpolyError::GameNotStarted);
    }
    if !matches!(game.turn_phase, TurnPhase::BuyDecision) {
        return Err(BlockpolyError::WrongTurnPhase);
    }
    if game.current_player_index != player.player_index {
        return Err(BlockpolyError::NotYourTurn);
    }
    let space = space_at(player.position);
    if !space.is_purchasable() {
        return Err(BlockpolyError::PropertyNotAvailable);
    }

    let starting_bid = space.price / 10;
    game.auction_space = Some(player.position);
    game.auction_highest_bid = starting_bid;
    game.auction_highest_bidder = None;
    game.auction_end_turn = game.turn_number + AUCTION_DURATION_TURNS;
    game.turn_phase = TurnPhase::AuctionPhase;

    Ok(starting_bid)
}

} // verus!
