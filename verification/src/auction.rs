//! The ascending-bid auction over a declined space.  A bid must beat
//! the current highest and pushes the deadline out; once the deadline
//! turn has passed, the next call finalizes instead: the recorded
//! highest bidder pays their bid to the bank and takes the space, or
//! the space stays bank-owned if nobody bid.

use vstd::prelude::*;
use crate::errors::BlockpolyError;
use crate::game::{GameState, GameStatus, TurnPhase, AUCTION_DURATION_TURNS};
use crate::player::PlayerState;
use crate::property::PropertyState;

verus! {

/// What an auction call did.
#[derive(Clone, Copy, Debug)]
pub enum AuctionOutcome {
    /// The bid became the new highest; the deadline was pushed out.
    BidAccepted,
    /// The auction was past its deadline and was finalized instead.
    /// `Some((record, amount))`: the winner's new ownership record and
    /// the amount the winner pays the bank; `None`: nobody had bid.
    Finalized(Option<(PropertyState, u64)>),
}

/// The finalize cases, shared between the explicit finalize and a bid
/// arriving past the deadline.  `winner_state` must be the record of
/// the recorded highest bidder, when there is one.
pub open spec fn spec_finalize_ensures(
    g: GameState, g2: GameState, w: PlayerState, w2: PlayerState, nft_asset: u64,
    r: Result<Option<(PropertyState, u64)>, BlockpolyError>,
) -> bool {
    &&& (g.auction_highest_bidder is None ==> {
        &&& r == Ok::<Option<(PropertyState, u64)>, BlockpolyError>(None)
        &&& w2 == w
        &&& g2 == (GameState {
            auction_space: None,
            auction_highest_bid: 0,
            auction_highest_bidder: None,
            auction_end_turn: 0,
            ..g
        }).spec_advanced()
    })
    &&& (match g.auction_highest_bidder {
        None => true,
        Some(bidder) => {
            &&& (bidder != w.wallet
                ==> r == Err::<Option<(PropertyState, u64)>, _>(BlockpolyError::NotYourTurn)
                    && g2 == g && w2 == w)
            &&& (bidder == w.wallet && w.bpoly_balance < g.auction_highest_bid
                ==> r == Err::<Option<(PropertyState, u64)>, _>(
                    BlockpolyError::InsufficientBalance,
                ) && g2 == g && w2 == w)
            &&& (bidder == w.wallet && w.bpoly_balance >= g.auction_highest_bid
                ==> match g.auction_space {
                None => true,
                Some(space) => {
                    &&& r == Ok::<Option<(PropertyState, u64)>, BlockpolyError>(Some((
                        PropertyState::spec_new(space, bidder, nft_asset),
                        g.auction_highest_bid,
                    )))
                    &&& w2 == (PlayerState {
                        bpoly_balance: (w.bpoly_balance - g.auction_highest_bid) as u64,
                        properties_owned: w2.properties_owned,
                        ..w
                    })
                    &&& w2.properties_owned@ == if w.properties_owned@.contains(space) {
                        w.properties_owned@
                    } else {
                        w.properties_owned@.push(space)
                    }
                    &&& g2 == (GameState {
                        auction_space: None,
                        auction_highest_bid: 0,
                        auction_highest_bidder: None,
                        auction_end_turn: 0,
                        ..g
                    }).spec_advanced()
                },
            })
        },
    })
}

/// Close the running auction, allowed only once the deadline turn has
/// passed: award the space to the recorded highest bidder (whose
/// record must be supplied) against payment of the bid, clear every
/// auction field, and pass the turn.
pub fn finalize_auction(
    game: &mut GameState, winner_state: &mut PlayerState, nft_asset: u64,
) -> (r: Result<Option<(PropertyState, u64)>, BlockpolyError>)
    requires
        old(game).wf(),
        old(winner_state).wf(),
        old(game).turn_number < u32::MAX,
        old(game).round_number < u32::MAX,
    ensures
        final(game).wf(),
        final(winner_state).wf(),
        r is Err ==> *final(game) == *old(game) && *final(winner_state) == *old(winner_state),
        !(old(game).status is InProgress)
            ==> r == Err::<Option<(PropertyState, u64)>, _>(BlockpolyError::GameNotStarted),
        old(game).status is InProgress && old(game).auction_space is None
            ==> r == Err::<Option<(PropertyState, u64)>, _>(BlockpolyError::AuctionNotActive),
        old(game).status is InProgress && old(game).auction_space is Some
            && old(game).turn_number <= old(game).auction_end_turn
            ==> r == Err::<Option<(PropertyState, u64)>, _>(BlockpolyError::WrongTurnPhase),
        old(game).status is InProgress && old(game).auction_space is Some
            && old(game).turn_number > old(game).auction_end_turn
            ==> spec_finalize_ensures(
                *old(game), *final(game), *old(winner_state), *final(winner_state),
                nft_asset, r,
            ),
{
    if !matches!(game.status, GameStatus::InProgress) {
        return Err(BlockpolyError::GameNotStarted);
    }
    let space = match game.auction_space {
        Some(s) => s,
        None => {
            return Err(BlockpolyError::AuctionNotActive);
        },
    };
    if game.turn_number <= game.auction_end_turn {
        return Err(BlockpolyError::WrongTurnPhase);
    }

    let awarded: Option<(PropertyState, u64)> = match game.auction_highest_bidder {
        Some(bidder) => {
            if bidder != winner_state.wallet {
                return Err(BlockpolyError::NotYourTurn);
            }
            let amount = game.auction_highest_bid;
            if winner_state.bpoly_balance < amount {
                return Err(BlockpolyError::InsufficientBalance);
            }
            winner_state.bpoly_balance = winner_state.bpoly_balance - amount;
            winner_state.add_property(space);
            Some((
                PropertyState {
                    space_index: space,
                    owner: bidder,
                    liquidity_pools: 0,
                    is_full_protocol: false,
                    is_mortgaged: false,
                    nft_asset,
                },
                amount,
            ))
        },
        None => None,
    };

    game.auction_space = None;
    game.auction_highest_bid = 0;
    game.auction_highest_bidder = None;
    game.auction_end_turn = 0;
    game.turn_phase = TurnPhase::RollDice;
    game.advance_turn();

    Ok(awarded)
}

/// Place a bid, or — when the deadline turn has already passed —
/// finalize the auction instead (the caller's record then has to be
/// the recorded highest bidder's, if any).
pub fn auction_bid(
    game: &mut GameState, bidder_state: &mut PlayerState, space_index: u8,
    bid_amount: u64, nft_asset: u64,
) -> (r: Result<AuctionOutcome, BlockpolyError>)
    requires
        old(game).wf(),
        old(bidder_state).wf(),
        old(game).turn_number + AUCTION_DURATION_TURNS <= u32::MAX,
        old(game).round_number < u32::MAX,
    ensures
        final(game).wf(),
        final(bidder_state).wf(),
        r is Err ==> *final(game) == *old(game) && *final(bidder_state) == *old(bidder_state),
        !(old(game).status is InProgress)
            ==> r == Err::<AuctionOutcome, _>(BlockpolyError::GameNotStarted),
        old(game).status is InProgress && !(old(game).turn_phase is AuctionPhase)
            ==> r == Err::<AuctionOutcome, _>(BlockpolyError::AuctionNotActive),
        old(game).status is InProgress && old(game).turn_phase is AuctionPhase
            && old(game).auction_space != Some(space_index)
            ==> r == Err::<AuctionOutcome, _>(BlockpolyError::AuctionNotActive),
        ({
            let valid = old(game).status is InProgress
                && old(game).turn_phase is AuctionPhase
                && old(game).auction_space == Some(space_index);
            let expired = old(game).turn_number > old(game).auction_end_turn;
            &&& (valid && old(bidder_state).is_bankrupt
                ==> r == Err::<AuctionOutcome, _>(BlockpolyError::PlayerBankrupt))
            &&& (valid && !old(bidder_state).is_bankrupt && expired ==> {
                &&& (r matches Ok(o) ==> o matches AuctionOutcome::Finalized(_))
                &&& spec_finalize_ensures(
                    *old(game), *final(game), *old(bidder_state), *final(bidder_state),
                    nft_asset,
                    match r {
                        Ok(AuctionOutcome::Finalized(a)) => Ok(a),
                        Ok(AuctionOutcome::BidAccepted) => Ok(None),
                        Err(e) => Err(e),
                    },
                )
            })
            &&& (valid && !old(bidder_state).is_bankrupt && !expired
                && bid_amount <= old(game).auction_highest_bid
                ==> r == Err::<AuctionOutcome, _>(BlockpolyError::BidTooLow))
            &&& (valid && !old(bidder_state).is_bankrupt && !expired
                && bid_amount > old(game).auction_highest_bid ==> {
                &&& r == Ok::<_, BlockpolyError>(AuctionOutcome::BidAccepted)
                &&& *final(bidder_state) == *old(bidder_state)
                &&& *final(game) == (GameState {
                    auction_highest_bid: bid_amount,
                    auction_highest_bidder: Some(old(bidder_state).wallet),
                    auction_end_turn: (old(game).turn_number + AUCTION_DURATION_TURNS) as u32,
                    ..*old(game)
                })
            })
        }),
{
    if !matches!(game.status, GameStatus::InProgress) {
        return Err(BlockpolyError::GameNotStarted);
    }
    if !matches!(game.turn_phase, TurnPhase::AuctionPhase) {
        return Err(BlockpolyError::AuctionNotActive);
    }
    let active = match game.auction_space {
        Some(s) => s == space_index,
        None => false,
    };
    if !active {
        return Err(BlockpolyError::AuctionNotActive);
    }
    if bidder_state.is_bankrupt {
        return Err(BlockpolyError::PlayerBankrupt);
    }

    if game.turn_number > game.auction_end_turn {
        let settled = finalize_auction(game, bidder_state, nft_asset)?;
        return Ok(AuctionOutcome::Finalized(settled));
    }

    if bid_amount <= game.auction_highest_bid {
        return Err(BlockpolyError::BidTooLow);
    }
    game.auction_highest_bid = bid_amount;
    game.auction_highest_bidder = Some(bidder_state.wallet);
    game.auction_end_turn = game.turn_number + AUCTION_DURATION_TURNS;
    Ok(AuctionOutcome::BidAccepted)
}

} // verus!
