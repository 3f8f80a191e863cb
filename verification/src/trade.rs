//! The trade protocol: propose, accept (an atomic four-part swap of
//! currency, properties and jail-free cards), and reject.  Acceptance
//! is all-or-nothing: every validation runs before the first mutation,
//! so an error leaves both players exactly as they were.

use vstd::prelude::*;
use crate::board::BOARD_SIZE;
use crate::errors::BlockpolyError;
use crate::game::{spec_sat_add, sat_add, GameState, GameStatus};
use crate::player::PlayerState;
use crate::trade_offer::TradeOffer;

verus! {

/// The player holds every space listed.
pub open spec fn spec_owns_all(p: PlayerState, spaces: Seq<u8>) -> bool {
    forall|i: int| 0 <= i < spaces.len()
        ==> p.properties_owned@.contains(#[trigger] spaces[i])
}

fn owns_all(p: &PlayerState, spaces: &Vec<u8>) -> (b: bool)
    ensures b == spec_owns_all(*p, spaces@),
{
    let n = spaces.len();
    let mut i: usize = 0;
    while i < n
        invariant
            n == spaces@.len(),
            i <= n,
            forall|j: int| 0 <= j < i ==> p.properties_owned@.contains(#[trigger] spaces@[j]),
        decreases n - i,
    {
        if !p.owns_property(spaces[i]) {
            return false;
        }
        i = i + 1;
    }
    true
}

/// Every listed space index is on the board.
pub open spec fn spec_all_on_board(spaces: Seq<u8>) -> bool {
    forall|i: int| 0 <= i < spaces.len() ==> #[trigger] spaces[i] < BOARD_SIZE
}

fn all_on_board(spaces: &Vec<u8>) -> (b: bool)
    ensures b == spec_all_on_board(spaces@),
{
    let n = spaces.len();
    let mut i: usize = 0;
    while i < n
        invariant
            n == spaces@.len(),
            i <= n,
            forall|j: int| 0 <= j < i ==> #[trigger] spaces@[j] < BOARD_SIZE,
        decreases n - i,
    {
        if spaces[i] >= BOARD_SIZE {
            return false;
        }
        i = i + 1;
    }
    true
}

/// A holding set after giving away each listed space, one after the
/// other (a space not held is skipped).
pub open spec fn spec_remove_all(s: Seq<u8>, xs: Seq<u8>, i: int) -> Seq<u8>
    decreases xs.len() - i,
{
    if i < 0 || i >= xs.len() {
        s
    } else {
        spec_remove_all(s.remove_value(xs[i]), xs, i + 1)
    }
}

/// A holding set after receiving each listed space, one after the
/// other (a space already held is not added again).
pub open spec fn spec_add_all(s: Seq<u8>, xs: Seq<u8>, i: int) -> Seq<u8>
    decreases xs.len() - i,
{
    if i < 0 || i >= xs.len() {
        s
    } else {
        let s2 = if s.contains(xs[i]) { s } else { s.push(xs[i]) };
        spec_add_all(s2, xs, i + 1)
    }
}

/// Create an offer.  The proposer must be a live participant holding
/// everything offered; the recipient must be another current
/// participant.  The offer lapses ten turns out.
pub fn propose_trade(
    game: &GameState, proposer_state: &PlayerState, recipient: u64,
    offered_properties: Vec<u8>, offered_bpoly: u64,
    requested_properties: Vec<u8>, requested_bpoly: u64,
    offered_jail_free: bool, requested_jail_free: bool,
) -> (r: Result<TradeOffer, BlockpolyError>)
    requires
        game.wf(),
        proposer_state.wf(),
        game.turn_number + 10 <= u32::MAX,
    ensures
        !(game.status is InProgress)
            ==> r == Err::<TradeOffer, _>(BlockpolyError::GameNotStarted),
        game.status is InProgress && proposer_state.is_bankrupt
            ==> r == Err::<TradeOffer, _>(BlockpolyError::PlayerBankrupt),
        game.status is InProgress && !proposer_state.is_bankrupt
            && !game.players@.contains(recipient)
            ==> r == Err::<TradeOffer, _>(BlockpolyError::RecipientNotInGame),
        game.status is InProgress && !proposer_state.is_bankrupt
            && game.players@.contains(recipient)
            && recipient == proposer_state.wallet
            ==> r == Err::<TradeOffer, _>(BlockpolyError::InvalidTradeOffer),
        ({
            let valid = game.status is InProgress && !proposer_state.is_bankrupt
                && game.players@.contains(recipient)
                && recipient != proposer_state.wallet;
            &&& (valid && !spec_owns_all(*proposer_state, offered_properties@)
                ==> r == Err::<TradeOffer, _>(BlockpolyError::NotPropertyOwner))
            &&& (valid && spec_owns_all(*proposer_state, offered_properties@)
                && !spec_all_on_board(requested_properties@)
                ==> r == Err::<TradeOffer, _>(BlockpolyError::InvalidSpaceIndex))
            &&& (valid && spec_owns_all(*proposer_state, offered_properties@)
                && spec_all_on_board(requested_properties@)
                && offered_jail_free && !proposer_state.has_jail_free_card
                ==> r == Err::<TradeOffer, _>(BlockpolyError::InvalidTradeOffer))
            &&& (valid && spec_owns_all(*proposer_state, offered_properties@)
                && spec_all_on_board(requested_properties@)
                && (offered_jail_free ==> proposer_state.has_jail_free_card)
                ==> (r matches Ok(t) && {
                    &&& t.wf()
                    &&& t.proposer == proposer_state.wallet
                    &&& t.recipient == recipient
                    &&& t.offered_properties@ == offered_properties@
                    &&& t.offered_bpoly == offered_bpoly
                    &&& t.requested_properties@ == requested_properties@
                    &&& t.requested_bpoly == requested_bpoly
                    &&& t.expires_turn == game.turn_number + 10
                    &&& t.offered_jail_free == offered_jail_free
                    &&& t.requested_jail_free == requested_jail_free
                }))
        }),
{
    if !matches!(game.status, GameStatus::InProgress) {
        return Err(BlockpolyError::GameNotStarted);
    }
    if proposer_state.is_bankrupt {
        return Err(BlockpolyError::PlayerBankrupt);
    }
    if !game.player_listed(recipient) {
        return Err(BlockpolyError::RecipientNotInGame);
    }
    if recipient == proposer_state.wallet {
        return Err(BlockpolyError::InvalidTradeOffer);
    }
    if !owns_all(proposer_state, &offered_properties) {
        return Err(BlockpolyError::NotPropertyOwner);
    }
    if !all_on_board(&requested_properties) {
        return Err(BlockpolyError::InvalidSpaceIndex);
    }
    if offered_jail_free && !proposer_state.has_jail_free_card {
        return Err(BlockpolyError::InvalidTradeOffer);
    }

    Ok(TradeOffer {
        proposer: proposer_state.wallet,
        recipient,
        offered_properties,
        offered_bpoly,
        requested_properties,
        requested_bpoly,
        expires_turn: game.turn_number + 10,
        offered_jail_free,
        requested_jail_free,
    })
}

/// Accept an offer: an atomic four-part effect.  Currency moves both
/// ways (the host executes the two ledger legs for the returned
/// amounts), every listed property changes hands, and jail-free cards
/// move as listed.  Any failed validation leaves both players
/// untouched.
pub fn accept_trade(
    game: &GameState, proposer_state: &mut PlayerState, recipient_state: &mut PlayerState,
    trade: &TradeOffer,
) -> (r: Result<(u64, u64), BlockpolyError>)
    requires
        game.wf(),
        old(proposer_state).wf(),
        old(recipient_state).wf(),
        trade.wf(),
    ensures
        final(proposer_state).wf(),
        final(recipient_state).wf(),
        r is Err ==> *final(proposer_state) == *old(proposer_state)
            && *final(recipient_state) == *old(recipient_state),
        !(game.status is InProgress)
            ==> r == Err::<(u64, u64), _>(BlockpolyError::GameNotStarted),
        game.status is InProgress
            && (old(proposer_state).wallet != trade.proposer
                || old(recipient_state).wallet != trade.recipient)
            ==> r == Err::<(u64, u64), _>(BlockpolyError::InvalidTradeOffer),
        game.status is InProgress
            && old(proposer_state).wallet == trade.proposer
            && old(recipient_state).wallet == trade.recipient
            && game.turn_number > trade.expires_turn
            ==> r == Err::<(u64, u64), _>(BlockpolyError::TradeExpired),
        ({
            let live = game.status is InProgress
                && old(proposer_state).wallet == trade.proposer
                && old(recipient_state).wallet == trade.recipient
                && game.turn_number <= trade.expires_turn;
            let p = *old(proposer_state);
            let q = *old(recipient_state);
            let funded = p.bpoly_balance >= trade.offered_bpoly
                && q.bpoly_balance >= trade.requested_bpoly;
            let stocked = spec_owns_all(p, trade.offered_properties@)
                && spec_owns_all(q, trade.requested_properties@);
            let carded = (trade.offered_jail_free ==> p.has_jail_free_card)
                && (trade.requested_jail_free ==> q.has_jail_free_card);
            &&& (live && !funded
                ==> r == Err::<(u64, u64), _>(BlockpolyError::InsufficientBalance))
            &&& (live && funded && !stocked
                ==> r == Err::<(u64, u64), _>(BlockpolyError::InvalidTradeOffer))
            &&& (live && funded && stocked && !carded
                ==> r == Err::<(u64, u64), _>(BlockpolyError::NoJailFreeCard))
            &&& (live && funded && stocked && carded ==> {
                &&& r == Ok::<(u64, u64), BlockpolyError>((
                    trade.offered_bpoly, trade.requested_bpoly,
                ))
                &&& final(proposer_state).bpoly_balance == spec_sat_add(
                    (p.bpoly_balance - trade.offered_bpoly) as u64, trade.requested_bpoly)
                &&& final(recipient_state).bpoly_balance == spec_sat_add(
                    (q.bpoly_balance - trade.requested_bpoly) as u64, trade.offered_bpoly)
                &&& final(proposer_state).properties_owned@ == spec_add_all(
                    spec_remove_all(p.properties_owned@, trade.offered_properties@, 0),
                    trade.requested_properties@, 0)
                &&& final(recipient_state).properties_owned@ == spec_remove_all(
                    spec_add_all(q.properties_owned@, trade.offered_properties@, 0),
                    trade.requested_properties@, 0)
                &&& (trade.offered_jail_free && trade.requested_jail_free ==> {
                    &&& final(proposer_state).has_jail_free_card
                    &&& final(proposer_state).jail_free_card_type == q.jail_free_card_type
                    &&& final(recipient_state).has_jail_free_card
                    &&& final(recipient_state).jail_free_card_type == p.jail_free_card_type
                })
                &&& (trade.offered_jail_free && !trade.requested_jail_free ==> {
                    &&& !final(proposer_state).has_jail_free_card
                    &&& final(proposer_state).jail_free_card_type == 0
                    &&& final(recipient_state).has_jail_free_card
                    &&& final(recipient_state).jail_free_card_type == p.jail_free_card_type
                })
                &&& (!trade.offered_jail_free && trade.requested_jail_free ==> {
                    &&& final(proposer_state).has_jail_free_card
                    &&& final(proposer_state).jail_free_card_type == q.jail_free_card_type
                    &&& !final(recipient_state).has_jail_free_card
                    &&& final(recipient_state).jail_free_card_type == 0
                })
                &&& (!trade.offered_jail_free && !trade.requested_jail_free ==> {
                    &&& final(proposer_state).has_jail_free_card == p.has_jail_free_card
                    &&& final(proposer_state).jail_free_card_type == p.jail_free_card_type
                    &&& final(recipient_state).has_jail_free_card == q.has_jail_free_card
                    &&& final(recipient_state).jail_free_card_type == q.jail_free_card_type
                })
                &&& *final(proposer_state) == (PlayerState {
                    bpoly_balance: final(proposer_state).bpoly_balance,
                    properties_owned: final(proposer_state).properties_owned,
                    has_jail_free_card: final(proposer_state).has_jail_free_card,
                    jail_free_card_type: final(proposer_state).jail_free_card_type,
                    ..p
                })
                &&& *final(recipient_state) == (PlayerState {
                    bpoly_balance: final(recipient_state).bpoly_balance,
                    properties_owned: final(recipient_state).properties_owned,
                    has_jail_free_card: final(recipient_state).has_jail_free_card,
                    jail_free_card_type: final(recipient_state).jail_free_card_type,
                    ..q
                })
            })
        }),
{
    if !matches!(game.status, GameStatus::InProgress) {
        return Err(BlockpolyError::GameNotStarted);
    }
    if proposer_state.wallet != trade.proposer || recipient_state.wallet != trade.recipient {
        return Err(BlockpolyError::InvalidTradeOffer);
    }
    if game.turn_number > trade.expires_turn {
        return Err(BlockpolyError::TradeExpired);
    }
    if proposer_state.bpoly_balance < trade.offered_bpoly
        || recipient_state.bpoly_balance < trade.requested_bpoly {
        return Err(BlockpolyError::InsufficientBalance);
    }
    if !owns_all(proposer_state, &trade.offered_properties)
        || !owns_all(recipient_state, &trade.requested_properties) {
        return Err(BlockpolyError::InvalidTradeOffer);
    }
    if (trade.offered_jail_free && !proposer_state.has_jail_free_card)
        || (trade.requested_jail_free && !recipient_state.has_jail_free_card) {
        return Err(BlockpolyError::NoJailFreeCard);
    }

    // Currency legs (mirrors; the host executes the ledger transfers).
    proposer_state.bpoly_balance = sat_add(
        proposer_state.bpoly_balance - trade.offered_bpoly, trade.requested_bpoly);
    recipient_state.bpoly_balance = sat_add(
        recipient_state.bpoly_balance - trade.requested_bpoly, trade.offered_bpoly);

    // Property legs.
    let n_off = trade.offered_properties.len();
    let mut i: usize = 0;
    while i < n_off
        invariant
            n_off == trade.offered_properties@.len(),
            i <= n_off,
            trade.wf(),
            proposer_state.wf(),
            recipient_state.wf(),
            spec_remove_all(old(proposer_state).properties_owned@,
                trade.offered_properties@, 0)
                == spec_remove_all(proposer_state.properties_owned@,
                    trade.offered_properties@, i as int),
            spec_add_all(old(recipient_state).properties_owned@,
                trade.offered_properties@, 0)
                == spec_add_all(recipient_state.properties_owned@,
                    trade.offered_properties@, i as int),
            *proposer_state == (PlayerState {
                properties_owned: proposer_state.properties_owned,
                bpoly_balance: proposer_state.bpoly_balance,
                ..*old(proposer_state)
            }),
            *recipient_state == (PlayerState {
                properties_owned: recipient_state.properties_owned,
                bpoly_balance: recipient_state.bpoly_balance,
                ..*old(recipient_state)
            }),
            proposer_state.bpoly_balance == spec_sat_add(
                (old(proposer_state).bpoly_balance - trade.offered_bpoly) as u64,
                trade.requested_bpoly),
            recipient_state.bpoly_balance == spec_sat_add(
                (old(recipient_state).bpoly_balance - trade.requested_bpoly) as u64,
                trade.offered_bpoly),
        decreases n_off - i,
    {
        let space = trade.offered_properties[i];
        proposer_state.remove_property(space);
        recipient_state.add_property(space);
        i = i + 1;
    }
    let n_req = trade.requested_properties.len();
    let mut k: usize = 0;
    while k < n_req
        invariant
            n_req == trade.requested_properties@.len(),
            k <= n_req,
            trade.wf(),
            proposer_state.wf(),
            recipient_state.wf(),
            spec_add_all(spec_remove_all(old(proposer_state).properties_owned@,
                trade.offered_properties@, 0), trade.requested_properties@, 0)
                == spec_add_all(proposer_state.properties_owned@,
                    trade.requested_properties@, k as int),
            spec_remove_all(spec_add_all(old(recipient_state).properties_owned@,
                trade.offered_properties@, 0), trade.requested_properties@, 0)
                == spec_remove_all(recipient_state.properties_owned@,
                    trade.requested_properties@, k as int),
            *proposer_state == (PlayerState {
                properties_owned: proposer_state.properties_owned,
                bpoly_balance: proposer_state.bpoly_balance,
                ..*old(proposer_state)
            }),
            *recipient_state == (PlayerState {
                properties_owned: recipient_state.properties_owned,
                bpoly_balance: recipient_state.bpoly_balance,
                ..*old(recipient_state)
            }),
            proposer_state.bpoly_balance == spec_sat_add(
                (old(proposer_state).bpoly_balance - trade.offered_bpoly) as u64,
                trade.requested_bpoly),
            recipient_state.bpoly_balance == spec_sat_add(
                (old(recipient_state).bpoly_balance - trade.requested_bpoly) as u64,
                trade.offered_bpoly),
        decreases n_req - k,
    {
        let space = trade.requested_properties[k];
        recipient_state.remove_property(space);
        proposer_state.add_property(space);
        k = k + 1;
    }

    // Jail-free-card legs: listed cards change hands, keeping their
    // origin-deck tag with them.
    let p_type = proposer_state.jail_free_card_type;
    let q_type = recipient_state.jail_free_card_type;
    if trade.offered_jail_free && trade.requested_jail_free {
        proposer_state.jail_free_card_type = q_type;
        recipient_state.jail_free_card_type = p_type;
    } else if trade.offered_jail_free {
        proposer_state.has_jail_free_card = false;
        proposer_state.jail_free_card_type = 0;
        recipient_state.has_jail_free_card = true;
        recipient_state.jail_free_card_type = p_type;
    } else if trade.requested_jail_free {
        recipient_state.has_jail_free_card = false;
        recipient_state.jail_free_card_type = 0;
        proposer_state.has_jail_free_card = true;
        proposer_state.jail_free_card_type = q_type;
    }

    Ok((trade.offered_bpoly, trade.requested_bpoly))
}

/// Reject an offer: a validated no-op; the host releases the offer.
pub fn reject_trade(recipient: u64, trade: &TradeOffer) -> (r: Result<(), BlockpolyError>)
    ensures
        recipient != trade.recipient
            ==> r == Err::<(), _>(BlockpolyError::InvalidTradeOffer),
        recipient == trade.recipient ==> r is Ok,
{
    if recipient != trade.recipient {
        return Err(BlockpolyError::InvalidTradeOffer);
    }
    Ok(())
}

} // verus!
