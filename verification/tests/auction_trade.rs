use blockpoly::auction::{auction_bid, finalize_auction, AuctionOutcome};
use blockpoly::buying::decline_buy;
use blockpoly::errors::BlockpolyError;
use blockpoly::game::{GameState, TurnPhase};
use blockpoly::lifecycle::{initialize_game, join_game, start_game};
use blockpoly::player::PlayerState;
use blockpoly::trade::{accept_trade, propose_trade, reject_trade};

fn fresh() -> (GameState, PlayerState, PlayerState) {
    let mut g = initialize_game(7, 100, 4, 0).unwrap();
    let a = join_game(&mut g, 201).unwrap();
    let b = join_game(&mut g, 202).unwrap();
    start_game(&mut g, 100, &(0u8..32).collect::<Vec<u8>>()).unwrap();
    (g, a, b)
}

#[test]
fn decline_opens_auction_at_tenth_of_price() {
    let (mut g, mut a, _b) = fresh();
    a.position = 39;
    g.turn_phase = TurnPhase::BuyDecision;
    let starting = decline_buy(&mut g, &a).unwrap();
    assert_eq!(starting, 40_000_000);
    assert_eq!(g.auction_space, Some(39));
    assert_eq!(g.auction_highest_bid, 40_000_000);
    assert_eq!(g.auction_highest_bidder, None);
    assert_eq!(g.auction_end_turn, g.turn_number + 3);
    assert_eq!(g.turn_phase, TurnPhase::AuctionPhase);
}

#[test]
fn low_or_equal_bids_are_rejected() {
    let (mut g, mut a, mut b) = fresh();
    a.position = 1;
    g.turn_phase = TurnPhase::BuyDecision;
    decline_buy(&mut g, &a).unwrap();
    assert_eq!(
        auction_bid(&mut g, &mut b, 1, 6_000_000, 0).unwrap_err(),
        BlockpolyError::BidTooLow
    );
    assert_eq!(
        auction_bid(&mut g, &mut b, 1, 5_999_999, 0).unwrap_err(),
        BlockpolyError::BidTooLow
    );
    assert_eq!(g.auction_highest_bidder, None);
}

#[test]
fn higher_bid_records_and_extends_deadline() {
    let (mut g, mut a, mut b) = fresh();
    a.position = 1;
    g.turn_phase = TurnPhase::BuyDecision;
    decline_buy(&mut g, &a).unwrap();
    let out = auction_bid(&mut g, &mut b, 1, 7_000_000, 0).unwrap();
    assert!(matches!(out, AuctionOutcome::BidAccepted));
    assert_eq!(g.auction_highest_bid, 7_000_000);
    assert_eq!(g.auction_highest_bidder, Some(202));
    assert_eq!(g.auction_end_turn, g.turn_number + 3);
    // topping one's own bid is fine, but it must strictly exceed
    assert_eq!(
        auction_bid(&mut g, &mut b, 1, 7_000_000, 0).unwrap_err(),
        BlockpolyError::BidTooLow
    );
}

#[test]
fn finalize_after_deadline_awards_highest_bidder() {
    let (mut g, mut a, mut b) = fresh();
    a.position = 1;
    g.turn_phase = TurnPhase::BuyDecision;
    decline_buy(&mut g, &a).unwrap();
    auction_bid(&mut g, &mut b, 1, 7_000_000, 0).unwrap();
    g.turn_number = g.auction_end_turn + 1;
    let balance_before = b.bpoly_balance;
    let out = auction_bid(&mut g, &mut b, 1, 99_000_000, 55).unwrap();
    match out {
        AuctionOutcome::Finalized(Some((prop, paid))) => {
            // the earlier recorded bid wins, not the late one
            assert_eq!(paid, 7_000_000);
            assert_eq!(prop.owner, 202);
            assert_eq!(prop.space_index, 1);
            assert_eq!(prop.nft_asset, 55);
        }
        _ => panic!("expected an award"),
    }
    assert_eq!(b.bpoly_balance, balance_before - 7_000_000);
    assert!(b.properties_owned.contains(&1));
    assert_eq!(g.auction_space, None);
    assert_eq!(g.auction_highest_bid, 0);
    assert_eq!(g.auction_highest_bidder, None);
    assert_eq!(g.auction_end_turn, 0);
    assert_eq!(g.turn_phase, TurnPhase::RollDice);
}

#[test]
fn finalize_without_bids_leaves_space_unowned() {
    let (mut g, mut a, _b) = fresh();
    a.position = 1;
    g.turn_phase = TurnPhase::BuyDecision;
    decline_buy(&mut g, &a).unwrap();
    g.turn_number = g.auction_end_turn + 1;
    let out = finalize_auction(&mut g, &mut a, 0).unwrap();
    assert_eq!(out, None);
    assert_eq!(g.auction_space, None);
    assert_eq!(g.turn_phase, TurnPhase::RollDice);
}

#[test]
fn finalize_demands_the_winner_record() {
    let (mut g, mut a, mut b) = fresh();
    a.position = 1;
    g.turn_phase = TurnPhase::BuyDecision;
    decline_buy(&mut g, &a).unwrap();
    auction_bid(&mut g, &mut b, 1, 7_000_000, 0).unwrap();
    g.turn_number = g.auction_end_turn + 1;
    assert_eq!(
        finalize_auction(&mut g, &mut a, 0).unwrap_err(),
        BlockpolyError::NotYourTurn
    );
    assert!(finalize_auction(&mut g, &mut b, 0).is_ok());
}

#[test]
fn finalize_before_the_deadline_is_rejected() {
    let (mut g, mut a, mut b) = fresh();
    a.position = 1;
    g.turn_phase = TurnPhase::BuyDecision;
    decline_buy(&mut g, &a).unwrap();
    auction_bid(&mut g, &mut b, 1, 7_000_000, 0).unwrap();
    assert_eq!(
        finalize_auction(&mut g, &mut b, 0).unwrap_err(),
        BlockpolyError::WrongTurnPhase
    );
    assert_eq!(g.auction_space, Some(1));
    assert_eq!(g.auction_highest_bidder, Some(202));
}

#[test]
fn bids_need_an_active_auction() {
    let (mut g, _a, mut b) = fresh();
    assert_eq!(
        auction_bid(&mut g, &mut b, 1, 7_000_000, 0).unwrap_err(),
        BlockpolyError::AuctionNotActive
    );
    assert_eq!(
        finalize_auction(&mut g, &mut b, 0).unwrap_err(),
        BlockpolyError::AuctionNotActive
    );
}

#[test]
fn propose_validates_participants_and_holdings() {
    let (g, mut a, _b) = fresh();
    assert_eq!(
        propose_trade(&g, &a, 999, vec![], 0, vec![], 0, false, false).unwrap_err(),
        BlockpolyError::RecipientNotInGame
    );
    assert_eq!(
        propose_trade(&g, &a, 201, vec![], 0, vec![], 0, false, false).unwrap_err(),
        BlockpolyError::InvalidTradeOffer
    );
    assert_eq!(
        propose_trade(&g, &a, 202, vec![1], 0, vec![], 0, false, false).unwrap_err(),
        BlockpolyError::NotPropertyOwner
    );
    assert_eq!(
        propose_trade(&g, &a, 202, vec![], 0, vec![], 0, true, false).unwrap_err(),
        BlockpolyError::InvalidTradeOffer
    );
    a.properties_owned.push(1);
    let t = propose_trade(&g, &a, 202, vec![1], 5_000_000, vec![3], 0, false, false).unwrap();
    assert_eq!(t.proposer, 201);
    assert_eq!(t.recipient, 202);
    assert_eq!(t.expires_turn, g.turn_number + 10);
}

#[test]
fn accept_swaps_every_leg_atomically() {
    let (g, mut a, mut b) = fresh();
    a.properties_owned.push(1);
    a.has_jail_free_card = true;
    a.jail_free_card_type = 1;
    b.properties_owned.push(6);
    b.properties_owned.push(8);
    let t = propose_trade(&g, &a, 202, vec![1], 30_000_000, vec![6, 8], 10_000_000, true, false)
        .unwrap();
    let legs = accept_trade(&g, &mut a, &mut b, &t).unwrap();
    assert_eq!(legs, (30_000_000, 10_000_000));
    assert_eq!(a.bpoly_balance, 1_500_000_000 - 30_000_000 + 10_000_000);
    assert_eq!(b.bpoly_balance, 1_500_000_000 - 10_000_000 + 30_000_000);
    assert_eq!(a.properties_owned, vec![6, 8]);
    assert_eq!(b.properties_owned, vec![1]);
    assert!(!a.has_jail_free_card);
    assert_eq!(a.jail_free_card_type, 0);
    assert!(b.has_jail_free_card);
    assert_eq!(b.jail_free_card_type, 1);
}

#[test]
fn failed_currency_leg_moves_nothing() {
    // a failing mid-swap currency transfer must leave every property
    // where it was
    let (g, mut a, mut b) = fresh();
    a.properties_owned.push(1);
    b.properties_owned.push(6);
    b.bpoly_balance = 5_000_000;
    let t = propose_trade(&g, &a, 202, vec![1], 0, vec![6], 10_000_000, false, false).unwrap();
    assert_eq!(
        accept_trade(&g, &mut a, &mut b, &t).unwrap_err(),
        BlockpolyError::InsufficientBalance
    );
    assert_eq!(a.properties_owned, vec![1]);
    assert_eq!(b.properties_owned, vec![6]);
    assert_eq!(a.bpoly_balance, 1_500_000_000);
    assert_eq!(b.bpoly_balance, 5_000_000);
    assert!(!a.has_jail_free_card && !b.has_jail_free_card);
}

#[test]
fn failed_property_leg_moves_nothing() {
    let (g, mut a, mut b) = fresh();
    a.properties_owned.push(1);
    let t = propose_trade(&g, &a, 202, vec![1], 0, vec![6], 0, false, false).unwrap();
    // the recipient no longer holds the requested space
    assert_eq!(
        accept_trade(&g, &mut a, &mut b, &t).unwrap_err(),
        BlockpolyError::InvalidTradeOffer
    );
    assert_eq!(a.properties_owned, vec![1]);
    assert!(b.properties_owned.is_empty());
}

#[test]
fn expired_offers_cannot_be_accepted() {
    let (mut g, mut a, mut b) = fresh();
    let t = propose_trade(&g, &a, 202, vec![], 0, vec![], 0, false, false).unwrap();
    g.turn_number = t.expires_turn + 1;
    assert_eq!(
        accept_trade(&g, &mut a, &mut b, &t).unwrap_err(),
        BlockpolyError::TradeExpired
    );
}

#[test]
fn accept_checks_the_right_parties() {
    let (g, mut a, mut b) = fresh();
    let t = propose_trade(&g, &a, 202, vec![], 0, vec![], 0, false, false).unwrap();
    assert_eq!(
        accept_trade(&g, &mut b, &mut a, &t).unwrap_err(),
        BlockpolyError::InvalidTradeOffer
    );
    assert!(accept_trade(&g, &mut a, &mut b, &t).is_ok());
}

#[test]
fn both_jail_cards_listed_swap_their_origins() {
    let (g, mut a, mut b) = fresh();
    a.has_jail_free_card = true;
    a.jail_free_card_type = 1;
    b.has_jail_free_card = true;
    b.jail_free_card_type = 2;
    let t = propose_trade(&g, &a, 202, vec![], 0, vec![], 0, true, true).unwrap();
    accept_trade(&g, &mut a, &mut b, &t).unwrap();
    assert!(a.has_jail_free_card && b.has_jail_free_card);
    assert_eq!(a.jail_free_card_type, 2);
    assert_eq!(b.jail_free_card_type, 1);
}

#[test]
fn reject_only_by_the_recipient() {
    let (g, a, _b) = fresh();
    let t = propose_trade(&g, &a, 202, vec![], 0, vec![], 0, false, false).unwrap();
    assert_eq!(reject_trade(201, &t).unwrap_err(), BlockpolyError::InvalidTradeOffer);
    assert!(reject_trade(202, &t).is_ok());
}
