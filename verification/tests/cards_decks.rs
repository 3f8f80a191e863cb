use blockpoly::cards::{draw_card, resolve_alpha_call, resolve_card, resolve_governance_vote};
use blockpoly::errors::BlockpolyError;
use blockpoly::game::{CashFlow, GameState, TurnPhase};
use blockpoly::lifecycle::{initialize_game, join_game, start_game};
use blockpoly::player::{PlayerState, PlayerStatus};
use blockpoly::shuffle::fisher_yates_shuffle;

fn fresh() -> (GameState, PlayerState, PlayerState) {
    let mut g = initialize_game(7, 100, 4, 0).unwrap();
    let a = join_game(&mut g, 201).unwrap();
    let b = join_game(&mut g, 202).unwrap();
    start_game(&mut g, 100, &(0u8..32).collect::<Vec<u8>>()).unwrap();
    (g, a, b)
}

#[test]
fn draw_cursor_cycles_with_period_sixteen() {
    let (mut g, _a, _b) = fresh();
    let start = g.alpha_call_index;
    let mut seen = [false; 16];
    for _ in 0..16 {
        let card = g.next_alpha_card();
        assert!(!seen[card as usize], "a card repeated within one cycle");
        seen[card as usize] = true;
    }
    assert!(seen.iter().all(|&s| s));
    assert_eq!(g.alpha_call_index, start);
}

#[test]
fn deck_cursors_are_independent() {
    let (mut g, _a, _b) = fresh();
    let gov_before = g.governance_index;
    g.next_alpha_card();
    g.next_alpha_card();
    assert_eq!(g.governance_index, gov_before);
}

#[test]
fn shuffles_from_one_seed_differ_by_offset() {
    let seed: Vec<u8> = (0u8..32).collect();
    let mut alpha: Vec<u8> = (0u8..16).collect();
    let mut gov: Vec<u8> = (0u8..16).collect();
    fisher_yates_shuffle(&mut alpha, &seed, 0);
    fisher_yates_shuffle(&mut gov, &seed, 16);
    assert_ne!(alpha, gov);
    // both remain permutations of the sixteen card ids
    let mut a_sorted = alpha.clone();
    a_sorted.sort();
    let mut g_sorted = gov.clone();
    g_sorted.sort();
    assert_eq!(a_sorted, (0u8..16).collect::<Vec<u8>>());
    assert_eq!(g_sorted, (0u8..16).collect::<Vec<u8>>());
}

#[test]
fn shuffle_is_deterministic_in_the_seed() {
    let seed: Vec<u8> = (100u8..132).collect();
    let mut one: Vec<u8> = (0u8..16).collect();
    let mut two: Vec<u8> = (0u8..16).collect();
    fisher_yates_shuffle(&mut one, &seed, 5);
    fisher_yates_shuffle(&mut two, &seed, 5);
    assert_eq!(one, two);
}

#[test]
fn draw_matches_landed_space_deck() {
    let (mut g, mut a, _b) = fresh();
    a.position = 2;
    g.turn_phase = TurnPhase::DrawCard;
    let (deck, card) = draw_card(&mut g, &a).unwrap();
    assert_eq!(deck, 0);
    assert!(card < 16);
    assert_eq!(g.pending_card, Some((0, card)));

    a.position = 7;
    g.turn_phase = TurnPhase::DrawCard;
    let (deck2, card2) = draw_card(&mut g, &a).unwrap();
    assert_eq!(deck2, 1);
    assert!(card2 < 16);

    a.position = 1;
    g.turn_phase = TurnPhase::DrawCard;
    assert_eq!(
        draw_card(&mut g, &a).unwrap_err(),
        BlockpolyError::WrongTurnPhase
    );
}

#[test]
fn alpha_teleports_and_salary() {
    let (mut g, mut a, _b) = fresh();
    a.position = 17;
    let cash = resolve_alpha_call(0, &mut g, &mut a, 0).unwrap();
    assert_eq!(cash, CashFlow::FromBank(200_000_000));
    assert_eq!(a.position, 0);
    assert_eq!(a.bpoly_balance, 1_700_000_000);
}

#[test]
fn alpha_nearest_bridge_and_wrap_salary() {
    let (mut g, mut a, _b) = fresh();
    a.position = 17;
    assert_eq!(resolve_alpha_call(2, &mut g, &mut a, 0).unwrap(), CashFlow::NoTransfer);
    assert_eq!(a.position, 25);
    // the first-bridge card pays the salary when it wraps past start
    let cash = resolve_alpha_call(3, &mut g, &mut a, 0).unwrap();
    assert_eq!(cash, CashFlow::FromBank(200_000_000));
    assert_eq!(a.position, 5);
}

#[test]
fn alpha_dice_toll_and_market_crash() {
    let (mut g, mut a, _b) = fresh();
    assert_eq!(
        resolve_alpha_call(6, &mut g, &mut a, 9).unwrap(),
        CashFlow::ToBank(36_000_000)
    );
    assert_eq!(a.bpoly_balance, 1_464_000_000);
    assert_eq!(
        resolve_alpha_call(7, &mut g, &mut a, 0).unwrap(),
        CashFlow::ToBank(292_800_000)
    );
    assert_eq!(a.bpoly_balance, 1_171_200_000);
}

#[test]
fn alpha_bull_run_sets_expiry_round() {
    let (mut g, mut a, _b) = fresh();
    assert_eq!(resolve_alpha_call(8, &mut g, &mut a, 0).unwrap(), CashFlow::NoTransfer);
    assert!(g.bull_run_active);
    assert_eq!(g.bull_run_ends_round, g.round_number + 1);
}

#[test]
fn alpha_steals_last_rent_once() {
    let (mut g, mut a, _b) = fresh();
    g.last_rent_amount = 12_000_000;
    assert_eq!(
        resolve_alpha_call(9, &mut g, &mut a, 0).unwrap(),
        CashFlow::FromBank(12_000_000)
    );
    assert_eq!(g.last_rent_amount, 0);
    assert_eq!(
        resolve_alpha_call(9, &mut g, &mut a, 0).unwrap(),
        CashFlow::NoTransfer
    );
}

#[test]
fn alpha_flash_loan_is_single_use() {
    let (mut g, mut a, _b) = fresh();
    assert_eq!(
        resolve_alpha_call(10, &mut g, &mut a, 0).unwrap(),
        CashFlow::FromBank(200_000_000)
    );
    assert!(a.flash_loan_active);
    assert_eq!(a.flash_loan_repay_amount, 210_000_000);
    assert_eq!(a.flash_loan_due_turn, g.turn_number + 2);
    assert_eq!(
        resolve_alpha_call(10, &mut g, &mut a, 0).unwrap_err(),
        BlockpolyError::FlashLoanAlreadyActive
    );
}

#[test]
fn alpha_moves_back_three_with_wrap() {
    let (mut g, mut a, _b) = fresh();
    a.position = 1;
    resolve_alpha_call(12, &mut g, &mut a, 0).unwrap();
    assert_eq!(a.position, 38);
    a.position = 12;
    resolve_alpha_call(12, &mut g, &mut a, 0).unwrap();
    assert_eq!(a.position, 9);
}

#[test]
fn alpha_jail_card_sends_to_rugpull_zone() {
    let (mut g, mut a, _b) = fresh();
    resolve_alpha_call(13, &mut g, &mut a, 0).unwrap();
    assert_eq!(a.position, 10);
    assert_eq!(a.status, PlayerStatus::InRugPullZone);
    assert_eq!(a.rugpull_turns_remaining, 3);
}

#[test]
fn alpha_grants_jail_free_card() {
    let (mut g, mut a, _b) = fresh();
    resolve_alpha_call(5, &mut g, &mut a, 0).unwrap();
    assert!(a.has_jail_free_card);
    assert_eq!(a.jail_free_card_type, 1);
}

#[test]
fn governance_levy_unpacks_both_counts() {
    let (mut g, mut a, _b) = fresh();
    // 3 pools in the low half, 2 full protocols in the high half
    let extra = 3u64 + (2u64 << 32);
    assert_eq!(
        resolve_governance_vote(6, &mut g, &mut a, extra).unwrap(),
        CashFlow::ToBank(3 * 40_000_000 + 2 * 115_000_000)
    );
    assert_eq!(a.bpoly_balance, 1_500_000_000 - 350_000_000);
}

#[test]
fn governance_per_player_amounts_scale_with_rivals() {
    let (mut g, mut a, _b) = fresh();
    assert_eq!(
        resolve_governance_vote(2, &mut g, &mut a, 0).unwrap(),
        CashFlow::FromBank(10_000_000)
    );
    assert_eq!(
        resolve_governance_vote(9, &mut g, &mut a, 0).unwrap(),
        CashFlow::ToBank(150_000_000)
    );
    assert_eq!(
        resolve_governance_vote(11, &mut g, &mut a, 0).unwrap(),
        CashFlow::FromBank(50_000_000)
    );
}

#[test]
fn governance_mining_and_royalty_scale_with_aggregates() {
    let (mut g, mut a, _b) = fresh();
    assert_eq!(
        resolve_governance_vote(8, &mut g, &mut a, 4).unwrap(),
        CashFlow::FromBank(100_000_000)
    );
    assert_eq!(
        resolve_governance_vote(14, &mut g, &mut a, 2).unwrap(),
        CashFlow::FromBank(40_000_000)
    );
    assert_eq!(
        resolve_governance_vote(14, &mut g, &mut a, 0).unwrap(),
        CashFlow::NoTransfer
    );
}

#[test]
fn governance_insurance_frees_jailed_player() {
    let (mut g, mut a, _b) = fresh();
    a.status = PlayerStatus::InRugPullZone;
    a.rugpull_turns_remaining = 2;
    assert_eq!(
        resolve_governance_vote(15, &mut g, &mut a, 0).unwrap(),
        CashFlow::NoTransfer
    );
    assert_eq!(a.status, PlayerStatus::Active);
    assert_eq!(a.rugpull_turns_remaining, 0);
    // out of jail it pays instead
    assert_eq!(
        resolve_governance_vote(15, &mut g, &mut a, 0).unwrap(),
        CashFlow::FromBank(75_000_000)
    );
}

#[test]
fn governance_summer_teleport_pays_on_wrap() {
    let (mut g, mut a, _b) = fresh();
    a.position = 25;
    assert_eq!(
        resolve_governance_vote(12, &mut g, &mut a, 0).unwrap(),
        CashFlow::FromBank(200_000_000)
    );
    assert_eq!(a.position, 20);
    a.position = 15;
    assert_eq!(
        resolve_governance_vote(12, &mut g, &mut a, 0).unwrap(),
        CashFlow::NoTransfer
    );
    assert_eq!(a.position, 20);
}

#[test]
fn resolve_card_advances_the_turn() {
    let (mut g, mut a, _b) = fresh();
    g.turn_phase = TurnPhase::DrawCard;
    let turn_before = g.turn_number;
    assert_eq!(
        resolve_card(&mut g, &mut a, 0, 4, 0).unwrap(),
        CashFlow::FromBank(50_000_000)
    );
    assert_eq!(g.turn_number, turn_before + 1);
    assert_eq!(g.current_player_index, 1);
    assert_eq!(g.turn_phase, TurnPhase::RollDice);
    assert_eq!(g.pending_card, None);
}

#[test]
fn resolve_card_checks_phase_and_turn() {
    let (mut g, mut a, mut b) = fresh();
    assert_eq!(
        resolve_card(&mut g, &mut a, 0, 4, 0).unwrap_err(),
        BlockpolyError::WrongTurnPhase
    );
    g.turn_phase = TurnPhase::DrawCard;
    assert_eq!(
        resolve_card(&mut g, &mut b, 0, 4, 0).unwrap_err(),
        BlockpolyError::NotYourTurn
    );
}
