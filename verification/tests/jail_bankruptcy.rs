use blockpoly::bankruptcy::declare_bankruptcy;
use blockpoly::errors::BlockpolyError;
use blockpoly::game::{GameState, GameStatus, TurnPhase};
use blockpoly::lifecycle::{initialize_game, join_game, start_game};
use blockpoly::player::{PlayerState, PlayerStatus};
use blockpoly::rugpull::{rugpull_attempt_doubles, rugpull_pay_bail, rugpull_use_jail_free_card};

fn fresh_n(n: u64) -> (GameState, Vec<PlayerState>) {
    let mut g = initialize_game(7, 100, 8, 0).unwrap();
    let mut players = Vec::new();
    for w in 0..n {
        players.push(join_game(&mut g, 201 + w).unwrap());
    }
    start_game(&mut g, 100, &(0u8..32).collect::<Vec<u8>>()).unwrap();
    (g, players)
}

fn jail(p: &mut PlayerState) {
    p.position = 10;
    p.status = PlayerStatus::InRugPullZone;
    p.rugpull_turns_remaining = 3;
}

#[test]
fn bail_frees_for_fifty() {
    let (mut g, mut players) = fresh_n(2);
    let mut a = players.remove(0);
    jail(&mut a);
    assert_eq!(rugpull_pay_bail(&mut g, &mut a).unwrap(), 50_000_000);
    assert_eq!(a.bpoly_balance, 1_450_000_000);
    assert_eq!(a.status, PlayerStatus::Active);
    assert_eq!(a.rugpull_turns_remaining, 0);
    assert_eq!(g.turn_phase, TurnPhase::RollDice);
}

#[test]
fn bail_needs_jail_funds_and_turn() {
    let (mut g, mut players) = fresh_n(2);
    let mut b = players.remove(1);
    let mut a = players.remove(0);
    assert_eq!(
        rugpull_pay_bail(&mut g, &mut a).unwrap_err(),
        BlockpolyError::NotInRugPullZone
    );
    jail(&mut b);
    assert_eq!(
        rugpull_pay_bail(&mut g, &mut b).unwrap_err(),
        BlockpolyError::NotYourTurn
    );
    jail(&mut a);
    a.bpoly_balance = 49_999_999;
    assert_eq!(
        rugpull_pay_bail(&mut g, &mut a).unwrap_err(),
        BlockpolyError::InsufficientBalance
    );
}

#[test]
fn jail_free_card_is_spent_on_use() {
    let (mut g, mut players) = fresh_n(2);
    let mut a = players.remove(0);
    jail(&mut a);
    assert_eq!(
        rugpull_use_jail_free_card(&mut g, &mut a).unwrap_err(),
        BlockpolyError::NoJailFreeCard
    );
    a.has_jail_free_card = true;
    a.jail_free_card_type = 2;
    rugpull_use_jail_free_card(&mut g, &mut a).unwrap();
    assert!(!a.has_jail_free_card);
    assert_eq!(a.jail_free_card_type, 0);
    assert_eq!(a.status, PlayerStatus::Active);
    assert_eq!(a.bpoly_balance, 1_500_000_000);
}

#[test]
fn doubles_attempt_opens_the_roll() {
    let (mut g, mut players) = fresh_n(2);
    let mut a = players.remove(0);
    assert_eq!(
        rugpull_attempt_doubles(&mut g, &a).unwrap_err(),
        BlockpolyError::NotInRugPullZone
    );
    jail(&mut a);
    rugpull_attempt_doubles(&mut g, &a).unwrap();
    assert_eq!(g.turn_phase, TurnPhase::RollDice);
}

#[test]
fn bankruptcy_removes_exactly_one_player() {
    let (mut g, mut players) = fresh_n(3);
    let mut a = players.remove(0);
    declare_bankruptcy(&mut g, &mut a, None).unwrap();
    assert!(a.is_bankrupt);
    assert_eq!(a.status, PlayerStatus::Bankrupt);
    assert_eq!(g.players, vec![202, 203]);
    assert_eq!(g.player_count, 2);
    assert_eq!(g.status, GameStatus::InProgress);
    assert_eq!(
        declare_bankruptcy(&mut g, &mut a, None).unwrap_err(),
        BlockpolyError::PlayerBankrupt
    );
}

#[test]
fn last_survivor_wins_when_rotation_empties() {
    let (mut g, mut players) = fresh_n(3);
    let mut c = players.remove(2);
    let mut b = players.remove(1);
    declare_bankruptcy(&mut g, &mut b, Some(201)).unwrap();
    assert_eq!(g.status, GameStatus::InProgress);
    declare_bankruptcy(&mut g, &mut c, None).unwrap();
    assert_eq!(g.status, GameStatus::Finished);
    assert_eq!(g.winner, Some(201));
    assert_eq!(g.players, vec![201]);
    assert_eq!(g.player_count, 1);
    assert_eq!(g.turn_phase, TurnPhase::Finished);
}

#[test]
fn bankruptcy_rotates_to_a_surviving_player() {
    let (mut g, mut players) = fresh_n(4);
    let mut a = players.remove(0);
    let turn_before = g.turn_number;
    declare_bankruptcy(&mut g, &mut a, None).unwrap();
    assert_eq!(g.player_count, 3);
    assert!(g.current_player_index < 3);
    assert_eq!(g.turn_number, turn_before + 1);
    assert_eq!(g.turn_phase, TurnPhase::RollDice);
}

#[test]
fn operations_reject_a_finished_game() {
    let (mut g, mut players) = fresh_n(2);
    let mut a = players.remove(0);
    g.status = GameStatus::Finished;
    assert_eq!(
        rugpull_pay_bail(&mut g, &mut a).unwrap_err(),
        BlockpolyError::GameNotStarted
    );
    assert_eq!(
        declare_bankruptcy(&mut g, &mut a, None).unwrap_err(),
        BlockpolyError::GameNotStarted
    );
}
