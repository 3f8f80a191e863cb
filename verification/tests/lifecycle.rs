use blockpoly::errors::BlockpolyError;
use blockpoly::game::{GameState, GameStatus, TurnPhase, STARTING_BALANCE};
use blockpoly::lifecycle::{claim_prize, initialize_game, join_game, start_game};

fn seed() -> Vec<u8> {
    (0u8..32).collect()
}

#[test]
fn initialize_rejects_bad_player_caps() {
    assert_eq!(
        initialize_game(1, 10, 1, 0).unwrap_err(),
        BlockpolyError::InvalidPlayerCount
    );
    assert_eq!(
        initialize_game(1, 10, 9, 0).unwrap_err(),
        BlockpolyError::InvalidPlayerCount
    );
    assert!(initialize_game(1, 10, 2, 0).is_ok());
    assert!(initialize_game(1, 10, 8, 0).is_ok());
}

#[test]
fn initialize_sets_waiting_state() {
    let g = initialize_game(7, 100, 4, 5_000).unwrap();
    assert_eq!(g.game_id, 7);
    assert_eq!(g.host, 100);
    assert_eq!(g.status, GameStatus::WaitingForPlayers);
    assert_eq!(g.turn_phase, TurnPhase::RollDice);
    assert_eq!(g.player_count, 0);
    assert_eq!(g.max_players, 4);
    assert_eq!(g.prize_pool_lamports, 5_000);
    assert_eq!(g.alpha_call_deck, (0u8..16).collect::<Vec<u8>>());
    assert_eq!(g.governance_deck, (0u8..16).collect::<Vec<u8>>());
}

#[test]
fn join_assigns_indices_and_starting_balance() {
    let mut g = initialize_game(7, 100, 4, 0).unwrap();
    let a = join_game(&mut g, 201).unwrap();
    let b = join_game(&mut g, 202).unwrap();
    assert_eq!(a.player_index, 0);
    assert_eq!(b.player_index, 1);
    assert_eq!(a.bpoly_balance, STARTING_BALANCE);
    assert_eq!(b.bpoly_balance, 1_500_000_000);
    assert_eq!(g.players, vec![201, 202]);
    assert_eq!(g.player_count, 2);
}

#[test]
fn join_rejects_duplicates_and_overflow() {
    let mut g = initialize_game(7, 100, 2, 0).unwrap();
    join_game(&mut g, 201).unwrap();
    assert_eq!(
        join_game(&mut g, 201).unwrap_err(),
        BlockpolyError::AlreadyJoined
    );
    join_game(&mut g, 202).unwrap();
    assert_eq!(join_game(&mut g, 203).unwrap_err(), BlockpolyError::GameFull);
}

#[test]
fn join_rejects_started_game() {
    let mut g = initialize_game(7, 100, 4, 0).unwrap();
    join_game(&mut g, 201).unwrap();
    join_game(&mut g, 202).unwrap();
    start_game(&mut g, 100, &seed()).unwrap();
    assert_eq!(
        join_game(&mut g, 203).unwrap_err(),
        BlockpolyError::GameNotWaiting
    );
}

#[test]
fn start_requires_host_and_two_players() {
    let mut g = initialize_game(7, 100, 4, 0).unwrap();
    join_game(&mut g, 201).unwrap();
    assert_eq!(
        start_game(&mut g, 201, &seed()).unwrap_err(),
        BlockpolyError::HostOnly
    );
    assert_eq!(
        start_game(&mut g, 100, &seed()).unwrap_err(),
        BlockpolyError::InvalidPlayerCount
    );
    join_game(&mut g, 202).unwrap();
    start_game(&mut g, 100, &seed()).unwrap();
    assert_eq!(g.status, GameStatus::InProgress);
    assert_eq!(g.turn_number, 1);
    assert_eq!(g.round_number, 1);
    assert_eq!(g.current_player_index, 0);
}

#[test]
fn claim_prize_pays_recorded_winner_once() {
    let mut g: GameState = initialize_game(7, 100, 4, 9_000).unwrap();
    join_game(&mut g, 201).unwrap();
    join_game(&mut g, 202).unwrap();
    start_game(&mut g, 100, &seed()).unwrap();
    assert_eq!(
        claim_prize(&mut g, 201).unwrap_err(),
        BlockpolyError::GameNotStarted
    );
    g.status = GameStatus::Finished;
    g.winner = Some(202);
    assert_eq!(
        claim_prize(&mut g, 201).unwrap_err(),
        BlockpolyError::NotPropertyOwner
    );
    assert_eq!(claim_prize(&mut g, 202).unwrap(), 9_000);
    assert_eq!(g.prize_pool_lamports, 0);
    assert_eq!(claim_prize(&mut g, 202).unwrap(), 0);
}
