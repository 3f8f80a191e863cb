use blockpoly::dice::{consume_randomness, request_dice_roll, RollOutcome};
use blockpoly::errors::BlockpolyError;
use blockpoly::game::{GameState, TurnPhase};
use blockpoly::lifecycle::{initialize_game, join_game, start_game};
use blockpoly::player::{PlayerState, PlayerStatus};

fn fresh() -> (GameState, PlayerState, PlayerState) {
    let mut g = initialize_game(7, 100, 4, 0).unwrap();
    let a = join_game(&mut g, 201).unwrap();
    let b = join_game(&mut g, 202).unwrap();
    start_game(&mut g, 100, &(0u8..32).collect::<Vec<u8>>()).unwrap();
    (g, a, b)
}

/// A 32-byte payload whose first two bytes set the dice.
fn payload(b0: u8, b1: u8) -> Vec<u8> {
    let mut v = vec![0u8; 32];
    v[0] = b0;
    v[1] = b1;
    v
}

#[test]
fn dice_always_in_one_to_six() {
    for (b0, b1) in [(0u8, 5u8), (6, 7), (11, 12), (254, 255), (100, 200)] {
        let (mut g, mut a, _b) = fresh();
        request_dice_roll(&mut g, &a).unwrap();
        let out = consume_randomness(&mut g, &mut a, &payload(b0, b1)).unwrap();
        match out {
            RollOutcome::Moved { die1, die2, .. }
            | RollOutcome::SentToJail { die1, die2 }
            | RollOutcome::TripleDoubles { die1, die2 } => {
                assert!((1..=6).contains(&die1));
                assert!((1..=6).contains(&die2));
                assert_eq!(die1, b0 % 6 + 1);
                assert_eq!(die2, b1 % 6 + 1);
            }
            _ => panic!("unexpected outcome"),
        }
    }
}

#[test]
fn movement_is_modulo_forty_with_wrap() {
    let (mut g, mut a, _b) = fresh();
    a.position = 38;
    g.turn_phase = TurnPhase::AwaitingVRF;
    // dice 4 and 3: 38 + 7 wraps to 5
    let out = consume_randomness(&mut g, &mut a, &payload(3, 2)).unwrap();
    assert_eq!(
        out,
        RollOutcome::Moved { die1: 4, die2: 3, new_position: 5, passed_start: true }
    );
    assert_eq!(a.position, 5);
    assert_eq!(g.pending_dice, Some((4, 3)));
    assert_eq!(g.turn_phase, TurnPhase::LandingEffect);
}

#[test]
fn movement_without_wrap_does_not_pass_start() {
    let (mut g, mut a, _b) = fresh();
    a.position = 11;
    g.turn_phase = TurnPhase::AwaitingVRF;
    // dice 1 and 2: 11 + 3 = 14 (a pink property)
    let out = consume_randomness(&mut g, &mut a, &payload(0, 1)).unwrap();
    assert_eq!(
        out,
        RollOutcome::Moved { die1: 1, die2: 2, new_position: 14, passed_start: false }
    );
}

#[test]
fn leaving_the_start_space_counts_as_passing() {
    let (mut g, mut a, _b) = fresh();
    g.turn_phase = TurnPhase::AwaitingVRF;
    // from position 0, any positive roll reports passed_start
    let out = consume_randomness(&mut g, &mut a, &payload(0, 1)).unwrap();
    assert_eq!(
        out,
        RollOutcome::Moved { die1: 1, die2: 2, new_position: 3, passed_start: true }
    );
}

#[test]
fn doubles_streak_counts_up_and_resets() {
    let (mut g, mut a, _b) = fresh();
    g.turn_phase = TurnPhase::AwaitingVRF;
    consume_randomness(&mut g, &mut a, &payload(1, 1)).unwrap();
    assert_eq!(a.doubles_streak, 1);
    g.turn_phase = TurnPhase::AwaitingVRF;
    consume_randomness(&mut g, &mut a, &payload(2, 2)).unwrap();
    assert_eq!(a.doubles_streak, 2);
    g.turn_phase = TurnPhase::AwaitingVRF;
    // a non-double roll resets the streak to zero
    consume_randomness(&mut g, &mut a, &payload(1, 2)).unwrap();
    assert_eq!(a.doubles_streak, 0);
}

#[test]
fn third_consecutive_double_forces_jail() {
    let (mut g, mut a, _b) = fresh();
    a.doubles_streak = 2;
    a.position = 7;
    g.turn_phase = TurnPhase::AwaitingVRF;
    let out = consume_randomness(&mut g, &mut a, &payload(4, 4)).unwrap();
    assert_eq!(out, RollOutcome::TripleDoubles { die1: 5, die2: 5 });
    assert_eq!(a.status, PlayerStatus::InRugPullZone);
    assert_eq!(a.rugpull_turns_remaining, 3);
    assert_eq!(a.position, 10);
    assert_eq!(a.doubles_streak, 0);
    // the landing-space effect is overridden: the player is in jail,
    // not on the space the dice pointed at
    assert_ne!(a.position, (7 + 10) % 40);
}

#[test]
fn landing_on_go_to_jail_space_jails() {
    let (mut g, mut a, _b) = fresh();
    a.position = 26;
    g.turn_phase = TurnPhase::AwaitingVRF;
    // dice 1 and 3: 26 + 4 = 30, the go-to-jail space
    let out = consume_randomness(&mut g, &mut a, &payload(0, 2)).unwrap();
    assert_eq!(out, RollOutcome::SentToJail { die1: 1, die2: 3 });
    assert_eq!(a.position, 10);
    assert_eq!(a.status, PlayerStatus::InRugPullZone);
    assert_eq!(a.rugpull_turns_remaining, 3);
}

#[test]
fn roll_request_needs_turn_and_phase() {
    let (mut g, a, b) = fresh();
    assert_eq!(
        request_dice_roll(&mut g, &b).unwrap_err(),
        BlockpolyError::NotYourTurn
    );
    request_dice_roll(&mut g, &a).unwrap();
    assert_eq!(g.turn_phase, TurnPhase::AwaitingVRF);
    assert_eq!(
        request_dice_roll(&mut g, &a).unwrap_err(),
        BlockpolyError::WrongTurnPhase
    );
}

#[test]
fn roll_request_rejects_pending_randomness_marker() {
    let (mut g, a, _b) = fresh();
    g.vrf_request = Some(900);
    assert_eq!(
        request_dice_roll(&mut g, &a).unwrap_err(),
        BlockpolyError::VRFPending
    );
}

#[test]
fn callback_rejects_wrong_turn_or_phase() {
    let (mut g, mut a, mut b) = fresh();
    assert_eq!(
        consume_randomness(&mut g, &mut a, &payload(0, 1)).unwrap_err(),
        BlockpolyError::WrongTurnPhase
    );
    g.turn_phase = TurnPhase::AwaitingVRF;
    assert_eq!(
        consume_randomness(&mut g, &mut b, &payload(0, 1)).unwrap_err(),
        BlockpolyError::NotYourTurn
    );
}

#[test]
fn jailed_doubles_escape_moves_player() {
    let (mut g, mut a, _b) = fresh();
    a.position = 10;
    a.status = PlayerStatus::InRugPullZone;
    a.rugpull_turns_remaining = 3;
    g.turn_phase = TurnPhase::AwaitingVRF;
    let out = consume_randomness(&mut g, &mut a, &payload(3, 3)).unwrap();
    assert_eq!(
        out,
        RollOutcome::JailEscape { die1: 4, die2: 4, new_position: 18, passed_start: false }
    );
    assert_eq!(a.status, PlayerStatus::Active);
    assert_eq!(a.rugpull_turns_remaining, 0);
    assert_eq!(a.position, 18);
}

#[test]
fn jailed_failed_attempt_decrements_and_passes_turn() {
    let (mut g, mut a, _b) = fresh();
    a.position = 10;
    a.status = PlayerStatus::InRugPullZone;
    a.rugpull_turns_remaining = 3;
    g.turn_phase = TurnPhase::AwaitingVRF;
    let out = consume_randomness(&mut g, &mut a, &payload(0, 1)).unwrap();
    assert_eq!(out, RollOutcome::JailHeld { die1: 1, die2: 2, turns_remaining: 2 });
    assert_eq!(a.position, 10);
    assert_eq!(a.status, PlayerStatus::InRugPullZone);
    assert_eq!(g.current_player_index, 1);
    assert_eq!(g.turn_phase, TurnPhase::RollDice);
}

#[test]
fn jailed_last_failed_attempt_forces_bail_and_moves() {
    let (mut g, mut a, _b) = fresh();
    a.position = 10;
    a.status = PlayerStatus::InRugPullZone;
    a.rugpull_turns_remaining = 1;
    let before = a.bpoly_balance;
    g.turn_phase = TurnPhase::AwaitingVRF;
    let out = consume_randomness(&mut g, &mut a, &payload(0, 1)).unwrap();
    assert_eq!(
        out,
        RollOutcome::JailForcedBail { die1: 1, die2: 2, new_position: 13, passed_start: false }
    );
    assert_eq!(a.bpoly_balance, before - 50_000_000);
    assert_eq!(a.status, PlayerStatus::Active);
    assert_eq!(a.position, 13);
}

#[test]
fn forced_bail_without_funds_is_rejected() {
    let (mut g, mut a, _b) = fresh();
    a.position = 10;
    a.status = PlayerStatus::InRugPullZone;
    a.rugpull_turns_remaining = 1;
    a.bpoly_balance = 49_999_999;
    g.turn_phase = TurnPhase::AwaitingVRF;
    assert_eq!(
        consume_randomness(&mut g, &mut a, &payload(0, 1)).unwrap_err(),
        BlockpolyError::InsufficientBalance
    );
    assert_eq!(a.rugpull_turns_remaining, 1);
    assert_eq!(a.bpoly_balance, 49_999_999);
}
