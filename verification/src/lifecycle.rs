//! Game lifecycle: creating a match, joining it, starting it (which
//! shuffles the decks), and claiming the prize after it finishes.

use vstd::prelude::*;
use crate::errors::BlockpolyError;
use crate::game::{GameState, GameStatus, TurnPhase, MAX_PLAYERS, STARTING_BALANCE};
use crate::player::PlayerState;
use crate::shuffle::{fisher_yates_shuffle, spec_identity_deck, spec_shuffled_deck};

verus! {

/// A freshly created match, waiting for players, decks in identity
/// order, no pending randomness, no auction, no winner.
pub open spec fn spec_is_initial(
    g: GameState, game_id: u64, host: u64, max_players: u8, entry_fee_lamports: u64,
) -> bool {
    &&& g.game_id == game_id
    &&& g.host == host
    &&& g.status is WaitingForPlayers
    &&& g.turn_phase is RollDice
    &&& g.current_player_index == 0
    &&& g.turn_number == 0
    &&& g.round_number == 0
    &&& g.players@ == Seq::<u64>::empty()
    &&& g.player_count == 0
    &&& g.max_players == max_players
    &&& g.vrf_request is None
    &&& g.pending_dice is None
    &&& g.pending_card is None
    &&& g.alpha_call_deck@ == spec_identity_deck()
    &&& g.alpha_call_index == 0
    &&& g.governance_deck@ == spec_identity_deck()
    &&& g.governance_index == 0
    &&& !g.bull_run_active
    &&& g.bull_run_ends_round == 0
    &&& g.auction_space is None
    &&& g.auction_highest_bid == 0
    &&& g.auction_highest_bidder is None
    &&& g.auction_end_turn == 0
    &&& g.prize_pool_lamports == entry_fee_lamports
    &&& g.winner is None
    &&& g.last_rent_payer is None
    &&& g.last_rent_amount == 0
}

/// Build the identity deck 0..15.
fn identity_deck() -> (v: Vec<u8>)
    ensures
        v@ == spec_identity_deck(),
        v@.len() == 16,
        forall|k: int| 0 <= k < 16 ==> #[trigger] v@[k] < 16,
        forall|p: int, q: int| 0 <= p < q < 16 ==> v@[p] != v@[q],
{
    let mut v: Vec<u8> = Vec::new();
    let mut c: u8 = 0;
    while c < 16
        invariant
            c <= 16,
            v@.len() == c,
            forall|k: int| 0 <= k < c ==> #[trigger] v@[k] == k,
        decreases 16 - c,
    {
        v.push(c);
        c = c + 1;
    }
    proof {
        assert(v@ =~= spec_identity_deck());
    }
    v
}

/// Create a new match.  Rejected only when the player cap is outside
/// 2..=8; the entry fee seeds the prize pool.
pub fn initialize_game(
    game_id: u64, host: u64, max_players: u8, entry_fee_lamports: u64,
) -> (r: Result<GameState, BlockpolyError>)
    ensures
        r is Ok <==> 2 <= max_players <= MAX_PLAYERS,
        r matches Err(e) ==> e == BlockpolyError::InvalidPlayerCount,
        r matches Ok(g) ==> g.wf()
            && spec_is_initial(g, game_id, host, max_players, entry_fee_lamports),
{
    if !(max_players >= 2 && max_players <= MAX_PLAYERS) {
        return Err(BlockpolyError::InvalidPlayerCount);
    }
    let g = GameState {
        game_id,
        host,
        status: GameStatus::WaitingForPlayers,
        turn_phase: TurnPhase::RollDice,
        current_player_index: 0,
        turn_number: 0,
        round_number: 0,
        players: Vec::new(),
        player_count: 0,
        max_players,
        vrf_request: None,
        pending_dice: None,
        pending_card: None,
        alpha_call_deck: identity_deck(),
        alpha_call_index: 0,
        governance_deck: identity_deck(),
        governance_index: 0,
        bull_run_active: false,
        bull_run_ends_round: 0,
        auction_space: None,
        auction_highest_bid: 0,
        auction_highest_bidder: None,
        auction_end_turn: 0,
        prize_pool_lamports: entry_fee_lamports,
        winner: None,
        last_rent_payer: None,
        last_rent_amount: 0,
    };
    Ok(g)
}

/// Add a participant to a waiting match.  The new player's record is
/// returned; the host funds it with the starting balance from the bank.
pub fn join_game(game: &mut GameState, wallet: u64) -> (r: Result<PlayerState, BlockpolyError>)
    requires
        old(game).wf(),
    ensures
        final(game).wf(),
        r is Err ==> *final(game) == *old(game),
        !(old(game).status is WaitingForPlayers)
            ==> r == Err::<PlayerState, _>(BlockpolyError::GameNotWaiting),
        old(game).status is WaitingForPlayers
            && old(game).player_count >= old(game).max_players
            ==> r == Err::<PlayerState, _>(BlockpolyError::GameFull),
        old(game).status is WaitingForPlayers
            && old(game).player_count < old(game).max_players
            && old(game).players@.contains(wallet)
            ==> r == Err::<PlayerState, _>(BlockpolyError::AlreadyJoined),
        old(game).status is WaitingForPlayers
            && old(game).player_count < old(game).max_players
            && !old(game).players@.contains(wallet)
            ==> r is Ok,
        r matches Ok(p) ==> {
            &&& p.wf()
            &&& p.spec_is_new(wallet, old(game).player_count, STARTING_BALANCE)
            &&& *final(game) == (GameState {
                players: final(game).players,
                player_count: (old(game).player_count + 1) as u8,
                ..*old(game)
            })
            &&& final(game).players@ == old(game).players@.push(wallet)
        },
{
    if !matches!(game.status, GameStatus::WaitingForPlayers) {
        return Err(BlockpolyError::GameNotWaiting);
    }
    if game.player_count >= game.max_players {
        return Err(BlockpolyError::GameFull);
    }
    if game.player_listed(wallet) {
        return Err(BlockpolyError::AlreadyJoined);
    }
    let player_index = game.player_count;
    game.players.push(wallet);
    game.player_count = game.player_count + 1;
    proof {
        let oldseq = old(game).players@;
        let newseq = game.players@;
        assert forall|i: int, j: int|
            0 <= i < j < newseq.len() implies newseq[i] != newseq[j] by {
            if j == newseq.len() - 1 {
                assert(newseq[i] == oldseq[i]);
                if oldseq[i] == wallet {
                    assert(oldseq.contains(wallet));
                }
            } else {
                assert(newseq[i] == oldseq[i] && newseq[j] == oldseq[j]);
            }
        }
    }
    let p = PlayerState {
        wallet,
        player_index,
        status: crate::player::PlayerStatus::Active,
        position: 0,
        doubles_streak: 0,
        rugpull_turns_remaining: 0,
        has_jail_free_card: false,
        jail_free_card_type: 0,
        properties_owned: Vec::new(),
        flash_loan_active: false,
        flash_loan_repay_amount: 0,
        flash_loan_due_turn: 0,
        is_bankrupt: false,
        bpoly_balance: STARTING_BALANCE,
    };
    Ok(p)
}

/// Start a waiting match: shuffle both decks from the shared seed at
/// disjoint offsets and open play at turn 1, round 1, first player.
pub fn start_game(game: &mut GameState, caller: u64, shuffle_seed: &Vec<u8>)
    -> (r: Result<(), BlockpolyError>)
    requires
        old(game).wf(),
        shuffle_seed@.len() == 32,
    ensures
        final(game).wf(),
        r is Err ==> *final(game) == *old(game),
        caller != old(game).host ==> r == Err::<(), _>(BlockpolyError::HostOnly),
        caller == old(game).host && !(old(game).status is WaitingForPlayers)
            ==> r == Err::<(), _>(BlockpolyError::GameNotWaiting),
        caller == old(game).host && old(game).status is WaitingForPlayers
            && old(game).player_count < 2
            ==> r == Err::<(), _>(BlockpolyError::InvalidPlayerCount),
        caller == old(game).host && old(game).status is WaitingForPlayers
            && old(game).player_count >= 2
            ==> r is Ok,
        r is Ok ==> {
            &&& *final(game) == (GameState {
                alpha_call_deck: final(game).alpha_call_deck,
                alpha_call_index: 0,
                governance_deck: final(game).governance_deck,
                governance_index: 0,
                status: GameStatus::InProgress,
                turn_phase: TurnPhase::RollDice,
                current_player_index: 0,
                turn_number: 1,
                round_number: 1,
                ..*old(game)
            })
            &&& final(game).alpha_call_deck@ == spec_shuffled_deck(shuffle_seed@, 0)
            &&& final(game).governance_deck@ == spec_shuffled_deck(shuffle_seed@, 16)
        },
{
    if caller != game.host {
        return Err(BlockpolyError::HostOnly);
    }
    if !matches!(game.status, GameStatus::WaitingForPlayers) {
        return Err(BlockpolyError::GameNotWaiting);
    }
    if game.player_count < 2 {
        return Err(BlockpolyError::InvalidPlayerCount);
    }

    let mut alpha_deck = identity_deck();
    fisher_yates_shuffle(&mut alpha_deck, shuffle_seed, 0);
    let mut gov_deck = identity_deck();
    fisher_yates_shuffle(&mut gov_deck, shuffle_seed, 16);

    game.alpha_call_deck = alpha_deck;
    game.alpha_call_index = 0;
    game.governance_deck = gov_deck;
    game.governance_index = 0;
    game.status = GameStatus::InProgress;
    game.turn_phase = TurnPhase::RollDice;
    game.current_player_index = 0;
    game.turn_number = 1;
    game.round_number = 1;

    Ok(())
}

/// Pay out the prize pool to the recorded winner of a finished match.
/// Returns the amount the host must move; the pool is emptied.
pub fn claim_prize(game: &mut GameState, caller: u64) -> (r: Result<u64, BlockpolyError>)
    requires
        old(game).wf(),
    ensures
        final(game).wf(),
        r is Err ==> *final(game) == *old(game),
        !(old(game).status is Finished)
            ==> r == Err::<u64, _>(BlockpolyError::GameNotStarted),
        old(game).status is Finished && old(game).winner != Some(caller)
            ==> r == Err::<u64, _>(BlockpolyError::NotPropertyOwner),
        old(game).status is Finished && old(game).winner == Some(caller) ==> {
            &&& r == Ok::<u64, BlockpolyError>(old(game).prize_pool_lamports)
            &&& *final(game) == (GameState { prize_pool_lamports: 0, ..*old(game) })
        },
{
    if !matches!(game.status, GameStatus::Finished) {
        return Err(BlockpolyError::GameNotStarted);
    }
    let is_winner = match game.winner {
        Some(w) => w == caller,
        None => false,
    };
    if !is_winner {
        return Err(BlockpolyError::NotPropertyOwner);
    }
    let prize = game.prize_pool_lamports;
    game.prize_pool_lamports = 0;
    Ok(prize)
}

} // verus!
