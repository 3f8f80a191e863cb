//! Voluntary bankruptcy: the declaring player leaves the rotation; a
//! match with one survivor finishes with that survivor as winner.
//! Property transfers to a creditor or back to the bank run through
//! the host's property scan, outside the engine.

use vstd::prelude::*;
use crate::errors::BlockpolyError;
use crate::game::{GameState, GameStatus, TurnPhase};
use crate::player::{PlayerState, PlayerStatus};

verus! {

/// First position of a wallet in the rotation, if it is there.
fn index_of_wallet(players: &Vec<u64>, wallet: u64) -> (r: Option<usize>)
    ensures
        match r {
            Some(i) => i < players@.len() && players@[i as int] == wallet
                && (forall|j: int| 0 <= j < i ==> players@[j] != wallet),
            None => !players@.contains(wallet),
        },
{
    let n = players.len();
    let mut i: usize = 0;
    while i < n
        invariant
            n == players@.len(),
            i <= n,
            forall|j: int| 0 <= j < i ==> players@[j] != wallet,
        decreases n - i,
    {
        if players[i] == wallet {
            return Some(i);
        }
        i = i + 1;
    }
    None
}

/// Declare bankruptcy for `player`, removing it from the rotation.
/// Any running auction dies with the rotation change.  When exactly
/// one active player remains, the game finishes and records the
/// survivor as winner; otherwise play rotates to the next survivor.
pub fn declare_bankruptcy(
    game: &mut GameState, player: &mut PlayerState, _creditor: Option<u64>,
) -> (r: Result<(), BlockpolyError>)
    requires
        old(game).wf(),
        old(player).wf(),
        old(game).players@.contains(old(player).wallet),
        old(game).turn_number < u32::MAX,
        old(game).round_number < u32::MAX,
    ensures
        final(game).wf(),
        final(player).wf(),
        r is Err ==> *final(game) == *old(game) && *final(player) == *old(player),
        !(old(game).status is InProgress)
            ==> r == Err::<(), _>(BlockpolyError::GameNotStarted),
        old(game).status is InProgress && old(player).is_bankrupt
            ==> r == Err::<(), _>(BlockpolyError::PlayerBankrupt),
        old(game).status is InProgress && !old(player).is_bankrupt ==> {
            &&& r is Ok
            &&& *final(player) == (PlayerState {
                is_bankrupt: true,
                status: PlayerStatus::Bankrupt,
                rugpull_turns_remaining: 0,
                ..*old(player)
            })
            &&& final(game).players@
                == old(game).players@.remove_value(old(player).wallet)
            &&& final(game).players@.len() == old(game).players@.len() - 1
            &&& final(game).player_count == old(game).player_count - 1
            &&& (old(game).player_count == 2 ==> {
                &&& final(game).status is Finished
                &&& final(game).winner == Some(final(game).players@[0])
                &&& *final(game) == (GameState {
                    players: final(game).players,
                    player_count: 1,
                    auction_space: None,
                    auction_highest_bid: 0,
                    auction_highest_bidder: None,
                    auction_end_turn: 0,
                    status: GameStatus::Finished,
                    turn_phase: TurnPhase::Finished,
                    current_player_index: 0,
                    winner: final(game).winner,
                    ..*old(game)
                })
            })
            &&& (old(game).player_count > 2 ==> {
                &&& final(game).status is InProgress
                &&& *final(game) == (GameState {
                    players: final(game).players,
                    player_count: (old(game).player_count - 1) as u8,
                    current_player_index: ((old(game).current_player_index as int)
                        % (old(game).player_count - 1)) as u8,
                    auction_space: None,
                    auction_highest_bid: 0,
                    auction_highest_bidder: None,
                    auction_end_turn: 0,
                    turn_phase: TurnPhase::RollDice,
                    ..*old(game)
                }).spec_advanced()
            })
        },
{
    if !matches!(game.status, GameStatus::InProgress) {
        return Err(BlockpolyError::GameNotStarted);
    }
    if player.is_bankrupt {
        return Err(BlockpolyError::PlayerBankrupt);
    }

    player.is_bankrupt = true;
    player.status = PlayerStatus::Bankrupt;
    player.rugpull_turns_remaining = 0;

    // Remove the wallet from the rotation (it occurs exactly once).
    let wallet = player.wallet;
    let i = match index_of_wallet(&game.players, wallet) {
        Some(i) => i,
        None => {
            proof {
                assert(false);
            }
            0
        },
    };
    proof {
        game.players@.index_of_first_ensures(wallet);
        assert(game.players@.index_of_first(wallet) == Some(i as int));
        game.players@.remove_ensures(i as int);
    }
    let ghost before = game.players@;
    let _removed: u64 = game.players.remove(i);
    proof {
        assert(game.players@ == before.remove_value(wallet));
        let newseq = game.players@;
        assert forall|p: int, q: int|
            0 <= p < q < newseq.len()
            implies newseq[p] != newseq[q] by {
            if q < i {
            } else if p < i {
                assert(newseq[q] == before[q + 1]);
            } else {
                assert(newseq[p] == before[p + 1] && newseq[q] == before[q + 1]);
            }
        }
    }

    game.player_count = game.player_count - 1;
    game.auction_space = None;
    game.auction_highest_bid = 0;
    game.auction_highest_bidder = None;
    game.auction_end_turn = 0;

    if game.player_count == 1 {
        game.winner = Some(game.players[0]);
        game.status = GameStatus::Finished;
        game.turn_phase = TurnPhase::Finished;
        game.current_player_index = 0;
    } else {
        game.current_player_index = game.current_player_index % game.player_count;
        game.turn_phase = TurnPhase::RollDice;
        game.advance_turn();
    }

    Ok(())
}

} // verus!
