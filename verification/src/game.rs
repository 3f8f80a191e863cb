//! The per-match game record: status, turn phase, player rotation, card
//! decks, the global Bull Run event, the inline auction record, and the
//! last-rent memo.

use vstd::prelude::*;
use crate::board::BOARD_SIZE;

verus! {

pub const MAX_PLAYERS: u8 = 8;

/// Starting balance handed to each joining player (micro-units)
pub const STARTING_BALANCE: u64 = 1_500_000_000;
/// Salary granted at the start space (micro-units)
pub const GENESIS_SALARY: u64 = 200_000_000;

/// Rug Pull (jail) parameters
pub const RUGPULL_MAX_TURNS: u8 = 3;
pub const RUGPULL_BAIL_AMOUNT: u64 = 50_000_000;

/// Flash loan parameters (micro-units)
pub const FLASH_LOAN_AMOUNT: u64 = 200_000_000;
pub const FLASH_LOAN_REPAY: u64 = 210_000_000;

/// Card deck sizes
pub const ALPHA_CALL_DECK_SIZE: u8 = 16;
pub const GOVERNANCE_DECK_SIZE: u8 = 16;

/// How many turns an auction stays open after the latest bid
pub const AUCTION_DURATION_TURNS: u32 = 3;

#[derive(Clone, Copy, Debug, PartialEq, Eq, Structural)]
pub enum GameStatus {
    WaitingForPlayers,
    InProgress,
    Finished,
}

#[derive(Clone, Copy, Debug, PartialEq, Eq, Structural)]
pub enum TurnPhase {
    RollDice,
    AwaitingVRF,
    LandingEffect,
    DrawCard,
    RugPullDecision,
    AuctionPhase,
    BuyDecision,
    Finished,
}

/// One currency movement against the external value ledger, reported to
/// the host for execution; the engine only mirrors balances.
#[derive(Clone, Copy, Debug, PartialEq, Eq, Structural)]
pub enum CashFlow {
    NoTransfer,
    /// Bank pays the player this amount
    FromBank(u64),
    /// Player pays the bank this amount
    ToBank(u64),
}

/// Saturating addition, as balance mirrors are credited.
pub open spec fn spec_sat_add(a: u64, b: u64) -> u64 {
    if a + b <= u64::MAX {
        (a + b) as u64
    } else {
        u64::MAX
    }
}

pub fn sat_add(a: u64, b: u64) -> (r: u64)
    ensures r == spec_sat_add(a, b),
{
    if a <= u64::MAX - b {
        a + b
    } else {
        u64::MAX
    }
}

/// Saturating multiplication, as card charges scale caller-supplied
/// aggregates.
pub open spec fn spec_sat_mul(a: u64, b: u64) -> u64 {
    if a * b <= u64::MAX {
        (a * b) as u64
    } else {
        u64::MAX
    }
}

pub fn sat_mul(a: u64, b: u64) -> (r: u64)
    ensures r == spec_sat_mul(a, b),
{
    proof {
        assert((a as int) * (b as int) <= u128::MAX) by (nonlinear_arith)
            requires a <= u64::MAX && b <= u64::MAX;
    }
    let wide = (a as u128) * (b as u128);
    if wide <= u64::MAX as u128 {
        wide as u64
    } else {
        u64::MAX
    }
}

#[derive(Clone, Debug)]
pub struct GameState {
    /// Unique game identifier
    pub game_id: u64,
    /// Host wallet
    pub host: u64,
    /// Current game status
    pub status: GameStatus,
    /// Current turn phase
    pub turn_phase: TurnPhase,
    /// Index of the player whose turn it is
    pub current_player_index: u8,
    /// Total turns elapsed
    pub turn_number: u32,
    /// Full round number (increments when the rotation wraps)
    pub round_number: u32,
    /// Ordered list of player wallets
    pub players: Vec<u64>,
    pub player_count: u8,
    pub max_players: u8,
    /// Pending randomness request marker (set while awaiting the callback)
    pub vrf_request: Option<u64>,
    /// Dice pair recorded by the randomness callback
    pub pending_dice: Option<(u8, u8)>,
    /// Card recorded by a draw, awaiting resolution: (deck, card id)
    pub pending_card: Option<(u8, u8)>,
    /// Alpha Call deck (shuffled card ids 0-15) and its draw cursor
    pub alpha_call_deck: Vec<u8>,
    pub alpha_call_index: u8,
    /// Governance Vote deck (shuffled card ids 0-15) and its draw cursor
    pub governance_deck: Vec<u8>,
    pub governance_index: u8,
    /// Global event: Bull Run doubles unimproved rent until the given round
    pub bull_run_active: bool,
    pub bull_run_ends_round: u32,
    /// Inline auction record, present exactly while the auction phase is active
    pub auction_space: Option<u8>,
    pub auction_highest_bid: u64,
    pub auction_highest_bidder: Option<u64>,
    pub auction_end_turn: u32,
    /// Prize pool (entry fees), paid to the winner
    pub prize_pool_lamports: u64,
    /// Winner, set when the game finishes
    pub winner: Option<u64>,
    /// Last rent payment memo, consumed by one card effect
    pub last_rent_payer: Option<u64>,
    pub last_rent_amount: u64,
}

/// A deck holds exactly 16 card ids, each below 16.
pub open spec fn deck_wf(deck: Seq<u8>) -> bool {
    &&& deck.len() == 16
    &&& forall|i: int| 0 <= i < 16 ==> #[trigger] deck[i] < 16
}

impl GameState {
    /// Structural well-formedness, preserved by every engine operation.
    pub open spec fn wf(self) -> bool {
        &&& self.players@.len() == self.player_count
        &&& self.player_count <= self.max_players
        &&& 2 <= self.max_players <= MAX_PLAYERS
        &&& (self.player_count > 0 ==> self.current_player_index < self.player_count)
        &&& (self.status is InProgress ==> self.player_count >= 2)
        &&& (self.status is WaitingForPlayers ==> {
            &&& self.current_player_index == 0
            &&& self.turn_phase is RollDice
            &&& self.auction_space is None
            &&& self.pending_dice is None
            &&& self.pending_card is None
        })
        &&& deck_wf(self.alpha_call_deck@)
        &&& deck_wf(self.governance_deck@)
        &&& self.alpha_call_index < 16
        &&& self.governance_index < 16
        &&& (self.turn_phase is AuctionPhase <==> self.auction_space is Some)
        &&& (self.auction_space matches Some(s)
            ==> s < BOARD_SIZE && crate::board::spec_space(s as int).spec_is_purchasable())
        &&& (self.pending_dice matches Some(d) ==> 1 <= d.0 <= 6 && 1 <= d.1 <= 6)
        &&& (self.pending_card matches Some(c) ==> c.0 <= 1 && c.1 < 16)
        &&& (forall|i: int, j: int|
            0 <= i < j < self.players@.len() ==> self.players@[i] != self.players@[j])
    }

    /// The wallet whose turn it is, when any player has joined.
    pub open spec fn spec_current_player(self) -> Option<u64> {
        if self.player_count > 0 {
            Some(self.players@[self.current_player_index as int])
        } else {
            None
        }
    }

    pub fn current_player(&self) -> (r: Option<u64>)
        requires self.wf(),
        ensures r == self.spec_current_player(),
    {
        if (self.current_player_index as usize) < self.players.len() {
            Some(self.players[self.current_player_index as usize])
        } else {
            None
        }
    }

    /// The rotation index after this turn.
    pub open spec fn spec_next_index(self) -> u8
        recommends self.player_count > 0,
    {
        (((self.current_player_index + 1) as int) % (self.player_count as int)) as u8
    }

    /// The game as it stands after the turn advances: next player, next
    /// turn number, a fresh round when the rotation wraps, phase back to
    /// rolling dice, transient dice and card buffers cleared.
    pub open spec fn spec_advanced(self) -> GameState {
        GameState {
            turn_number: (self.turn_number + 1) as u32,
            round_number: if self.spec_next_index() == 0 {
                (self.round_number + 1) as u32
            } else {
                self.round_number
            },
            current_player_index: self.spec_next_index(),
            turn_phase: TurnPhase::RollDice,
            pending_dice: None,
            pending_card: None,
            ..self
        }
    }

    /// Rotate the turn to the next player.
    pub fn advance_turn(&mut self)
        requires
            old(self).wf(),
            old(self).status is InProgress,
            old(self).player_count > 0,
            old(self).turn_number < u32::MAX,
            old(self).round_number < u32::MAX,
            old(self).auction_space is None,
        ensures
            final(self).wf(),
            *final(self) == old(self).spec_advanced(),
    {
        self.turn_number = self.turn_number + 1;
        let next = (self.current_player_index + 1) % self.player_count;
        if next == 0 {
            self.round_number = self.round_number + 1;
        }
        self.current_player_index = next;
        self.turn_phase = TurnPhase::RollDice;
        self.pending_dice = None;
        self.pending_card = None;
    }

    /// Whether a wallet is in the participant list.
    pub fn player_listed(&self, wallet: u64) -> (b: bool)
        ensures b == self.players@.contains(wallet),
    {
        let n = self.players.len();
        let mut i: usize = 0;
        while i < n
            invariant
                n == self.players@.len(),
                i <= n,
                forall|j: int| 0 <= j < i ==> self.players@[j] != wallet,
            decreases n - i,
        {
            if self.players[i] == wallet {
                return true;
            }
            i = i + 1;
        }
        false
    }

    /// Draw the card under the Alpha Call cursor and advance the cursor
    /// cyclically.
    pub fn next_alpha_card(&mut self) -> (card: u8)
        requires old(self).wf(),
        ensures
            final(self).wf(),
            card == old(self).alpha_call_deck@[old(self).alpha_call_index as int],
            card < 16,
            *final(self) == (GameState {
                alpha_call_index: (((old(self).alpha_call_index + 1) as int) % 16) as u8,
                ..*old(self)
            }),
    {
        let card = self.alpha_call_deck[self.alpha_call_index as usize];
        self.alpha_call_index = (self.alpha_call_index + 1) % 16;
        card
    }

    /// Draw the card under the Governance Vote cursor and advance the
    /// cursor cyclically.
    pub fn next_governance_card(&mut self) -> (card: u8)
        requires old(self).wf(),
        ensures
            final(self).wf(),
            card == old(self).governance_deck@[old(self).governance_index as int],
            card < 16,
            *final(self) == (GameState {
                governance_index: (((old(self).governance_index + 1) as int) % 16) as u8,
                ..*old(self)
            }),
    {
        let card = self.governance_deck[self.governance_index as usize];
        self.governance_index = (self.governance_index + 1) % 16;
        card
    }
}

/// Draw cursors cycle with period 16: any 16 consecutive draws visit
/// every deck position exactly once, and the cursor returns to where it
/// started.
pub proof fn lemma_draw_cursor_period(start: u8)
    requires start < 16,
    ensures
        ((start + 16) as int) % 16 == start as int,
        forall|k1: int, k2: int|
            0 <= k1 < k2 < 16
                ==> #[trigger] ((start + k1) % 16) != #[trigger] ((start + k2) % 16),
{
    assert forall|k1: int, k2: int|
        0 <= k1 < k2 < 16 implies
            #[trigger] ((start + k1) % 16) != #[trigger] ((start + k2) % 16) by {
        let s = start as int;
        assert((s + k1) % 16 == if s + k1 < 16 { s + k1 } else { s + k1 - 16 });
        assert((s + k2) % 16 == if s + k2 < 16 { s + k2 } else { s + k2 - 16 });
    }
}

} // verus!
