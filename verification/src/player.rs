//! Per-participant state: board position, jail state, holdings, flash
//! loan, and the mirrored currency balance.

use vstd::prelude::*;
use crate::board::BOARD_SIZE;

verus! {

#[derive(Clone, Copy, Debug, PartialEq, Eq, Structural)]
pub enum PlayerStatus {
    Active,
    InRugPullZone,
    Bankrupt,
}

#[derive(Clone, Debug)]
pub struct PlayerState {
    /// Player's wallet identity
    pub wallet: u64,
    /// Index in `GameState::players` at join time
    pub player_index: u8,
    /// Player lifecycle status
    pub status: PlayerStatus,
    /// Current board position (0-39)
    pub position: u8,
    /// Number of consecutive doubles this turn
    pub doubles_streak: u8,
    /// Turns remaining in the Rug Pull Zone (0 = not in jail)
    pub rugpull_turns_remaining: u8,
    /// Holds a jail-free card
    pub has_jail_free_card: bool,
    /// Which deck the jail-free card came from: 0 = none, 1 = alpha, 2 = governance
    pub jail_free_card_type: u8,
    /// Space indices of owned properties, in acquisition order, no duplicates
    pub properties_owned: Vec<u8>,
    /// Flash loan tracking
    pub flash_loan_active: bool,
    pub flash_loan_repay_amount: u64,
    pub flash_loan_due_turn: u32,
    /// Set once the player is eliminated
    pub is_bankrupt: bool,
    /// Currency balance mirror (the ledger is the source of truth)
    pub bpoly_balance: u64,
}

impl PlayerState {
    /// Structural well-formedness, preserved by every engine operation.
    pub open spec fn wf(self) -> bool {
        &&& self.position < BOARD_SIZE
        &&& self.doubles_streak < 3
        &&& self.rugpull_turns_remaining <= 3
        &&& (self.rugpull_turns_remaining > 0 <==> self.status is InRugPullZone)
        &&& (self.is_bankrupt <==> self.status is Bankrupt)
        &&& self.jail_free_card_type <= 2
        &&& (self.has_jail_free_card <==> self.jail_free_card_type != 0)
        &&& (forall|i: int, j: int|
            0 <= i < j < self.properties_owned@.len()
                ==> self.properties_owned@[i] != self.properties_owned@[j])
        &&& (forall|i: int|
            0 <= i < self.properties_owned@.len()
                ==> #[trigger] self.properties_owned@[i] < BOARD_SIZE)
    }

    /// A freshly joined player: at the start space, out of jail, holding
    /// nothing but the starting balance.
    pub open spec fn spec_is_new(
        self, wallet: u64, player_index: u8, starting_balance: u64,
    ) -> bool {
        &&& self.wallet == wallet
        &&& self.player_index == player_index
        &&& self.status is Active
        &&& self.position == 0
        &&& self.doubles_streak == 0
        &&& self.rugpull_turns_remaining == 0
        &&& !self.has_jail_free_card
        &&& self.jail_free_card_type == 0
        &&& self.properties_owned@ == Seq::<u8>::empty()
        &&& !self.flash_loan_active
        &&& self.flash_loan_repay_amount == 0
        &&& self.flash_loan_due_turn == 0
        &&& !self.is_bankrupt
        &&& self.bpoly_balance == starting_balance
    }

    pub open spec fn spec_is_in_rugpull(self) -> bool {
        self.rugpull_turns_remaining > 0
    }

    pub fn is_in_rugpull(&self) -> (b: bool)
        ensures b == self.spec_is_in_rugpull(),
    {
        self.rugpull_turns_remaining > 0
    }

    pub fn owns_property(&self, space: u8) -> (b: bool)
        ensures b == self.properties_owned@.contains(space),
    {
        let n = self.properties_owned.len();
        let mut i: usize = 0;
        while i < n
            invariant
                n == self.properties_owned@.len(),
                i <= n,
                forall|j: int| 0 <= j < i ==> self.properties_owned@[j] != space,
            decreases n - i,
        {
            if self.properties_owned[i] == space {
                return true;
            }
            i = i + 1;
        }
        false
    }

    /// Record ownership of a space; a space already held is not added
    /// again.
    pub fn add_property(&mut self, space: u8)
        requires
            old(self).wf(),
            space < BOARD_SIZE,
        ensures
            final(self).wf(),
            old(self).properties_owned@.contains(space)
                ==> *final(self) == *old(self),
            !old(self).properties_owned@.contains(space)
                ==> *final(self) == (PlayerState {
                    properties_owned: final(self).properties_owned,
                    ..*old(self)
                }) && final(self).properties_owned@
                    == old(self).properties_owned@.push(space),
    {
        if !self.owns_property(space) {
            self.properties_owned.push(space);
            proof {
                let oldseq = old(self).properties_owned@;
                let newseq = self.properties_owned@;
                assert forall|i: int, j: int|
                    0 <= i < j < newseq.len()
                    implies newseq[i] != newseq[j] by {
                    if j == newseq.len() - 1 {
                        assert(newseq[i] == oldseq[i]);
                        if oldseq[i] == space {
                            assert(oldseq.contains(space));
                        }
                    } else {
                        assert(newseq[i] == oldseq[i] && newseq[j] == oldseq[j]);
                    }
                }
            }
        }
    }

    /// Drop ownership of a space; holding sets are duplicate-free, so at
    /// most one entry leaves.
    pub fn remove_property(&mut self, space: u8)
        requires
            old(self).wf(),
        ensures
            final(self).wf(),
            *final(self) == (PlayerState {
                properties_owned: final(self).properties_owned,
                ..*old(self)
            }),
            final(self).properties_owned@
                == old(self).properties_owned@.remove_value(space),
            !final(self).properties_owned@.contains(space),
    {
        let n = self.properties_owned.len();
        let mut i: usize = 0;
        while i < n
            invariant
                *self == *old(self),
                old(self).wf(),
                n == self.properties_owned@.len(),
                i <= n,
                forall|j: int| 0 <= j < i ==> self.properties_owned@[j] != space,
            decreases n - i,
        {
            if self.properties_owned[i] == space {
                proof {
                    self.properties_owned@.index_of_first_ensures(space);
                    assert(self.properties_owned@.index_of_first(space) == Some(i as int));
                }
                let ghost before = self.properties_owned@;
                let _removed: u8 = self.properties_owned.remove(i);
                proof {
                    assert(self.properties_owned@ == before.remove_value(space));
                    before.remove_ensures(i as int);
                    let newseq = self.properties_owned@;
                    assert forall|k: int|
                        0 <= k < newseq.len() implies #[trigger] newseq[k] != space by {
                        if k >= i {
                            assert(newseq[k] == before[k + 1]);
                        }
                    }
                    assert forall|p: int, q: int|
                        0 <= p < q < newseq.len()
                        implies newseq[p] != newseq[q] by {
                        if q < i {
                        } else if p < i {
                            assert(newseq[q] == before[q + 1]);
                        } else {
                            assert(newseq[p] == before[p + 1] && newseq[q] == before[q + 1]);
                        }
                    }
                    assert forall|k: int|
                        0 <= k < newseq.len() implies #[trigger] newseq[k] < BOARD_SIZE by {
                        if k >= i {
                            assert(newseq[k] == before[k + 1]);
                        }
                    }
                }
                return;
            }
            i = i + 1;
        }
        proof {
            self.properties_owned@.index_of_first_ensures(space);
            assert(!self.properties_owned@.contains(space));
            assert(self.properties_owned@.remove_value(space) == self.properties_owned@);
        }
    }
}

} // verus!
