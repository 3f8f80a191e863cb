//! A bilateral trade offer: one outstanding offer per proposer, settled
//! by accept (atomic swap), reject, or silent expiry.

use vstd::prelude::*;
use crate::board::BOARD_SIZE;

verus! {

#[derive(Clone, Debug)]
pub struct TradeOffer {
    /// Player proposing the trade
    pub proposer: u64,
    /// Player receiving the trade offer
    pub recipient: u64,
    /// Space indices of properties the proposer offers
    pub offered_properties: Vec<u8>,
    /// Currency offered by the proposer (micro-units)
    pub offered_bpoly: u64,
    /// Space indices of properties requested from the recipient
    pub requested_properties: Vec<u8>,
    /// Currency requested from the recipient (micro-units)
    pub requested_bpoly: u64,
    /// Turn number after which this offer expires
    pub expires_turn: u32,
    /// Whether a jail-free card is offered
    pub offered_jail_free: bool,
    /// Whether a jail-free card is requested
    pub requested_jail_free: bool,
}

impl TradeOffer {
    pub open spec fn wf(self) -> bool {
        &&& (forall|i: int|
            0 <= i < self.offered_properties@.len()
                ==> #[trigger] self.offered_properties@[i] < BOARD_SIZE)
        &&& (forall|i: int|
            0 <= i < self.requested_properties@.len()
                ==> #[trigger] self.requested_properties@[i] < BOARD_SIZE)
        &&& self.proposer != self.recipient
    }
}

} // verus!
