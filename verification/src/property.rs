//! Per-space ownership record.  A record exists only once a space has
//! been acquired; a space without a record is bank-owned.

use vstd::prelude::*;
use crate::board::{spec_space, BOARD_SIZE, SPACE_TYPE_PROPERTY};

verus! {

#[derive(Clone, Copy, Debug, PartialEq, Eq, Structural)]
pub struct PropertyState {
    /// Board space index (0-39)
    pub space_index: u8,
    /// Current owner's wallet
    pub owner: u64,
    /// Number of liquidity pools built (0-4)
    pub liquidity_pools: u8,
    /// Whether the property has reached full-protocol status
    pub is_full_protocol: bool,
    /// Whether the property is mortgaged
    pub is_mortgaged: bool,
    /// Ownership-token reference handed out by the token registry
    pub nft_asset: u64,
}

impl PropertyState {
    /// Structural well-formedness, preserved by every engine operation.
    /// Full-protocol status keeps the pool count at 4 for resale-refund
    /// bookkeeping, and buildings exist only on ordinary color-group
    /// properties.
    pub open spec fn wf(self) -> bool {
        &&& self.space_index < BOARD_SIZE
        &&& spec_space(self.space_index as int).spec_is_purchasable()
        &&& self.liquidity_pools <= 4
        &&& (self.is_full_protocol ==> self.liquidity_pools == 4)
        &&& (self.liquidity_pools > 0
            ==> spec_space(self.space_index as int).space_type == SPACE_TYPE_PROPERTY)
    }

    /// A freshly acquired, unimproved, unmortgaged property.
    pub open spec fn spec_new(space_index: u8, owner: u64, nft_asset: u64) -> PropertyState {
        PropertyState {
            space_index,
            owner,
            liquidity_pools: 0,
            is_full_protocol: false,
            is_mortgaged: false,
            nft_asset,
        }
    }

    pub open spec fn spec_has_buildings(self) -> bool {
        self.liquidity_pools > 0 || self.is_full_protocol
    }

    pub fn has_buildings(&self) -> (b: bool)
        ensures b == self.spec_has_buildings(),
    {
        self.liquidity_pools > 0 || self.is_full_protocol
    }

    pub open spec fn spec_can_build_lp(self) -> bool {
        !self.is_mortgaged && !self.is_full_protocol && self.liquidity_pools < 4
    }

    pub fn can_build_lp(&self) -> (b: bool)
        ensures b == self.spec_can_build_lp(),
    {
        !self.is_mortgaged && !self.is_full_protocol && self.liquidity_pools < 4
    }

    pub open spec fn spec_can_upgrade_protocol(self) -> bool {
        !self.is_mortgaged && !self.is_full_protocol && self.liquidity_pools == 4
    }

    pub fn can_upgrade_protocol(&self) -> (b: bool)
        ensures b == self.spec_can_upgrade_protocol(),
    {
        !self.is_mortgaged && !self.is_full_protocol && self.liquidity_pools == 4
    }
}

} // verus!
