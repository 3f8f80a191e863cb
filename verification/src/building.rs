//! The building economy: adding liquidity pools one at a time under
//! the complete-set and even-building rules, capping a property with
//! full-protocol status, and selling pools back at half cost.

use vstd::prelude::*;
use crate::board::{spec_group_spaces, spec_space, space_at, group_spaces, SPACE_TYPE_PROPERTY};
use crate::errors::BlockpolyError;
use crate::game::{spec_sat_add, sat_add, GameState, GameStatus};
use crate::player::PlayerState;
use crate::property::PropertyState;

verus! {

/// The player holds every space of the color group.
pub open spec fn spec_owns_full_group(player: PlayerState, group: u8) -> bool {
    forall|i: int| 0 <= i < spec_group_spaces(group).len()
        ==> player.properties_owned@.contains(#[trigger] spec_group_spaces(group)[i])
}

/// Whether the player holds every space of the color group.
pub fn owns_full_group(player: &PlayerState, group: u8) -> (b: bool)
    ensures b == spec_owns_full_group(*player, group),
{
    let members = group_spaces(group);
    let n = members.len();
    let mut i: usize = 0;
    while i < n
        invariant
            n == members@.len(),
            members@ == spec_group_spaces(group),
            i <= n,
            forall|j: int| 0 <= j < i
                ==> player.properties_owned@.contains(#[trigger] members@[j]),
        decreases n - i,
    {
        if !player.owns_property(members[i]) {
            return false;
        }
        i = i + 1;
    }
    true
}

/// Every sibling pool count is at least `lps` (the even-building rule).
pub open spec fn spec_even_building(siblings: Seq<u8>, lps: u8) -> bool {
    forall|i: int| 0 <= i < siblings.len() ==> #[trigger] siblings[i] >= lps
}

fn check_even_building(siblings: &Vec<u8>, lps: u8) -> (b: bool)
    ensures b == spec_even_building(siblings@, lps),
{
    let n = siblings.len();
    let mut i: usize = 0;
    while i < n
        invariant
            n == siblings@.len(),
            i <= n,
            forall|j: int| 0 <= j < i ==> #[trigger] siblings@[j] >= lps,
        decreases n - i,
    {
        if siblings[i] < lps {
            return false;
        }
        i = i + 1;
    }
    true
}

/// Build one liquidity pool on an owned property.  The caller supplies
/// the pool counts of the other properties of the group for the
/// even-building rule.  The returned cost moves from the player to the
/// bank.
pub fn build_lp(
    game: &GameState, player: &mut PlayerState, property: &mut PropertyState,
    space_index: u8, sibling_lp_counts: &Vec<u8>,
) -> (r: Result<u64, BlockpolyError>)
    requires
        game.wf(),
        old(player).wf(),
        old(property).wf(),
    ensures
        final(player).wf(),
        final(property).wf(),
        r is Err ==> *final(player) == *old(player) && *final(property) == *old(property),
        !(game.status is InProgress)
            ==> r == Err::<u64, _>(BlockpolyError::GameNotStarted),
        ({
            let valid = game.status is InProgress;
            let space = spec_space(space_index as int);
            &&& (valid && space_index != old(property).space_index
                ==> r == Err::<u64, _>(BlockpolyError::InvalidSpaceIndex))
            &&& (valid && space_index == old(property).space_index
                && old(property).is_mortgaged
                ==> r == Err::<u64, _>(BlockpolyError::PropertyMortgaged))
            &&& (valid && space_index == old(property).space_index
                && !old(property).is_mortgaged
                && !old(property).spec_can_build_lp()
                ==> r == Err::<u64, _>(BlockpolyError::MaxLPsReached))
            &&& (valid && space_index == old(property).space_index
                && !old(property).is_mortgaged
                && old(property).spec_can_build_lp()
                && old(property).owner != old(player).wallet
                ==> r == Err::<u64, _>(BlockpolyError::NotPropertyOwner))
            &&& ({
                let checks = valid && space_index == old(property).space_index
                    && !old(property).is_mortgaged
                    && old(property).spec_can_build_lp()
                    && old(property).owner == old(player).wallet;
                &&& (checks && space.space_type != SPACE_TYPE_PROPERTY
                    ==> r == Err::<u64, _>(BlockpolyError::PropertyNotAvailable))
                &&& (checks && space.space_type == SPACE_TYPE_PROPERTY
                    && !spec_owns_full_group(*old(player), space.group)
                    ==> r == Err::<u64, _>(BlockpolyError::IncompleteColorSet))
                &&& (checks && space.space_type == SPACE_TYPE_PROPERTY
                    && spec_owns_full_group(*old(player), space.group)
                    && !spec_even_building(sibling_lp_counts@, old(property).liquidity_pools)
                    ==> r == Err::<u64, _>(BlockpolyError::UnevenBuilding))
                &&& (checks && space.space_type == SPACE_TYPE_PROPERTY
                    && spec_owns_full_group(*old(player), space.group)
                    && spec_even_building(sibling_lp_counts@, old(property).liquidity_pools)
                    && old(player).bpoly_balance < space.lp_cost
                    ==> r == Err::<u64, _>(BlockpolyError::InsufficientBalance))
                &&& (checks && space.space_type == SPACE_TYPE_PROPERTY
                    && spec_owns_full_group(*old(player), space.group)
                    && spec_even_building(sibling_lp_counts@, old(property).liquidity_pools)
                    && old(player).bpoly_balance >= space.lp_cost ==> {
                    &&& r == Ok::<u64, BlockpolyError>(space.lp_cost)
                    &&& *final(player) == (PlayerState {
                        bpoly_balance: (old(player).bpoly_balance - space.lp_cost) as u64,
                        ..*old(player)
                    })
                    &&& *final(property) == (PropertyState {
                        liquidity_pools: (old(property).liquidity_pools + 1) as u8,
                        ..*old(property)
                    })
                })
            })
        }),
{
    if !matches!(game.status, GameStatus::InProgress) {
        return Err(BlockpolyError::GameNotStarted);
    }
    if space_index != property.space_index {
        return Err(BlockpolyError::InvalidSpaceIndex);
    }
    if property.is_mortgaged {
        return Err(BlockpolyError::PropertyMortgaged);
    }
    if !property.can_build_lp() {
        return Err(BlockpolyError::MaxLPsReached);
    }
    if property.owner != player.wallet {
        return Err(BlockpolyError::NotPropertyOwner);
    }
    let space = space_at(space_index);
    if space.space_type != SPACE_TYPE_PROPERTY {
        return Err(BlockpolyError::PropertyNotAvailable);
    }
    if !owns_full_group(player, space.group) {
        return Err(BlockpolyError::IncompleteColorSet);
    }
    if !check_even_building(sibling_lp_counts, property.liquidity_pools) {
        return Err(BlockpolyError::UnevenBuilding);
    }
    let lp_cost = space.lp_cost;
    if player.bpoly_balance < lp_cost {
        return Err(BlockpolyError::InsufficientBalance);
    }

    player.bpoly_balance = player.bpoly_balance - lp_cost;
    property.liquidity_pools = property.liquidity_pools + 1;
    Ok(lp_cost)
}

/// Cap a fully built property with full-protocol status, at the cost
/// of one more pool.  The returned cost moves from the player to the
/// bank.
pub fn build_protocol(
    player: &mut PlayerState, property: &mut PropertyState, space_index: u8,
) -> (r: Result<u64, BlockpolyError>)
    requires
        old(player).wf(),
        old(property).wf(),
    ensures
        final(player).wf(),
        final(property).wf(),
        r is Err ==> *final(player) == *old(player) && *final(property) == *old(property),
        ({
            let space = spec_space(space_index as int);
            &&& (space_index != old(property).space_index
                ==> r == Err::<u64, _>(BlockpolyError::InvalidSpaceIndex))
            &&& (space_index == old(property).space_index
                && old(property).owner != old(player).wallet
                ==> r == Err::<u64, _>(BlockpolyError::NotPropertyOwner))
            &&& ({
                let checks = space_index == old(property).space_index
                    && old(property).owner == old(player).wallet;
                &&& (checks && old(property).is_full_protocol
                    ==> r == Err::<u64, _>(BlockpolyError::MaxProtocolReached))
                &&& (checks && !old(property).is_full_protocol
                    && !old(property).spec_can_upgrade_protocol()
                    ==> r == Err::<u64, _>(BlockpolyError::UnevenBuilding))
                &&& (checks && !old(property).is_full_protocol
                    && old(property).spec_can_upgrade_protocol()
                    && old(player).bpoly_balance < space.lp_cost
                    ==> r == Err::<u64, _>(BlockpolyError::InsufficientBalance))
                &&& (checks && !old(property).is_full_protocol
                    && old(property).spec_can_upgrade_protocol()
                    && old(player).bpoly_balance >= space.lp_cost ==> {
                    &&& r == Ok::<u64, BlockpolyError>(space.lp_cost)
                    &&& *final(player) == (PlayerState {
                        bpoly_balance: (old(player).bpoly_balance - space.lp_cost) as u64,
                        ..*old(player)
                    })
                    &&& *final(property) == (PropertyState {
                        is_full_protocol: true,
                        liquidity_pools: 4,
                        ..*old(property)
                    })
                })
            })
        }),
{
    if space_index != property.space_index {
        return Err(BlockpolyError::InvalidSpaceIndex);
    }
    if property.owner != player.wallet {
        return Err(BlockpolyError::NotPropertyOwner);
    }
    if property.is_full_protocol {
        return Err(BlockpolyError::MaxProtocolReached);
    }
    if !property.can_upgrade_protocol() {
        return Err(BlockpolyError::UnevenBuilding);
    }
    let space = space_at(space_index);
    let lp_cost = space.lp_cost;
    if player.bpoly_balance < lp_cost {
        return Err(BlockpolyError::InsufficientBalance);
    }

    player.bpoly_balance = player.bpoly_balance - lp_cost;
    property.is_full_protocol = true;
    property.liquidity_pools = 4;
    Ok(lp_cost)
}

/// Sell one building step back to the bank at half the build cost:
/// full-protocol status first, then pools one at a time.  The returned
/// refund moves from the bank to the player.
pub fn sell_lp(
    player: &mut PlayerState, property: &mut PropertyState, space_index: u8,
) -> (r: Result<u64, BlockpolyError>)
    requires
        old(player).wf(),
        old(property).wf(),
    ensures
        final(player).wf(),
        final(property).wf(),
        r is Err ==> *final(player) == *old(player) && *final(property) == *old(property),
        ({
            let space = spec_space(space_index as int);
            let refund = space.lp_cost / 2;
            &&& (space_index != old(property).space_index
                ==> r == Err::<u64, _>(BlockpolyError::InvalidSpaceIndex))
            &&& (space_index == old(property).space_index
                && old(property).owner != old(player).wallet
                ==> r == Err::<u64, _>(BlockpolyError::NotPropertyOwner))
            &&& (space_index == old(property).space_index
                && old(property).owner == old(player).wallet
                && !old(property).spec_has_buildings()
                ==> r == Err::<u64, _>(BlockpolyError::WrongTurnPhase))
            &&& (space_index == old(property).space_index
                && old(property).owner == old(player).wallet
                && old(property).spec_has_buildings() ==> {
                &&& r == Ok::<u64, BlockpolyError>(refund)
                &&& *final(player) == (PlayerState {
                    bpoly_balance: spec_sat_add(old(player).bpoly_balance, refund),
                    ..*old(player)
                })
                &&& *final(property) == if old(property).is_full_protocol {
                    (PropertyState { is_full_protocol: false, ..*old(property) })
                } else {
                    (PropertyState {
                        liquidity_pools: (old(property).liquidity_pools - 1) as u8,
                        ..*old(property)
                    })
                }
            })
        }),
{
    if space_index != property.space_index {
        return Err(BlockpolyError::InvalidSpaceIndex);
    }
    if property.owner != player.wallet {
        return Err(BlockpolyError::NotPropertyOwner);
    }
    if !property.has_buildings() {
        return Err(BlockpolyError::WrongTurnPhase);
    }
    let space = space_at(space_index);
    let refund = space.lp_cost / 2;

    if property.is_full_protocol {
        property.is_full_protocol = false;
    } else {
        property.liquidity_pools = property.liquidity_pools - 1;
    }
    player.bpoly_balance = sat_add(player.bpoly_balance, refund);
    Ok(refund)
}

} // verus!
