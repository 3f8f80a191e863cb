//! Immutable board definition: 40 spaces, color groups, rent tables.
//!
//! All currency amounts are in micro-units; one display unit is
//! 1_000_000 micro-units.  The table is given twice, once as a spec
//! function (`spec_space`) that contracts throughout the crate refer to,
//! and once as an executable lookup (`space_at`) proved equal to it.

use vstd::prelude::*;

verus! {

/// One display currency unit in micro-units
pub const MICRO: u64 = 1_000_000;

pub const BOARD_SIZE: u8 = 40;

// Space types
pub const SPACE_TYPE_PROPERTY: u8 = 0;
pub const SPACE_TYPE_CARD_ALPHA: u8 = 1;
pub const SPACE_TYPE_CARD_GOVERNANCE: u8 = 2;
pub const SPACE_TYPE_TAX: u8 = 3;
pub const SPACE_TYPE_BRIDGE: u8 = 4;
pub const SPACE_TYPE_UTILITY: u8 = 5;
pub const SPACE_TYPE_RUGPULL: u8 = 6;
pub const SPACE_TYPE_GO_TO_JAIL: u8 = 7;
pub const SPACE_TYPE_FREE_PARKING: u8 = 8;
pub const SPACE_TYPE_GENESIS: u8 = 9;

// Color groups
pub const GROUP_BROWN: u8 = 0;
pub const GROUP_LIGHT_BLUE: u8 = 1;
pub const GROUP_PINK: u8 = 2;
pub const GROUP_ORANGE: u8 = 3;
pub const GROUP_RED: u8 = 4;
pub const GROUP_YELLOW: u8 = 5;
pub const GROUP_GREEN: u8 = 6;
pub const GROUP_DARK_BLUE: u8 = 7;
pub const GROUP_BRIDGE: u8 = 8;
pub const GROUP_UTILITY: u8 = 9;
pub const GROUP_NONE: u8 = 255;

// Cost of building one liquidity pool, per color group (micro-units)
pub const LP_COST_BROWN: u64 = 50_000_000;
pub const LP_COST_LIGHT_BLUE: u64 = 50_000_000;
pub const LP_COST_PINK: u64 = 100_000_000;
pub const LP_COST_ORANGE: u64 = 100_000_000;
pub const LP_COST_RED: u64 = 150_000_000;
pub const LP_COST_YELLOW: u64 = 150_000_000;
pub const LP_COST_GREEN: u64 = 200_000_000;
pub const LP_COST_DARK_BLUE: u64 = 200_000_000;

// Special board positions
pub const SPACE_GENESIS: u8 = 0;
pub const SPACE_RUGPULL_ZONE: u8 = 10;
pub const SPACE_DEFI_SUMMER: u8 = 20;
pub const SPACE_SEC_INVESTIGATION: u8 = 30;

/// Complete definition of a single board space.
#[derive(Clone, Copy, Debug, PartialEq, Eq, Structural)]
pub struct SpaceData {
    pub index: u8,
    pub space_type: u8,
    pub group: u8,
    /// Purchase price (0 if not purchasable)
    pub price: u64,
    /// Base rent when unimproved; for tax spaces, the tax amount
    pub base_rent: u64,
    /// Rent with 1, 2, 3 or 4 liquidity pools
    pub lp_rent1: u64,
    pub lp_rent2: u64,
    pub lp_rent3: u64,
    pub lp_rent4: u64,
    /// Rent at full-protocol status
    pub protocol_rent: u64,
    /// Mortgage value (half the price)
    pub mortgage_value: u64,
    /// Cost to build one liquidity pool
    pub lp_cost: u64,
    /// Bridge rents when the owner holds 1, 2, 3 or 4 bridges
    pub bridge_rent1: u64,
    pub bridge_rent2: u64,
    pub bridge_rent3: u64,
    pub bridge_rent4: u64,
}

impl SpaceData {
    /// Rent tier for an improved ordinary property with `lps` pools built.
    pub open spec fn spec_lp_rent(self, lps: u8) -> u64
        recommends 1 <= lps <= 4,
    {
        if lps <= 1 {
            self.lp_rent1
        } else if lps == 2 {
            self.lp_rent2
        } else if lps == 3 {
            self.lp_rent3
        } else {
            self.lp_rent4
        }
    }

    pub fn lp_rent(&self, lps: u8) -> (r: u64)
        ensures r == self.spec_lp_rent(lps),
    {
        if lps <= 1 {
            self.lp_rent1
        } else if lps == 2 {
            self.lp_rent2
        } else if lps == 3 {
            self.lp_rent3
        } else {
            self.lp_rent4
        }
    }

    /// Bridge rent tier indexed by how many bridges the owner holds
    /// (tier `min(owned - 1, 3)`; zero and one owned both select the
    /// first tier).
    pub open spec fn spec_bridge_rent(self, owned: u8) -> u64 {
        if owned <= 1 {
            self.bridge_rent1
        } else if owned == 2 {
            self.bridge_rent2
        } else if owned == 3 {
            self.bridge_rent3
        } else {
            self.bridge_rent4
        }
    }

    pub fn bridge_rent(&self, owned: u8) -> (r: u64)
        ensures r == self.spec_bridge_rent(owned),
    {
        if owned <= 1 {
            self.bridge_rent1
        } else if owned == 2 {
            self.bridge_rent2
        } else if owned == 3 {
            self.bridge_rent3
        } else {
            self.bridge_rent4
        }
    }

    /// A space a player can own: an ordinary property, a bridge or a
    /// utility, always carrying a positive price.
    pub open spec fn spec_is_purchasable(self) -> bool {
        &&& (self.space_type == SPACE_TYPE_PROPERTY
            || self.space_type == SPACE_TYPE_BRIDGE
            || self.space_type == SPACE_TYPE_UTILITY)
        &&& self.price > 0
    }

    pub fn is_purchasable(&self) -> (b: bool)
        ensures b == self.spec_is_purchasable(),
    {
        (self.space_type == SPACE_TYPE_PROPERTY
            || self.space_type == SPACE_TYPE_BRIDGE
            || self.space_type == SPACE_TYPE_UTILITY)
            && self.price > 0
    }
}

/// Liquidity-pool build cost for a color group.
pub open spec fn spec_lp_cost_of(group: u8) -> u64 {
    if group == GROUP_BROWN {
        LP_COST_BROWN
    } else if group == GROUP_LIGHT_BLUE {
        LP_COST_LIGHT_BLUE
    } else if group == GROUP_PINK {
        LP_COST_PINK
    } else if group == GROUP_ORANGE {
        LP_COST_ORANGE
    } else if group == GROUP_RED {
        LP_COST_RED
    } else if group == GROUP_YELLOW {
        LP_COST_YELLOW
    } else if group == GROUP_GREEN {
        LP_COST_GREEN
    } else if group == GROUP_DARK_BLUE {
        LP_COST_DARK_BLUE
    } else {
        0
    }
}

fn lp_cost_of(group: u8) -> (c: u64)
    ensures c == spec_lp_cost_of(group),
{
    if group == GROUP_BROWN {
        LP_COST_BROWN
    } else if group == GROUP_LIGHT_BLUE {
        LP_COST_LIGHT_BLUE
    } else if group == GROUP_PINK {
        LP_COST_PINK
    } else if group == GROUP_ORANGE {
        LP_COST_ORANGE
    } else if group == GROUP_RED {
        LP_COST_RED
    } else if group == GROUP_YELLOW {
        LP_COST_YELLOW
    } else if group == GROUP_GREEN {
        LP_COST_GREEN
    } else if group == GROUP_DARK_BLUE {
        LP_COST_DARK_BLUE
    } else {
        0
    }
}

/// A space with no price and no rent (start, cards, jail, parking).
pub open spec fn spec_free_space(index: u8, space_type: u8) -> SpaceData {
    SpaceData {
        index,
        space_type,
        group: GROUP_NONE,
        price: 0,
        base_rent: 0,
        lp_rent1: 0,
        lp_rent2: 0,
        lp_rent3: 0,
        lp_rent4: 0,
        protocol_rent: 0,
        mortgage_value: 0,
        lp_cost: 0,
        bridge_rent1: 0,
        bridge_rent2: 0,
        bridge_rent3: 0,
        bridge_rent4: 0,
    }
}

fn free_space(index: u8, space_type: u8) -> (s: SpaceData)
    ensures s == spec_free_space(index, space_type),
{
    SpaceData {
        index,
        space_type,
        group: GROUP_NONE,
        price: 0,
        base_rent: 0,
        lp_rent1: 0,
        lp_rent2: 0,
        lp_rent3: 0,
        lp_rent4: 0,
        protocol_rent: 0,
        mortgage_value: 0,
        lp_cost: 0,
        bridge_rent1: 0,
        bridge_rent2: 0,
        bridge_rent3: 0,
        bridge_rent4: 0,
    }
}

/// A tax space; the tax amount (display units) is stored in `base_rent`.
pub open spec fn spec_tax_space(index: u8, amount: u64) -> SpaceData {
    SpaceData {
        base_rent: (amount * MICRO) as u64,
        ..spec_free_space(index, SPACE_TYPE_TAX)
    }
}

fn tax_space(index: u8, amount: u64) -> (s: SpaceData)
    requires amount <= 1_000,
    ensures s == spec_tax_space(index, amount),
{
    SpaceData {
        base_rent: amount * MICRO,
        ..free_space(index, SPACE_TYPE_TAX)
    }
}

/// An ordinary color-group property.  All amounts are in display units
/// and are scaled to micro-units here; the mortgage value is half the
/// price and the build cost comes from the color group.
pub open spec fn spec_prop_space(
    index: u8, group: u8, price: u64, base: u64,
    r1: u64, r2: u64, r3: u64, r4: u64, prot: u64,
) -> SpaceData {
    SpaceData {
        index,
        space_type: SPACE_TYPE_PROPERTY,
        group,
        price: (price * MICRO) as u64,
        base_rent: (base * MICRO) as u64,
        lp_rent1: (r1 * MICRO) as u64,
        lp_rent2: (r2 * MICRO) as u64,
        lp_rent3: (r3 * MICRO) as u64,
        lp_rent4: (r4 * MICRO) as u64,
        protocol_rent: (prot * MICRO) as u64,
        mortgage_value: ((price / 2) * MICRO) as u64,
        lp_cost: spec_lp_cost_of(group),
        bridge_rent1: 0,
        bridge_rent2: 0,
        bridge_rent3: 0,
        bridge_rent4: 0,
    }
}

fn prop_space(
    index: u8, group: u8, price: u64, base: u64,
    r1: u64, r2: u64, r3: u64, r4: u64, prot: u64,
) -> (s: SpaceData)
    requires
        price <= 10_000,
        base <= 10_000,
        r1 <= 10_000,
        r2 <= 10_000,
        r3 <= 10_000,
        r4 <= 10_000,
        prot <= 10_000,
    ensures s == spec_prop_space(index, group, price, base, r1, r2, r3, r4, prot),
{
    SpaceData {
        index,
        space_type: SPACE_TYPE_PROPERTY,
        group,
        price: price * MICRO,
        base_rent: base * MICRO,
        lp_rent1: r1 * MICRO,
        lp_rent2: r2 * MICRO,
        lp_rent3: r3 * MICRO,
        lp_rent4: r4 * MICRO,
        protocol_rent: prot * MICRO,
        mortgage_value: (price / 2) * MICRO,
        lp_cost: lp_cost_of(group),
        bridge_rent1: 0,
        bridge_rent2: 0,
        bridge_rent3: 0,
        bridge_rent4: 0,
    }
}

/// A bridge space: price 200, mortgage 100, rent tiers 25/50/100/200.
pub open spec fn spec_bridge_space(index: u8) -> SpaceData {
    SpaceData {
        index,
        space_type: SPACE_TYPE_BRIDGE,
        group: GROUP_BRIDGE,
        price: 200_000_000,
        base_rent: 0,
        lp_rent1: 0,
        lp_rent2: 0,
        lp_rent3: 0,
        lp_rent4: 0,
        protocol_rent: 0,
        mortgage_value: 100_000_000,
        lp_cost: 0,
        bridge_rent1: 25_000_000,
        bridge_rent2: 50_000_000,
        bridge_rent3: 100_000_000,
        bridge_rent4: 200_000_000,
    }
}

fn bridge_space(index: u8) -> (s: SpaceData)
    ensures s == spec_bridge_space(index),
{
    SpaceData {
        index,
        space_type: SPACE_TYPE_BRIDGE,
        group: GROUP_BRIDGE,
        price: 200_000_000,
        base_rent: 0,
        lp_rent1: 0,
        lp_rent2: 0,
        lp_rent3: 0,
        lp_rent4: 0,
        protocol_rent: 0,
        mortgage_value: 100_000_000,
        lp_cost: 0,
        bridge_rent1: 25_000_000,
        bridge_rent2: 50_000_000,
        bridge_rent3: 100_000_000,
        bridge_rent4: 200_000_000,
    }
}

/// A utility space: price 150, mortgage 75; rent is dice-driven.
pub open spec fn spec_utility_space(index: u8) -> SpaceData {
    SpaceData {
        index,
        space_type: SPACE_TYPE_UTILITY,
        group: GROUP_UTILITY,
        price: 150_000_000,
        base_rent: 0,
        lp_rent1: 0,
        lp_rent2: 0,
        lp_rent3: 0,
        lp_rent4: 0,
        protocol_rent: 0,
        mortgage_value: 75_000_000,
        lp_cost: 0,
        bridge_rent1: 0,
        bridge_rent2: 0,
        bridge_rent3: 0,
        bridge_rent4: 0,
    }
}

fn utility_space(index: u8) -> (s: SpaceData)
    ensures s == spec_utility_space(index),
{
    SpaceData {
        index,
        space_type: SPACE_TYPE_UTILITY,
        group: GROUP_UTILITY,
        price: 150_000_000,
        base_rent: 0,
        lp_rent1: 0,
        lp_rent2: 0,
        lp_rent3: 0,
        lp_rent4: 0,
        protocol_rent: 0,
        mortgage_value: 75_000_000,
        lp_cost: 0,
        bridge_rent1: 0,
        bridge_rent2: 0,
        bridge_rent3: 0,
        bridge_rent4: 0,
    }
}

/// The full board, as the contracts see it.
pub open spec fn spec_space(i: int) -> SpaceData {
    if i == 0 { spec_free_space(0, SPACE_TYPE_GENESIS) }
    else if i == 1 { spec_prop_space(1, GROUP_BROWN, 60, 2, 10, 30, 90, 160, 250) }
    else if i == 2 { spec_free_space(2, SPACE_TYPE_CARD_ALPHA) }
    else if i == 3 { spec_prop_space(3, GROUP_BROWN, 60, 4, 20, 60, 180, 320, 450) }
    else if i == 4 { spec_tax_space(4, 200) }
    else if i == 5 { spec_bridge_space(5) }
    else if i == 6 { spec_prop_space(6, GROUP_LIGHT_BLUE, 100, 6, 30, 90, 270, 400, 550) }
    else if i == 7 { spec_free_space(7, SPACE_TYPE_CARD_GOVERNANCE) }
    else if i == 8 { spec_prop_space(8, GROUP_LIGHT_BLUE, 100, 6, 30, 90, 270, 400, 550) }
    else if i == 9 { spec_prop_space(9, GROUP_LIGHT_BLUE, 120, 8, 40, 100, 300, 450, 600) }
    else if i == 10 { spec_free_space(10, SPACE_TYPE_RUGPULL) }
    else if i == 11 { spec_prop_space(11, GROUP_PINK, 140, 10, 50, 150, 450, 625, 750) }
    else if i == 12 { spec_utility_space(12) }
    else if i == 13 { spec_prop_space(13, GROUP_PINK, 140, 10, 50, 150, 450, 625, 750) }
    else if i == 14 { spec_prop_space(14, GROUP_PINK, 160, 12, 60, 180, 500, 700, 900) }
    else if i == 15 { spec_bridge_space(15) }
    else if i == 16 { spec_prop_space(16, GROUP_ORANGE, 180, 14, 70, 200, 550, 750, 950) }
    else if i == 17 { spec_free_space(17, SPACE_TYPE_CARD_ALPHA) }
    else if i == 18 { spec_prop_space(18, GROUP_ORANGE, 180, 14, 70, 200, 550, 750, 950) }
    else if i == 19 { spec_prop_space(19, GROUP_ORANGE, 200, 16, 80, 220, 600, 800, 1000) }
    else if i == 20 { spec_free_space(20, SPACE_TYPE_FREE_PARKING) }
    else if i == 21 { spec_prop_space(21, GROUP_RED, 220, 18, 90, 250, 700, 875, 1050) }
    else if i == 22 { spec_free_space(22, SPACE_TYPE_CARD_GOVERNANCE) }
    else if i == 23 { spec_prop_space(23, GROUP_RED, 220, 18, 90, 250, 700, 875, 1050) }
    else if i == 24 { spec_prop_space(24, GROUP_RED, 240, 20, 100, 300, 750, 925, 1100) }
    else if i == 25 { spec_bridge_space(25) }
    else if i == 26 { spec_prop_space(26, GROUP_YELLOW, 260, 22, 110, 330, 850, 1025, 1200) }
    else if i == 27 { spec_prop_space(27, GROUP_YELLOW, 260, 22, 110, 330, 850, 1025, 1200) }
    else if i == 28 { spec_utility_space(28) }
    else if i == 29 { spec_prop_space(29, GROUP_YELLOW, 280, 24, 120, 360, 900, 1100, 1275) }
    else if i == 30 { spec_free_space(30, SPACE_TYPE_GO_TO_JAIL) }
    else if i == 31 { spec_prop_space(31, GROUP_GREEN, 300, 26, 130, 390, 900, 1100, 1275) }
    else if i == 32 { spec_prop_space(32, GROUP_GREEN, 300, 26, 130, 390, 900, 1100, 1275) }
    else if i == 33 { spec_free_space(33, SPACE_TYPE_CARD_ALPHA) }
    else if i == 34 { spec_prop_space(34, GROUP_GREEN, 320, 28, 150, 450, 1000, 1200, 1400) }
    else if i == 35 { spec_bridge_space(35) }
    else if i == 36 { spec_free_space(36, SPACE_TYPE_CARD_GOVERNANCE) }
    else if i == 37 { spec_prop_space(37, GROUP_DARK_BLUE, 350, 35, 175, 500, 1100, 1300, 1500) }
    else if i == 38 { spec_tax_space(38, 100) }
    else { spec_prop_space(39, GROUP_DARK_BLUE, 400, 50, 200, 600, 1400, 1700, 2000) }
}

/// Executable board lookup, proved equal to the spec table.
#[verifier::rlimit(40)]
pub fn space_at(index: u8) -> (s: SpaceData)
    requires index < BOARD_SIZE,
    ensures s == spec_space(index as int),
{
    match index {
        0 => free_space(0, SPACE_TYPE_GENESIS),
        1 => prop_space(1, GROUP_BROWN, 60, 2, 10, 30, 90, 160, 250),
        2 => free_space(2, SPACE_TYPE_CARD_ALPHA),
        3 => prop_space(3, GROUP_BROWN, 60, 4, 20, 60, 180, 320, 450),
        4 => tax_space(4, 200),
        5 => bridge_space(5),
        6 => prop_space(6, GROUP_LIGHT_BLUE, 100, 6, 30, 90, 270, 400, 550),
        7 => free_space(7, SPACE_TYPE_CARD_GOVERNANCE),
        8 => prop_space(8, GROUP_LIGHT_BLUE, 100, 6, 30, 90, 270, 400, 550),
        9 => prop_space(9, GROUP_LIGHT_BLUE, 120, 8, 40, 100, 300, 450, 600),
        10 => free_space(10, SPACE_TYPE_RUGPULL),
        11 => prop_space(11, GROUP_PINK, 140, 10, 50, 150, 450, 625, 750),
        12 => utility_space(12),
        13 => prop_space(13, GROUP_PINK, 140, 10, 50, 150, 450, 625, 750),
        14 => prop_space(14, GROUP_PINK, 160, 12, 60, 180, 500, 700, 900),
        15 => bridge_space(15),
        16 => prop_space(16, GROUP_ORANGE, 180, 14, 70, 200, 550, 750, 950),
        17 => free_space(17, SPACE_TYPE_CARD_ALPHA),
        18 => prop_space(18, GROUP_ORANGE, 180, 14, 70, 200, 550, 750, 950),
        19 => prop_space(19, GROUP_ORANGE, 200, 16, 80, 220, 600, 800, 1000),
        20 => free_space(20, SPACE_TYPE_FREE_PARKING),
        21 => prop_space(21, GROUP_RED, 220, 18, 90, 250, 700, 875, 1050),
        22 => free_space(22, SPACE_TYPE_CARD_GOVERNANCE),
        23 => prop_space(23, GROUP_RED, 220, 18, 90, 250, 700, 875, 1050),
        24 => prop_space(24, GROUP_RED, 240, 20, 100, 300, 750, 925, 1100),
        25 => bridge_space(25),
        26 => prop_space(26, GROUP_YELLOW, 260, 22, 110, 330, 850, 1025, 1200),
        27 => prop_space(27, GROUP_YELLOW, 260, 22, 110, 330, 850, 1025, 1200),
        28 => utility_space(28),
        29 => prop_space(29, GROUP_YELLOW, 280, 24, 120, 360, 900, 1100, 1275),
        30 => free_space(30, SPACE_TYPE_GO_TO_JAIL),
        31 => prop_space(31, GROUP_GREEN, 300, 26, 130, 390, 900, 1100, 1275),
        32 => prop_space(32, GROUP_GREEN, 300, 26, 130, 390, 900, 1100, 1275),
        33 => free_space(33, SPACE_TYPE_CARD_ALPHA),
        34 => prop_space(34, GROUP_GREEN, 320, 28, 150, 450, 1000, 1200, 1400),
        35 => bridge_space(35),
        36 => free_space(36, SPACE_TYPE_CARD_GOVERNANCE),
        37 => prop_space(37, GROUP_DARK_BLUE, 350, 35, 175, 500, 1100, 1300, 1500),
        38 => tax_space(38, 100),
        _ => prop_space(39, GROUP_DARK_BLUE, 400, 50, 200, 600, 1400, 1700, 2000),
    }
}

/// The members of each color group, in board order.
pub open spec fn spec_group_spaces(group: u8) -> Seq<u8> {
    if group == GROUP_BROWN { seq![1u8, 3u8] }
    else if group == GROUP_LIGHT_BLUE { seq![6u8, 8u8, 9u8] }
    else if group == GROUP_PINK { seq![11u8, 13u8, 14u8] }
    else if group == GROUP_ORANGE { seq![16u8, 18u8, 19u8] }
    else if group == GROUP_RED { seq![21u8, 23u8, 24u8] }
    else if group == GROUP_YELLOW { seq![26u8, 27u8, 29u8] }
    else if group == GROUP_GREEN { seq![31u8, 32u8, 34u8] }
    else if group == GROUP_DARK_BLUE { seq![37u8, 39u8] }
    else if group == GROUP_BRIDGE { seq![5u8, 15u8, 25u8, 35u8] }
    else if group == GROUP_UTILITY { seq![12u8, 28u8] }
    else { Seq::empty() }
}

/// Return all space indices for a color group.
pub fn group_spaces(group: u8) -> (v: Vec<u8>)
    ensures v@ == spec_group_spaces(group),
{
    let mut v: Vec<u8> = Vec::new();
    if group == GROUP_BROWN {
        v.push(1); v.push(3);
    } else if group == GROUP_LIGHT_BLUE {
        v.push(6); v.push(8); v.push(9);
    } else if group == GROUP_PINK {
        v.push(11); v.push(13); v.push(14);
    } else if group == GROUP_ORANGE {
        v.push(16); v.push(18); v.push(19);
    } else if group == GROUP_RED {
        v.push(21); v.push(23); v.push(24);
    } else if group == GROUP_YELLOW {
        v.push(26); v.push(27); v.push(29);
    } else if group == GROUP_GREEN {
        v.push(31); v.push(32); v.push(34);
    } else if group == GROUP_DARK_BLUE {
        v.push(37); v.push(39);
    } else if group == GROUP_BRIDGE {
        v.push(5); v.push(15); v.push(25); v.push(35);
    } else if group == GROUP_UTILITY {
        v.push(12); v.push(28);
    }
    proof {
        assert(v@ =~= spec_group_spaces(group));
    }
    v
}

/// The first bridge space strictly ahead of `position`, wrapping to the
/// first bridge past the start space.
pub open spec fn spec_nearest_bridge_ahead(position: u8) -> u8 {
    if position < 5 { 5 }
    else if position < 15 { 15 }
    else if position < 25 { 25 }
    else if position < 35 { 35 }
    else { 5 }
}

pub fn nearest_bridge_ahead(position: u8) -> (r: u8)
    ensures r == spec_nearest_bridge_ahead(position),
{
    if position < 5 { 5 }
    else if position < 15 { 15 }
    else if position < 25 { 25 }
    else if position < 35 { 35 }
    else { 5 }
}

/// Helper for the nearest-property search: first ordinary property at
/// offset `i` or beyond (wrapping), or `position` itself if the whole
/// board was scanned.
pub open spec fn spec_nearest_property_from(position: u8, i: int) -> u8
    decreases 40 - i,
{
    if i < 1 || i >= 40 {
        position
    } else {
        let sp = ((position + i) % 40) as u8;
        if spec_space(sp as int).space_type == SPACE_TYPE_PROPERTY {
            sp
        } else {
            spec_nearest_property_from(position, i + 1)
        }
    }
}

/// The nearest ordinary property strictly ahead of `position`, wrapping
/// around the board.
pub open spec fn spec_nearest_property_ahead(position: u8) -> u8 {
    spec_nearest_property_from(position, 1)
}

pub fn nearest_property_ahead(position: u8) -> (r: u8)
    requires position < BOARD_SIZE,
    ensures
        r == spec_nearest_property_ahead(position),
        r < BOARD_SIZE,
{
    let mut i: u8 = 1;
    while i < 40
        invariant
            position < 40,
            1 <= i <= 40,
            spec_nearest_property_ahead(position) == spec_nearest_property_from(position, i as int),
        decreases 40 - i,
    {
        let sp: u8 = (position + i) % 40;
        let s = space_at(sp);
        if s.space_type == SPACE_TYPE_PROPERTY {
            return sp;
        }
        i = i + 1;
    }
    position
}

} // verus!
