//! The two-deck card resolver.  Drawing only records the card under
//! the cyclic cursor; a separate resolve step applies the effect,
//! taking an auxiliary argument for effects that need externally
//! counted aggregates (the last dice total, pool counts, complete-set
//! counts), since the engine does not scan all property records.
//!
//! The whole effect table of each deck is a single spec function; the
//! executable resolvers are proved equal to it.

use vstd::prelude::*;
use crate::board::{
    spec_nearest_bridge_ahead, spec_nearest_property_ahead, nearest_bridge_ahead,
    nearest_property_ahead, SPACE_RUGPULL_ZONE, SPACE_DEFI_SUMMER, SPACE_TYPE_CARD_ALPHA,
    SPACE_TYPE_CARD_GOVERNANCE, spec_space, space_at,
};
use crate::errors::BlockpolyError;
use crate::game::{
    spec_sat_add, sat_add, spec_sat_mul, sat_mul, CashFlow, GameState, GameStatus, TurnPhase,
    FLASH_LOAN_AMOUNT, FLASH_LOAN_REPAY, GENESIS_SALARY, RUGPULL_MAX_TURNS,
};
use crate::player::{PlayerState, PlayerStatus};

verus! {

/// The Alpha Call effect table: what resolving card `card_id` does to
/// the game and the player, and which ledger leg it asks for.
pub open spec fn spec_alpha_effect(card_id: u8, g: GameState, p: PlayerState, extra: u64)
    -> Result<(GameState, PlayerState, CashFlow), BlockpolyError>
{
    if card_id == 0 {
        // Teleport to the start space and collect the salary.
        Ok((g, (PlayerState {
            position: 0,
            bpoly_balance: spec_sat_add(p.bpoly_balance, GENESIS_SALARY),
            ..p
        }), CashFlow::FromBank(GENESIS_SALARY)))
    } else if card_id == 1 {
        // Teleport to the last board space; positions never exceed it,
        // so the wrap salary cannot trigger.
        Ok((g, (PlayerState { position: 39, ..p }), CashFlow::NoTransfer))
    } else if card_id == 2 {
        // Teleport to the nearest bridge ahead.
        Ok((g, (PlayerState {
            position: spec_nearest_bridge_ahead(p.position),
            ..p
        }), CashFlow::NoTransfer))
    } else if card_id == 3 {
        // Teleport to the first bridge; wrapping past start pays the salary.
        if p.position > 5 {
            Ok((g, (PlayerState {
                position: 5,
                bpoly_balance: spec_sat_add(p.bpoly_balance, GENESIS_SALARY),
                ..p
            }), CashFlow::FromBank(GENESIS_SALARY)))
        } else {
            Ok((g, (PlayerState { position: 5, ..p }), CashFlow::NoTransfer))
        }
    } else if card_id == 4 {
        // Staking rewards: a small fixed grant.
        Ok((g, (PlayerState {
            bpoly_balance: spec_sat_add(p.bpoly_balance, 50_000_000),
            ..p
        }), CashFlow::FromBank(50_000_000)))
    } else if card_id == 5 {
        // Grant a jail-free card.
        Ok((g, (PlayerState {
            has_jail_free_card: true,
            jail_free_card_type: 1,
            ..p
        }), CashFlow::NoTransfer))
    } else if card_id == 6 {
        // Toll scaled by the last dice total (supplied by the caller).
        let toll = spec_sat_mul(extra, 4_000_000);
        if p.bpoly_balance < toll {
            Err(BlockpolyError::InsufficientBalance)
        } else {
            Ok((g, (PlayerState {
                bpoly_balance: (p.bpoly_balance - toll) as u64,
                ..p
            }), CashFlow::ToBank(toll)))
        }
    } else if card_id == 7 {
        // Market crash: lose a fifth of the balance.
        let loss = p.bpoly_balance / 5;
        Ok((g, (PlayerState {
            bpoly_balance: (p.bpoly_balance - loss) as u64,
            ..p
        }), if loss > 0 { CashFlow::ToBank(loss) } else { CashFlow::NoTransfer }))
    } else if card_id == 8 {
        // Bull Run: unimproved rent doubles through the next round.
        Ok(((GameState {
            bull_run_active: true,
            bull_run_ends_round: (g.round_number + 1) as u32,
            ..g
        }), p, CashFlow::NoTransfer))
    } else if card_id == 9 {
        // Steal the last recorded rent, zeroing the memo.
        if g.last_rent_amount > 0 {
            Ok(((GameState { last_rent_amount: 0, ..g }), (PlayerState {
                bpoly_balance: spec_sat_add(p.bpoly_balance, g.last_rent_amount),
                ..p
            }), CashFlow::FromBank(g.last_rent_amount)))
        } else {
            Ok((g, p, CashFlow::NoTransfer))
        }
    } else if card_id == 10 {
        // Flash loan: a fixed advance against a larger repayment due
        // after one full rotation; one loan at a time.
        if p.flash_loan_active {
            Err(BlockpolyError::FlashLoanAlreadyActive)
        } else {
            Ok((g, (PlayerState {
                bpoly_balance: spec_sat_add(p.bpoly_balance, FLASH_LOAN_AMOUNT),
                flash_loan_active: true,
                flash_loan_repay_amount: FLASH_LOAN_REPAY,
                flash_loan_due_turn: (g.turn_number + g.player_count) as u32,
                ..p
            }), CashFlow::FromBank(FLASH_LOAN_AMOUNT)))
        }
    } else if card_id == 11 {
        // Lose the cheapest unprotected property: needs an external
        // property scan, left to the host.
        Ok((g, p, CashFlow::NoTransfer))
    } else if card_id == 12 {
        // Move back three spaces, wrapping.
        let back = if p.position < 3 {
            (40 - (3 - p.position)) as u8
        } else {
            (p.position - 3) as u8
        };
        Ok((g, (PlayerState { position: back, ..p }), CashFlow::NoTransfer))
    } else if card_id == 13 {
        // Straight to the Rug Pull Zone.
        Ok((g, (PlayerState {
            position: SPACE_RUGPULL_ZONE,
            rugpull_turns_remaining: RUGPULL_MAX_TURNS,
            status: PlayerStatus::InRugPullZone,
            ..p
        }), CashFlow::NoTransfer))
    } else if card_id == 14 {
        // Lose the most valuable property at half value: needs an
        // external property scan, left to the host.
        Ok((g, p, CashFlow::NoTransfer))
    } else if card_id == 15 {
        // Teleport to the nearest ordinary property ahead.
        Ok((g, (PlayerState {
            position: spec_nearest_property_ahead(p.position),
            ..p
        }), CashFlow::NoTransfer))
    } else {
        Ok((g, p, CashFlow::NoTransfer))
    }
}

/// The Governance Vote effect table.
pub open spec fn spec_governance_effect(card_id: u8, g: GameState, p: PlayerState, extra: u64)
    -> Result<(GameState, PlayerState, CashFlow), BlockpolyError>
{
    if card_id == 0 {
        Ok((g, (PlayerState {
            bpoly_balance: spec_sat_add(p.bpoly_balance, 200_000_000),
            ..p
        }), CashFlow::FromBank(200_000_000)))
    } else if card_id == 1 {
        Ok((g, (PlayerState {
            bpoly_balance: spec_sat_add(p.bpoly_balance, 100_000_000),
            ..p
        }), CashFlow::FromBank(100_000_000)))
    } else if card_id == 2 {
        // A grant per other participant (bank-funded here; see the
        // module doc of `resolve_card`).
        let total = spec_sat_mul(10_000_000, (g.player_count - 1) as u64);
        if total > 0 {
            Ok((g, (PlayerState {
                bpoly_balance: spec_sat_add(p.bpoly_balance, total),
                ..p
            }), CashFlow::FromBank(total)))
        } else {
            Ok((g, p, CashFlow::NoTransfer))
        }
    } else if card_id == 3 {
        Ok((g, (PlayerState {
            has_jail_free_card: true,
            jail_free_card_type: 2,
            ..p
        }), CashFlow::NoTransfer))
    } else if card_id == 4 {
        Ok((g, (PlayerState {
            position: SPACE_RUGPULL_ZONE,
            rugpull_turns_remaining: RUGPULL_MAX_TURNS,
            status: PlayerStatus::InRugPullZone,
            ..p
        }), CashFlow::NoTransfer))
    } else if card_id == 5 {
        Ok((g, (PlayerState {
            bpoly_balance: spec_sat_add(p.bpoly_balance, 50_000_000),
            ..p
        }), CashFlow::FromBank(50_000_000)))
    } else if card_id == 6 {
        // Levy on the player's buildings; the caller packs the pool
        // count in the low half of `extra` and the full-protocol count
        // in the high half.
        let lp_count = extra % 0x1_0000_0000;
        let protocol_count = extra / 0x1_0000_0000;
        let levy = (spec_sat_mul(lp_count as u64, 40_000_000)
            + spec_sat_mul(protocol_count as u64, 115_000_000)) as u64;
        if levy > 0 {
            if p.bpoly_balance < levy {
                Err(BlockpolyError::InsufficientBalance)
            } else {
                Ok((g, (PlayerState {
                    bpoly_balance: (p.bpoly_balance - levy) as u64,
                    ..p
                }), CashFlow::ToBank(levy)))
            }
        } else {
            Ok((g, p, CashFlow::NoTransfer))
        }
    } else if card_id == 7 {
        if p.bpoly_balance < 100_000_000 {
            Err(BlockpolyError::InsufficientBalance)
        } else {
            Ok((g, (PlayerState {
                bpoly_balance: (p.bpoly_balance - 100_000_000) as u64,
                ..p
            }), CashFlow::ToBank(100_000_000)))
        }
    } else if card_id == 8 {
        // Mining rewards per pool owned (caller-counted).
        let rewards = spec_sat_mul(extra, 25_000_000);
        if rewards > 0 {
            Ok((g, (PlayerState {
                bpoly_balance: spec_sat_add(p.bpoly_balance, rewards),
                ..p
            }), CashFlow::FromBank(rewards)))
        } else {
            Ok((g, p, CashFlow::NoTransfer))
        }
    } else if card_id == 9 {
        // A charge per other participant (bank-collected here).
        let amount = spec_sat_mul(150_000_000, (g.player_count - 1) as u64);
        if amount > 0 {
            if p.bpoly_balance < amount {
                Err(BlockpolyError::InsufficientBalance)
            } else {
                Ok((g, (PlayerState {
                    bpoly_balance: (p.bpoly_balance - amount) as u64,
                    ..p
                }), CashFlow::ToBank(amount)))
            }
        } else {
            Ok((g, p, CashFlow::NoTransfer))
        }
    } else if card_id == 10 {
        // Bridge exploited: a bridge owner loses it through an external
        // property scan; anyone else gets a consolation grant.
        if extra > 0 {
            Ok((g, p, CashFlow::NoTransfer))
        } else {
            Ok((g, (PlayerState {
                bpoly_balance: spec_sat_add(p.bpoly_balance, 50_000_000),
                ..p
            }), CashFlow::FromBank(50_000_000)))
        }
    } else if card_id == 11 {
        let total = spec_sat_mul(50_000_000, (g.player_count - 1) as u64);
        Ok((g, (PlayerState {
            bpoly_balance: spec_sat_add(p.bpoly_balance, total),
            ..p
        }), CashFlow::FromBank(total)))
    } else if card_id == 12 {
        // Teleport to the free-parking space; wrapping pays the salary.
        if p.position > SPACE_DEFI_SUMMER {
            Ok((g, (PlayerState {
                position: SPACE_DEFI_SUMMER,
                bpoly_balance: spec_sat_add(p.bpoly_balance, GENESIS_SALARY),
                ..p
            }), CashFlow::FromBank(GENESIS_SALARY)))
        } else {
            Ok((g, (PlayerState { position: SPACE_DEFI_SUMMER, ..p }), CashFlow::NoTransfer))
        }
    } else if card_id == 13 {
        if p.bpoly_balance < 50_000_000 {
            Err(BlockpolyError::InsufficientBalance)
        } else {
            Ok((g, (PlayerState {
                bpoly_balance: (p.bpoly_balance - 50_000_000) as u64,
                ..p
            }), CashFlow::ToBank(50_000_000)))
        }
    } else if card_id == 14 {
        // Royalty per complete color set owned (caller-counted).
        let income = spec_sat_mul(extra, 20_000_000);
        if income > 0 {
            Ok((g, (PlayerState {
                bpoly_balance: spec_sat_add(p.bpoly_balance, income),
                ..p
            }), CashFlow::FromBank(income)))
        } else {
            Ok((g, p, CashFlow::NoTransfer))
        }
    } else if card_id == 15 {
        // Rug Pull insurance: a free exit when jailed, a grant otherwise.
        if p.spec_is_in_rugpull() {
            Ok((g, (PlayerState {
                rugpull_turns_remaining: 0,
                status: PlayerStatus::Active,
                ..p
            }), CashFlow::NoTransfer))
        } else {
            Ok((g, (PlayerState {
                bpoly_balance: spec_sat_add(p.bpoly_balance, 75_000_000),
                ..p
            }), CashFlow::FromBank(75_000_000)))
        }
    } else {
        Ok((g, p, CashFlow::NoTransfer))
    }
}

/// Draw the next card of the deck matching the space the current
/// player stands on.  Returns `(deck, card id)` and records it for the
/// resolve step.
pub fn draw_card(game: &mut GameState, player: &PlayerState)
    -> (r: Result<(u8, u8), BlockpolyError>)
    requires
        old(game).wf(),
        player.wf(),
    ensures
        final(game).wf(),
        r is Err ==> *final(game) == *old(game),
        !(old(game).status is InProgress)
            ==> r == Err::<(u8, u8), _>(BlockpolyError::GameNotStarted),
        old(game).status is InProgress && !(old(game).turn_phase is DrawCard)
            ==> r == Err::<(u8, u8), _>(BlockpolyError::WrongTurnPhase),
        old(game).status is InProgress && old(game).turn_phase is DrawCard
            && old(game).current_player_index != player.player_index
            ==> r == Err::<(u8, u8), _>(BlockpolyError::NotYourTurn),
        ({
            let valid = old(game).status is InProgress
                && old(game).turn_phase is DrawCard
                && old(game).current_player_index == player.player_index;
            let space_type = spec_space(player.position as int).space_type;
            let alpha_card = old(game).alpha_call_deck@[old(game).alpha_call_index as int];
            let gov_card = old(game).governance_deck@[old(game).governance_index as int];
            &&& (valid && space_type == SPACE_TYPE_CARD_ALPHA ==> {
                &&& r == Ok::<(u8, u8), BlockpolyError>((0, alpha_card))
                &&& *final(game) == (GameState {
                    alpha_call_index: (((old(game).alpha_call_index + 1) as int) % 16) as u8,
                    pending_card: Some((0, alpha_card)),
                    ..*old(game)
                })
            })
            &&& (valid && space_type == SPACE_TYPE_CARD_GOVERNANCE ==> {
                &&& r == Ok::<(u8, u8), BlockpolyError>((1, gov_card))
                &&& *final(game) == (GameState {
                    governance_index: (((old(game).governance_index + 1) as int) % 16) as u8,
                    pending_card: Some((1, gov_card)),
                    ..*old(game)
                })
            })
            &&& (valid && space_type != SPACE_TYPE_CARD_ALPHA
                && space_type != SPACE_TYPE_CARD_GOVERNANCE
                ==> r == Err::<(u8, u8), _>(BlockpolyError::WrongTurnPhase))
        }),
{
    if !matches!(game.status, GameStatus::InProgress) {
        return Err(BlockpolyError::GameNotStarted);
    }
    if !matches!(game.turn_phase, TurnPhase::DrawCard) {
        return Err(BlockpolyError::WrongTurnPhase);
    }
    if game.current_player_index != player.player_index {
        return Err(BlockpolyError::NotYourTurn);
    }

    let space = space_at(player.position);
    if space.space_type == SPACE_TYPE_CARD_ALPHA {
        let card = game.next_alpha_card();
        game.pending_card = Some((0, card));
        Ok((0, card))
    } else if space.space_type == SPACE_TYPE_CARD_GOVERNANCE {
        let card = game.next_governance_card();
        game.pending_card = Some((1, card));
        Ok((1, card))
    } else {
        Err(BlockpolyError::WrongTurnPhase)
    }
}

/// Apply the Alpha Call effect table.  The ledger leg of the effect is
/// returned for the host to execute; the turn is not advanced here.
pub fn resolve_alpha_call(
    card_id: u8, game: &mut GameState, player: &mut PlayerState, extra_param: u64,
) -> (r: Result<CashFlow, BlockpolyError>)
    requires
        old(game).wf(),
        old(player).wf(),
        !old(player).is_bankrupt,
        old(game).round_number < u32::MAX,
        old(game).turn_number + 8 <= u32::MAX,
    ensures
        final(game).wf(),
        final(player).wf(),
        match spec_alpha_effect(card_id, *old(game), *old(player), extra_param) {
            Ok((g2, p2, cash)) => {
                &&& r == Ok::<CashFlow, BlockpolyError>(cash)
                &&& *final(game) == g2
                &&& *final(player) == p2
            },
            Err(e) => {
                &&& r == Err::<CashFlow, BlockpolyError>(e)
                &&& *final(game) == *old(game)
                &&& *final(player) == *old(player)
            },
        },
{
    if card_id == 0 {
        player.position = 0;
        player.bpoly_balance = sat_add(player.bpoly_balance, GENESIS_SALARY);
        Ok(CashFlow::FromBank(GENESIS_SALARY))
    } else if card_id == 1 {
        player.position = 39;
        Ok(CashFlow::NoTransfer)
    } else if card_id == 2 {
        player.position = nearest_bridge_ahead(player.position);
        Ok(CashFlow::NoTransfer)
    } else if card_id == 3 {
        let wrapped = player.position > 5;
        player.position = 5;
        if wrapped {
            player.bpoly_balance = sat_add(player.bpoly_balance, GENESIS_SALARY);
            Ok(CashFlow::FromBank(GENESIS_SALARY))
        } else {
            Ok(CashFlow::NoTransfer)
        }
    } else if card_id == 4 {
        player.bpoly_balance = sat_add(player.bpoly_balance, 50_000_000);
        Ok(CashFlow::FromBank(50_000_000))
    } else if card_id == 5 {
        player.has_jail_free_card = true;
        player.jail_free_card_type = 1;
        Ok(CashFlow::NoTransfer)
    } else if card_id == 6 {
        let toll = sat_mul(extra_param, 4_000_000);
        if player.bpoly_balance < toll {
            return Err(BlockpolyError::InsufficientBalance);
        }
        player.bpoly_balance = player.bpoly_balance - toll;
        Ok(CashFlow::ToBank(toll))
    } else if card_id == 7 {
        let loss = player.bpoly_balance / 5;
        player.bpoly_balance = player.bpoly_balance - loss;
        if loss > 0 {
            Ok(CashFlow::ToBank(loss))
        } else {
            Ok(CashFlow::NoTransfer)
        }
    } else if card_id == 8 {
        game.bull_run_active = true;
        game.bull_run_ends_round = game.round_number + 1;
        Ok(CashFlow::NoTransfer)
    } else if card_id == 9 {
        let amount = game.last_rent_amount;
        if amount > 0 {
            player.bpoly_balance = sat_add(player.bpoly_balance, amount);
            game.last_rent_amount = 0;
            Ok(CashFlow::FromBank(amount))
        } else {
            Ok(CashFlow::NoTransfer)
        }
    } else if card_id == 10 {
        if player.flash_loan_active {
            return Err(BlockpolyError::FlashLoanAlreadyActive);
        }
        player.bpoly_balance = sat_add(player.bpoly_balance, FLASH_LOAN_AMOUNT);
        player.flash_loan_active = true;
        player.flash_loan_repay_amount = FLASH_LOAN_REPAY;
        player.flash_loan_due_turn = game.turn_number + (game.player_count as u32);
        Ok(CashFlow::FromBank(FLASH_LOAN_AMOUNT))
    } else if card_id == 11 {
        Ok(CashFlow::NoTransfer)
    } else if card_id == 12 {
        let new_pos = if player.position < 3 {
            40 - (3 - player.position)
        } else {
            player.position - 3
        };
        player.position = new_pos;
        Ok(CashFlow::NoTransfer)
    } else if card_id == 13 {
        player.position = SPACE_RUGPULL_ZONE;
        player.rugpull_turns_remaining = RUGPULL_MAX_TURNS;
        player.status = PlayerStatus::InRugPullZone;
        Ok(CashFlow::NoTransfer)
    } else if card_id == 14 {
        Ok(CashFlow::NoTransfer)
    } else if card_id == 15 {
        player.position = nearest_property_ahead(player.position);
        Ok(CashFlow::NoTransfer)
    } else {
        Ok(CashFlow::NoTransfer)
    }
}

/// Apply the Governance Vote effect table; as `resolve_alpha_call`.
pub fn resolve_governance_vote(
    card_id: u8, game: &mut GameState, player: &mut PlayerState, extra_param: u64,
) -> (r: Result<CashFlow, BlockpolyError>)
    requires
        old(game).wf(),
        old(player).wf(),
        !old(player).is_bankrupt,
        old(game).status is InProgress,
    ensures
        final(game).wf(),
        final(player).wf(),
        match spec_governance_effect(card_id, *old(game), *old(player), extra_param) {
            Ok((g2, p2, cash)) => {
                &&& r == Ok::<CashFlow, BlockpolyError>(cash)
                &&& *final(game) == g2
                &&& *final(player) == p2
            },
            Err(e) => {
                &&& r == Err::<CashFlow, BlockpolyError>(e)
                &&& *final(game) == *old(game)
                &&& *final(player) == *old(player)
            },
        },
{
    if card_id == 0 {
        player.bpoly_balance = sat_add(player.bpoly_balance, 200_000_000);
        Ok(CashFlow::FromBank(200_000_000))
    } else if card_id == 1 {
        player.bpoly_balance = sat_add(player.bpoly_balance, 100_000_000);
        Ok(CashFlow::FromBank(100_000_000))
    } else if card_id == 2 {
        let total = sat_mul(10_000_000, (game.player_count - 1) as u64);
        if total > 0 {
            player.bpoly_balance = sat_add(player.bpoly_balance, total);
            Ok(CashFlow::FromBank(total))
        } else {
            Ok(CashFlow::NoTransfer)
        }
    } else if card_id == 3 {
        player.has_jail_free_card = true;
        player.jail_free_card_type = 2;
        Ok(CashFlow::NoTransfer)
    } else if card_id == 4 {
        player.position = SPACE_RUGPULL_ZONE;
        player.rugpull_turns_remaining = RUGPULL_MAX_TURNS;
        player.status = PlayerStatus::InRugPullZone;
        Ok(CashFlow::NoTransfer)
    } else if card_id == 5 {
        player.bpoly_balance = sat_add(player.bpoly_balance, 50_000_000);
        Ok(CashFlow::FromBank(50_000_000))
    } else if card_id == 6 {
        let lp_count = extra_param % 0x1_0000_0000;
        let protocol_count = extra_param / 0x1_0000_0000;
        let levy = sat_mul(lp_count, 40_000_000) + sat_mul(protocol_count, 115_000_000);
        if levy > 0 {
            if player.bpoly_balance < levy {
                return Err(BlockpolyError::InsufficientBalance);
            }
            player.bpoly_balance = player.bpoly_balance - levy;
            Ok(CashFlow::ToBank(levy))
        } else {
            Ok(CashFlow::NoTransfer)
        }
    } else if card_id == 7 {
        if player.bpoly_balance < 100_000_000 {
            return Err(BlockpolyError::InsufficientBalance);
        }
        player.bpoly_balance = player.bpoly_balance - 100_000_000;
        Ok(CashFlow::ToBank(100_000_000))
    } else if card_id == 8 {
        let rewards = sat_mul(extra_param, 25_000_000);
        if rewards > 0 {
            player.bpoly_balance = sat_add(player.bpoly_balance, rewards);
            Ok(CashFlow::FromBank(rewards))
        } else {
            Ok(CashFlow::NoTransfer)
        }
    } else if card_id == 9 {
        let amount = sat_mul(150_000_000, (game.player_count - 1) as u64);
        if amount > 0 {
            if player.bpoly_balance < amount {
                return Err(BlockpolyError::InsufficientBalance);
            }
            player.bpoly_balance = player.bpoly_balance - amount;
            Ok(CashFlow::ToBank(amount))
        } else {
            Ok(CashFlow::NoTransfer)
        }
    } else if card_id == 10 {
        if extra_param > 0 {
            Ok(CashFlow::NoTransfer)
        } else {
            player.bpoly_balance = sat_add(player.bpoly_balance, 50_000_000);
            Ok(CashFlow::FromBank(50_000_000))
        }
    } else if card_id == 11 {
        let total = sat_mul(50_000_000, (game.player_count - 1) as u64);
        player.bpoly_balance = sat_add(player.bpoly_balance, total);
        Ok(CashFlow::FromBank(total))
    } else if card_id == 12 {
        let wrapped = player.position > SPACE_DEFI_SUMMER;
        player.position = SPACE_DEFI_SUMMER;
        if wrapped {
            player.bpoly_balance = sat_add(player.bpoly_balance, GENESIS_SALARY);
            Ok(CashFlow::FromBank(GENESIS_SALARY))
        } else {
            Ok(CashFlow::NoTransfer)
        }
    } else if card_id == 13 {
        if player.bpoly_balance < 50_000_000 {
            return Err(BlockpolyError::InsufficientBalance);
        }
        player.bpoly_balance = player.bpoly_balance - 50_000_000;
        Ok(CashFlow::ToBank(50_000_000))
    } else if card_id == 14 {
        let income = sat_mul(extra_param, 20_000_000);
        if income > 0 {
            player.bpoly_balance = sat_add(player.bpoly_balance, income);
            Ok(CashFlow::FromBank(income))
        } else {
            Ok(CashFlow::NoTransfer)
        }
    } else if card_id == 15 {
        if player.is_in_rugpull() {
            player.rugpull_turns_remaining = 0;
            player.status = PlayerStatus::Active;
            Ok(CashFlow::NoTransfer)
        } else {
            player.bpoly_balance = sat_add(player.bpoly_balance, 75_000_000);
            Ok(CashFlow::FromBank(75_000_000))
        }
    } else {
        Ok(CashFlow::NoTransfer)
    }
}

/// Resolve a drawn card: apply the deck's effect table, then pass the
/// turn.  Returns the ledger leg the host must execute.
pub fn resolve_card(
    game: &mut GameState, player: &mut PlayerState, deck_type: u8, card_id: u8,
    extra_param: u64,
) -> (r: Result<CashFlow, BlockpolyError>)
    requires
        old(game).wf(),
        old(player).wf(),
        old(game).round_number < u32::MAX,
        old(game).turn_number + 8 <= u32::MAX,
    ensures
        final(game).wf(),
        final(player).wf(),
        r is Err ==> *final(game) == *old(game) && *final(player) == *old(player),
        !(old(game).status is InProgress)
            ==> r == Err::<CashFlow, _>(BlockpolyError::GameNotStarted),
        old(game).status is InProgress && !(old(game).turn_phase is DrawCard)
            ==> r == Err::<CashFlow, _>(BlockpolyError::WrongTurnPhase),
        old(game).status is InProgress && old(game).turn_phase is DrawCard
            && old(game).current_player_index != old(player).player_index
            ==> r == Err::<CashFlow, _>(BlockpolyError::NotYourTurn),
        old(game).status is InProgress && old(game).turn_phase is DrawCard
            && old(game).current_player_index == old(player).player_index
            && old(player).is_bankrupt
            ==> r == Err::<CashFlow, _>(BlockpolyError::PlayerBankrupt),
        ({
            let valid = old(game).status is InProgress
                && old(game).turn_phase is DrawCard
                && old(game).current_player_index == old(player).player_index
                && !old(player).is_bankrupt;
            let effect = if deck_type == 0 {
                spec_alpha_effect(card_id, *old(game), *old(player), extra_param)
            } else {
                spec_governance_effect(card_id, *old(game), *old(player), extra_param)
            };
            &&& (valid ==> match effect {
                Ok((g2, p2, cash)) => {
                    &&& r == Ok::<CashFlow, BlockpolyError>(cash)
                    &&& *final(player) == p2
                    &&& *final(game) == g2.spec_advanced()
                },
                Err(e) => r == Err::<CashFlow, BlockpolyError>(e),
            })
        }),
{
    if !matches!(game.status, GameStatus::InProgress) {
        return Err(BlockpolyError::GameNotStarted);
    }
    if !matches!(game.turn_phase, TurnPhase::DrawCard) {
        return Err(BlockpolyError::WrongTurnPhase);
    }
    if game.current_player_index != player.player_index {
        return Err(BlockpolyError::NotYourTurn);
    }
    if player.is_bankrupt {
        return Err(BlockpolyError::PlayerBankrupt);
    }

    let cash = if deck_type == 0 {
        resolve_alpha_call(card_id, game, player, extra_param)?
    } else {
        resolve_governance_vote(card_id, game, player, extra_param)?
    };

    game.advance_turn();
    Ok(cash)
}

} // verus!
