//! Properties of the user instructions over positions and markets.
use vstd::prelude::*;
use crate::actions::{value_at, liquidate_after_accrue, liquidate_same_market_after_accrue, liquidate_same_market_spec, liquidate_spec, liquidation_limit, repay_after_accrue, seize_amount, withdraw_after_accrue, LiquidationOutcome, borrow_after_init, borrow_init, borrow_spec, deposit_init, deposit_spec, max_borrow_allowed, repay_spec, supply_into_slot0, user_position_seeds, with_slot0, withdraw_spec};
use crate::balances::{borrow_balance_spec, index_or_one, slot0_for, supply_balance_spec};
use crate::errors::AurumError;
use crate::admin::pause_spec;
use crate::interest::accrue_spec;
use crate::laws::law_accrue_monotone;
use crate::outside::program_address_bump;
use crate::state::{zero_key, Config, Market, Position, UserPosition};

verus! {

/// After a successful accrual at `now`, the market is current at `now`.
proof fn lemma_accrued_is_current(m: Market, c: Config, now: u64, m1: Market)
    requires
        accrue_spec(m, c, now) == Some(Ok::<Market, AurumError>(m1)),
    ensures
        now <= m1.last_updated_ts,
        m1.supply_index >= m.supply_index,
        m1.borrow_index >= m.borrow_index,
{
    law_accrue_monotone(m, c, now, m1);
}

/// Compounding a principal recorded at the current index returns it unchanged.
proof fn lemma_compound_at_same_index(principal: u128, index: u128)
    requires
        index >= 1,
        principal * index <= u128::MAX,
    ensures
        principal * index / index_or_one(index) == principal,
{
    vstd::arithmetic::div_mod::lemma_div_multiples_vanish(principal as int, index as int);
    vstd::arithmetic::mul::lemma_mul_is_commutative(principal as int, index as int);
}

/// A deposit followed, at the same time, by a withdrawal of the same amount succeeds and
/// gives the amount back: the market's cash returns to its accrued value and the user's
/// supply principal to what it was after compounding.  This holds whenever the deposit
/// succeeded, the vault holds the amount, the market's supply index is at least one, the
/// compounded principal times the index fits in `u128` (otherwise the withdrawal's
/// compounding overflows) and the slot's debt stays within the supply that remains times the
/// market's LTV (otherwise the withdrawal is refused for want of collateral).
pub proof fn law_deposit_then_withdraw(m: Market, c: Config, whitelisted: bool, up: UserPosition, program_id: Seq<u8>, market_key: [u8; 32], user_key: [u8; 32], amount: u64, now: u64, vault_amount: u64, m2: Market, u2: UserPosition)
    requires
        deposit_spec(m, c, whitelisted, up, program_id, market_key, user_key, amount, now) == Some(Ok::<(Market, UserPosition), AurumError>((m2, u2))),
        vault_amount >= amount,
        m.supply_index >= 1,
        u2.positions@[0].supply_principal * m2.supply_index <= u128::MAX,
        (u2.positions@[0].supply_principal - amount) * m2.ltv_bps <= u128::MAX,
        borrow_balance_spec(u2.positions@[0], m2) matches Ok(debt)
            && debt <= max_borrow_allowed((u2.positions@[0].supply_principal - amount) as u128, m2),
    ensures
        accrue_spec(m, c, now) matches Some(Ok(m1)) && m2.total_cash == m1.total_cash + amount,
        withdraw_spec(m2, c, u2, market_key, m2.vault, vault_amount, market_key, amount, now) == Some(Ok::<(Market, UserPosition), AurumError>((
            Market { total_cash: (m2.total_cash - amount) as u128, ..m2 },
            with_slot0(u2, Position { supply_principal: (u2.positions@[0].supply_principal - amount) as u128, ..u2.positions@[0] }),
        ))),
{
    let m1 = accrue_spec(m, c, now)->Some_0->Ok_0;
    lemma_accrued_is_current(m, c, now, m1);
    let mc = Market { total_cash: (m1.total_cash + amount) as u128, ..m1 };
    assert(m2 == mc);
    assert(accrue_spec(m2, c, now) == Some(Ok::<Market, AurumError>(m2)));
    let p2 = u2.positions@[0];
    assert(p2.supply_index == m2.supply_index && p2.supply_principal >= amount) by {
        if up.positions@[0].market@ == zero_key() {
            let b = program_address_bump(user_position_seeds(market_key@, user_key@), program_id)->Some_0;
            let ui = deposit_init(up, b, user_key, market_key, mc);
            assert(supply_into_slot0(mc, ui, amount) == Some(Ok::<(Market, UserPosition), AurumError>((m2, u2))));
        } else {
            assert(supply_into_slot0(mc, up, amount) == Some(Ok::<(Market, UserPosition), AurumError>((m2, u2))));
        }
    }
    lemma_compound_at_same_index(p2.supply_principal, m2.supply_index);
}

/// A successful deposit adds the amount to the existing supply compounded to the accrued
/// market's supply index (earned interest is kept; a fresh position starts from nothing),
/// records that index, and adds the amount to the market's cash.
pub proof fn law_deposit_compounds_then_adds(m: Market, c: Config, whitelisted: bool, up: UserPosition, program_id: Seq<u8>, market_key: [u8; 32], user_key: [u8; 32], amount: u64, now: u64, m2: Market, u2: UserPosition)
    requires
        deposit_spec(m, c, whitelisted, up, program_id, market_key, user_key, amount, now) == Some(Ok::<(Market, UserPosition), AurumError>((m2, u2))),
    ensures
        accrue_spec(m, c, now) matches Some(Ok(m1)) && ({
            let p = up.positions@[0];
            let supply_before: int = if p.market@ == zero_key() || p.supply_principal == 0 {
                0
            } else {
                p.supply_principal * m1.supply_index / (if p.supply_index >= 1 { p.supply_index as int } else { 1int })
            };
            &&& u2.positions@[0].supply_principal == supply_before + amount
            &&& u2.positions@[0].supply_index == m1.supply_index
            &&& m2.total_cash == m1.total_cash + amount
        }),
{
    let m1 = accrue_spec(m, c, now)->Some_0->Ok_0;
    let mc = Market { total_cash: (m1.total_cash + amount) as u128, ..m1 };
    if up.positions@[0].market@ == zero_key() {
        let b = program_address_bump(user_position_seeds(market_key@, user_key@), program_id)->Some_0;
        let ui = deposit_init(up, b, user_key, market_key, mc);
        assert(supply_into_slot0(mc, ui, amount) == Some(Ok::<(Market, UserPosition), AurumError>((m2, u2))));
    } else {
        assert(supply_into_slot0(mc, up, amount) == Some(Ok::<(Market, UserPosition), AurumError>((m2, u2))));
    }
}

/// The first slot is the one found for its own market when that market is set.
proof fn lemma_slot0_found(up: UserPosition, key: [u8; 32])
    requires
        up.positions@[0].market@ == key@,
        key@ != zero_key(),
    ensures
        slot0_for(up, key@) == Some(up.positions@[0]),
{
}

/// Borrowing and then, at the same time, repaying the same amount succeeds, repays exactly
/// that amount and restores the debt: the market's cash and borrows and the user's borrow
/// principal return to their accrued values.  This holds when the first slot belongs to
/// the market (or is unused), the market address is set, its borrow index is at least one
/// and the compounded debt times the index fits in `u128`.
pub proof fn law_borrow_then_repay(m: Market, c: Config, whitelisted: bool, up: UserPosition, program_id: Seq<u8>, market_key: [u8; 32], user_key: [u8; 32], amount: u64, now: u64, m2: Market, u2: UserPosition)
    requires
        borrow_spec(m, c, whitelisted, up, program_id, market_key, user_key, amount, now) == Some(Ok::<(Market, UserPosition), AurumError>((m2, u2))),
        up.positions@[0].market@ == market_key@ || up.positions@[0].market@ == zero_key(),
        market_key@ != zero_key(),
        m.borrow_index >= 1,
        u2.positions@[0].borrow_principal * m2.borrow_index <= u128::MAX,
    ensures
        accrue_spec(m, c, now) matches Some(Ok(m1)) && m2.total_cash + amount == m1.total_cash
            && m2.total_borrows == m1.total_borrows + amount,
        repay_spec(m2, c, u2, market_key, m2.vault, amount, now) == Some(Ok::<(Market, UserPosition, u64), AurumError>((
            Market { total_cash: (m2.total_cash + amount) as u128, total_borrows: (m2.total_borrows - amount) as u128, ..m2 },
            with_slot0(u2, Position { borrow_principal: (u2.positions@[0].borrow_principal - amount) as u128, ..u2.positions@[0] }),
            amount,
        ))),
{
    let m1 = accrue_spec(m, c, now)->Some_0->Ok_0;
    lemma_accrued_is_current(m, c, now, m1);
    let ui = if up.positions@[0].market@ == zero_key() {
        let b = program_address_bump(user_position_seeds(market_key@, user_key@), program_id)->Some_0;
        borrow_init(up, b, user_key, market_key, m1)
    } else {
        up
    };
    assert(borrow_after_init(m1, c, ui, market_key, amount) == Some(Ok::<(Market, UserPosition), AurumError>((m2, u2))));
    assert(ui.positions@[0].market@ == market_key@);
    assert(u2.positions@[0].market@ == market_key@);
    assert(accrue_spec(m2, c, now) == Some(Ok::<Market, AurumError>(m2)));
    let p2 = u2.positions@[0];
    assert(p2.borrow_index == m2.borrow_index && p2.borrow_principal >= amount);
    lemma_slot0_found(u2, market_key);
    lemma_compound_at_same_index(p2.borrow_principal, m2.borrow_index);
}

/// A repayment takes the offer, capped at slot 0's debt compounded to the accrued market's
/// borrow index; the user's debt drops by exactly that amount and is recorded at that index
/// (so it is not compounded again), and the market's borrows move into its cash.
pub proof fn law_repay_capped_at_debt(m: Market, c: Config, up: UserPosition, market_key: [u8; 32], vault_key: [u8; 32], amount: u64, now: u64, m2: Market, u2: UserPosition, t: u64)
    requires
        repay_spec(m, c, up, market_key, vault_key, amount, now) == Some(Ok::<(Market, UserPosition, u64), AurumError>((m2, u2, t))),
    ensures
        accrue_spec(m, c, now) matches Some(Ok(m1)) && match slot0_for(up, market_key@) {
            Some(q) => match borrow_balance_spec(q, m1) {
                Ok(debt) => t <= amount && t <= debt
                    && t == (if amount <= debt { amount as int } else { debt as int })
                    && debt == (if q.borrow_principal == 0 { 0int } else {
                        q.borrow_principal * m1.borrow_index / (if q.borrow_index >= 1 { q.borrow_index as int } else { 1int }) })
                    && u2.positions@[0].borrow_principal == debt - t
                    && u2.positions@[0].borrow_index == m1.borrow_index
                    && m2.total_borrows + t == m1.total_borrows
                    && m2.total_cash == m1.total_cash + t,
                Err(_) => false,
            },
            None => false,
        },
{
    let m1 = accrue_spec(m, c, now)->Some_0->Ok_0;
    assert(repay_after_accrue(m1, up, market_key, amount) == Some(Ok::<(Market, UserPosition, u64), AurumError>((m2, u2, t))));
}

/// A debt of the same asset as its collateral that stays within `supply * ltv / 10_000`
/// stays within that bound in value at any price: the price scales both sides alike.
pub proof fn law_same_asset_bound_at_any_price(debt: int, supply: int, ltv: int, price: int)
    requires
        0 <= debt,
        0 <= supply,
        0 <= ltv,
        0 <= price,
        debt <= supply * ltv / 10_000,
    ensures
        debt * price * 10_000 <= supply * price * ltv,
{
    assert(debt * 10_000 <= supply * ltv) by {
        vstd::arithmetic::div_mod::lemma_fundamental_div_mod(supply * ltv, 10_000);
        vstd::arithmetic::mul::lemma_mul_inequality(debt, (supply * ltv) / 10_000, 10_000);
        vstd::arithmetic::mul::lemma_mul_is_commutative(10_000, (supply * ltv) / 10_000);
    }
    assert(debt * price * 10_000 <= supply * price * ltv) by (nonlinear_arith)
        requires
            debt * 10_000 <= supply * ltv,
            0 <= price,
    {
    }
}

/// A successful borrow adds the amount to the existing debt compounded to the accrued
/// market's borrow index (no accrued interest is forgiven) and records that index; the debt
/// stays within the collateral limit, at most the market's LTV share of slot 0's supply
/// balance; and the borrowed amount moves from the market's cash to its borrows.
pub proof fn law_borrow_within_limit(m: Market, c: Config, whitelisted: bool, up: UserPosition, program_id: Seq<u8>, market_key: [u8; 32], user_key: [u8; 32], amount: u64, now: u64, m2: Market, u2: UserPosition)
    requires
        borrow_spec(m, c, whitelisted, up, program_id, market_key, user_key, amount, now) == Some(Ok::<(Market, UserPosition), AurumError>((m2, u2))),
    ensures
        accrue_spec(m, c, now) matches Some(Ok(m1)) && m2.total_cash + amount == m1.total_cash
            && m2.total_borrows == m1.total_borrows + amount,
        match slot0_for(u2, market_key@) {
            Some(q) => match supply_balance_spec(q, m2) {
                Ok(bal) => u2.positions@[0].borrow_principal <= max_borrow_allowed(bal, m2),
                Err(_) => false,
            },
            None => false,
        },
        accrue_spec(m, c, now) matches Some(Ok(m1)) && ({
            let p = up.positions@[0];
            let debt_before: int = if p.market@ == zero_key() || p.borrow_principal == 0 {
                0
            } else {
                p.borrow_principal * m1.borrow_index / (if p.borrow_index >= 1 { p.borrow_index as int } else { 1int })
            };
            &&& u2.positions@[0].borrow_principal == debt_before + amount
            &&& u2.positions@[0].borrow_index == m1.borrow_index
        }),
{
    let m1 = accrue_spec(m, c, now)->Some_0->Ok_0;
    let ui = if up.positions@[0].market@ == zero_key() {
        let b = program_address_bump(user_position_seeds(market_key@, user_key@), program_id)->Some_0;
        borrow_init(up, b, user_key, market_key, m1)
    } else {
        up
    };
    assert(borrow_after_init(m1, c, ui, market_key, amount) == Some(Ok::<(Market, UserPosition), AurumError>((m2, u2))));
}

/// A successful withdrawal takes the amount out of the supply compounded to the accrued
/// market's supply index (earned interest is kept), records that index, takes the amount
/// out of the market's cash, and leaves the position's debt within its collateral: slot 0's
/// debt, compounded to the accrued market, is at most the market's LTV share of the supply
/// that remains.
pub proof fn law_withdraw_keeps_collateral(m: Market, c: Config, up: UserPosition, market_key: [u8; 32], vault_key: [u8; 32], vault_amount: u64, vault_owner: [u8; 32], amount: u64, now: u64, m2: Market, u2: UserPosition)
    requires
        withdraw_spec(m, c, up, market_key, vault_key, vault_amount, vault_owner, amount, now) == Some(Ok::<(Market, UserPosition), AurumError>((m2, u2))),
    ensures
        accrue_spec(m, c, now) matches Some(Ok(m1)) && match borrow_balance_spec(up.positions@[0], m1) {
            Ok(debt) => debt <= max_borrow_allowed(u2.positions@[0].supply_principal, m2),
            Err(_) => false,
        },
        accrue_spec(m, c, now) matches Some(Ok(m1)) && ({
            let p = up.positions@[0];
            let supply: int = if p.supply_principal > 0 {
                p.supply_principal * m1.supply_index / (if p.supply_index >= 1 { p.supply_index as int } else { 1int })
            } else {
                p.supply_principal as int
            };
            &&& u2.positions@[0].supply_principal == supply - amount
            &&& u2.positions@[0].supply_index == m1.supply_index
            &&& m2.total_cash == m1.total_cash - amount
        }),
{
    let m1 = accrue_spec(m, c, now)->Some_0->Ok_0;
    assert(withdraw_after_accrue(m1, up, market_key, vault_amount, vault_owner, amount) == Some(Ok::<(Market, UserPosition), AurumError>((m2, u2))));
}

/// Only positions in shortfall can be liquidated, and a liquidation is bounded: at the
/// oracle prices, the value of the user's debt, compounded to the accrued borrow index,
/// exceeded the value of the compounded supply times the liquidation threshold; the
/// liquidator repays exactly the smaller of the offer and that debt; the collateral seized
/// is the repaid value in collateral units plus the bonus, and never more than the user's
/// supply; the repayment moves the credit market's borrows into its cash and the seizure
/// leaves the asset market's cash.
pub proof fn law_liquidation_bounded(a: Market, cm: Market, c: Config, ua: UserPosition, uc: UserPosition, asset_key: [u8; 32], credit_key: [u8; 32], asset_vault_key: [u8; 32], credit_vault_key: [u8; 32], asset_price: u128, credit_price: u128, asset_vault_owner: [u8; 32], amount: u64, now: u64, out: LiquidationOutcome)
    requires
        liquidate_spec(a, cm, c, ua, uc, asset_key, credit_key, asset_vault_key, credit_vault_key, Ok(asset_price), Ok(credit_price), asset_vault_owner, amount, now) == Some(Ok::<LiquidationOutcome, AurumError>(out)),
    ensures
        accrue_spec(a, c, now) matches Some(Ok(a1)) && accrue_spec(cm, c, now) matches Some(Ok(c1))
        && match (slot0_for(ua, asset_key@), slot0_for(uc, credit_key@)) {
            (Some(qa), Some(qc)) => match (supply_balance_spec(qa, a1), borrow_balance_spec(qc, c1)) {
                (Ok(supply), Ok(debt)) => {
                    let repaid = out.4 as int;
                    let seized = a1.total_cash - out.0.total_cash;
                    &&& value_at(debt, credit_price) > liquidation_limit(supply, asset_price, c)
                    &&& debt == (if qc.borrow_principal == 0 { 0int } else {
                        qc.borrow_principal * c1.borrow_index / (if qc.borrow_index >= 1 { qc.borrow_index as int } else { 1int }) })
                    &&& supply == (if qa.supply_principal == 0 { 0int } else {
                        qa.supply_principal * a1.supply_index / (if qa.supply_index >= 1 { qa.supply_index as int } else { 1int }) })
                    &&& repaid == (if amount <= debt { amount as int } else { debt as int })
                    &&& 0 < repaid <= amount && repaid <= debt
                    &&& seized == seize_amount(repaid as u128, credit_price, asset_price, c)
                    &&& 0 <= seized <= supply
                    &&& out.2.positions@[0].supply_principal == supply - seized
                    &&& out.3.positions@[0].borrow_principal == debt - repaid
                    &&& out.1.total_borrows + repaid == c1.total_borrows
                    &&& out.1.total_cash == c1.total_cash + repaid
                },
                _ => false,
            },
            _ => false,
        },
{
    let a1 = accrue_spec(a, c, now)->Some_0->Ok_0;
    let c1 = accrue_spec(cm, c, now)->Some_0->Ok_0;
    assert(liquidate_after_accrue(a1, c1, c, ua, uc, asset_key, credit_key, asset_price, credit_price, asset_vault_owner, amount) == Some(Ok::<LiquidationOutcome, AurumError>(out)));
    let qa = slot0_for(ua, asset_key@)->Some_0;
    let qc = slot0_for(uc, credit_key@)->Some_0;
    let supply = supply_balance_spec(qa, a1)->Ok_0;
    let debt = borrow_balance_spec(qc, c1)->Ok_0;
    assert(liquidation_limit(supply, asset_price, c) >= 0) by (nonlinear_arith)
        requires
            supply >= 0,
            asset_price >= 0,
            c.liquidation_threshold >= 0,
            liquidation_limit(supply, asset_price, c)
                == (supply * asset_price / 1_000_000_000_000_000_000int) * c.liquidation_threshold / 10_000,
    {
    }
    assert(debt > 0) by {
        if debt == 0 {
            vstd::arithmetic::mul::lemma_mul_basics(credit_price as int);
        }
    }
    let repay = if (amount as u128) <= debt { amount as u128 } else { debt };
    assert(seize_amount(repay, credit_price, asset_price, c) >= 0) by (nonlinear_arith)
        requires
            repay >= 0,
            credit_price >= 0,
            asset_price > 0,
            c.liquidation_bonus >= 0,
            seize_amount(repay, credit_price, asset_price, c)
                == (repay * credit_price / asset_price as int) * (10_000 + c.liquidation_bonus) / 10_000,
    {
    }
}

/// A liquidation within one market keeps both of its effects: the market's borrows drop by
/// the repayment, its cash rises by the repayment and drops by the seizure, and the user's
/// position (one account) owes the compounded debt less the repayment while holding the
/// compounded supply less the seizure.  The seizure returned for the transfer is that amount
/// as a `u64`.
pub proof fn law_same_market_liquidation_applies_both(m: Market, c: Config, up: UserPosition, market_key: [u8; 32], vault_key: [u8; 32], price: u128, vault_owner: [u8; 32], amount: u64, now: u64, m2: Market, u2: UserPosition, repaid: u64, seized: u64)
    requires
        liquidate_same_market_spec(m, c, up, market_key, vault_key, Ok(price), vault_owner, amount, now)
            == Some(Ok::<(Market, UserPosition, u64, u64), AurumError>((m2, u2, repaid, seized))),
    ensures
        accrue_spec(m, c, now) matches Some(Ok(m1)) && match slot0_for(up, market_key@) {
            Some(q) => match (supply_balance_spec(q, m1), borrow_balance_spec(q, m1)) {
                (Ok(supply), Ok(debt)) => {
                    let seize = supply - u2.positions@[0].supply_principal;
                    &&& seize == seize_amount(repaid as u128, price, price, c)
                    &&& seized == seize as u64
                    &&& repaid == (if amount <= debt { amount as int } else { debt as int })
                    &&& m2.total_cash == m1.total_cash + repaid - seize
                    &&& m2.total_borrows == m1.total_borrows - repaid
                    &&& u2.positions@[0].borrow_principal == debt - repaid
                    &&& u2.positions@[0].borrow_index == m1.borrow_index
                    &&& u2.positions@[0].supply_index == m1.supply_index
                },
                _ => false,
            },
            None => false,
        },
{
    let m1 = accrue_spec(m, c, now)->Some_0->Ok_0;
    assert(liquidate_same_market_after_accrue(m1, c, up, market_key, price, vault_owner, amount)
        == Some(Ok::<(Market, UserPosition, u64, u64), AurumError>((m2, u2, repaid, seized))));
    let out = liquidate_after_accrue(m1, m1, c, up, up, market_key, market_key, price, price, vault_owner, amount)->Some_0->Ok_0;
    assert(liquidate_after_accrue(m1, m1, c, up, up, market_key, market_key, price, price, vault_owner, amount)
        == Some(Ok::<LiquidationOutcome, AurumError>(out)));
}

/// Once the protocol is paused, every user instruction (deposit, withdraw, borrow, repay,
/// liquidate) is refused with `ProtocolPaused`, whatever its other inputs.
pub proof fn law_paused_refuses_user_operations(
    c: Config,
    now_paused: u64,
    whitelisted: bool,
    m: Market,
    m_other: Market,
    up: UserPosition,
    up_other: UserPosition,
    program_id: Seq<u8>,
    market_key: [u8; 32],
    other_key: [u8; 32],
    user_key: [u8; 32],
    vault_key: [u8; 32],
    vault_amount: u64,
    vault_owner: [u8; 32],
    asset_price: u128,
    credit_price: u128,
    amount: u64,
    now: u64,
)
    requires
        pause_spec(c, now_paused) is Ok,
    ensures
        ({
            let p = pause_spec(c, now_paused).unwrap();
            let refused = AurumError::ProtocolPaused;
            &&& deposit_spec(m, p, whitelisted, up, program_id, market_key, user_key, amount, now) == Some(Err::<(Market, UserPosition), AurumError>(refused))
            &&& withdraw_spec(m, p, up, market_key, vault_key, vault_amount, vault_owner, amount, now) == Some(Err::<(Market, UserPosition), AurumError>(refused))
            &&& borrow_spec(m, p, whitelisted, up, program_id, market_key, user_key, amount, now) == Some(Err::<(Market, UserPosition), AurumError>(refused))
            &&& repay_spec(m, p, up, market_key, vault_key, amount, now) == Some(Err::<(Market, UserPosition, u64), AurumError>(refused))
            &&& liquidate_spec(m, m_other, p, up, up_other, market_key, other_key, vault_key, vault_key, Ok(asset_price), Ok(credit_price), vault_owner, amount, now) == Some(Err::<LiquidationOutcome, AurumError>(refused))
        }),
{
}

} // verus!
