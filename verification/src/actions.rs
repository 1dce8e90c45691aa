//! The user instructions of a market: deposit, withdraw, borrow, repay and liquidate.
//! Each computes the new account state; moving the tokens is left to the caller, which
//! receives the amounts to transfer.  On an error no account changes.
use vstd::prelude::*;
use vstd::string::StringSliceAdditionalSpecFns;
use crate::balances::{compound, index_or_one, slot0_borrow_balance, slot0_for, slot0_supply_balance, borrow_balance_spec, supply_balance_spec};
use crate::constants::{BPS_DENOMINATOR, INDEX_MANTISSA, PRICE_MAXIMUM_AGE, USER_POSITION_SEED};
use crate::math::mul_div_floor;
use crate::errors::AurumError;
use crate::interest::{accrue_core, accrue_spec};
use crate::oracle::{price_value_at, price_value_spec, PriceUpdate};
use crate::outside::{clock_unix_timestamp, find_bump, program_address_bump};
use crate::state::{key_is_default, keys_equal, zero_key, Config, Market, MintWhitelisted, Position, UserPosition};

verus! {

/// Seeds of a user position address: the user-position seed, the market and the user.
pub open spec fn user_position_seeds(market_key: Seq<u8>, user_key: Seq<u8>) -> Seq<Seq<u8>> {
    seq![USER_POSITION_SEED.spec_bytes(), market_key, user_key]
}

/// `up` with its first slot replaced by `p`.
pub open spec fn with_slot0(up: UserPosition, p: Position) -> UserPosition {
    UserPosition { positions: vstd::array::spec_array_update(up.positions, 0, p), ..up }
}

/// Builds the seed list of a user position address.
fn user_position_seed_list(market_key: &[u8; 32], user_key: &[u8; 32]) -> (r: Vec<Vec<u8>>)
    ensures
        r.deep_view() == user_position_seeds(market_key@, user_key@),
{
    let mut seeds: Vec<Vec<u8>> = Vec::new();
    seeds.push(vstd::slice::slice_to_vec(USER_POSITION_SEED.as_bytes()));
    seeds.push(vstd::slice::slice_to_vec(vstd::array::array_as_slice(market_key)));
    seeds.push(vstd::slice::slice_to_vec(vstd::array::array_as_slice(user_key)));
    proof {
        assert(seeds@[0].deep_view() =~= USER_POSITION_SEED.spec_bytes());
        assert(seeds@[1].deep_view() =~= market_key@);
        assert(seeds@[2].deep_view() =~= user_key@);
        assert(seeds.deep_view() =~= user_position_seeds(market_key@, user_key@));
    }
    seeds
}

// ---------------------------------------------------------------------------
// Deposit
// ---------------------------------------------------------------------------

/// A user position freshly set up by a deposit into the market `market_key`.
pub open spec fn deposit_init(up: UserPosition, bump: u8, user_key: [u8; 32], market_key: [u8; 32], m: Market) -> UserPosition {
    UserPosition {
        bump: bump,
        owner: user_key,
        ..with_slot0(up, Position {
            market: market_key,
            supply_index: m.supply_index,
            borrow_index: m.borrow_index,
            supply_principal: 0,
            borrow_principal: 0,
            is_collateral: 0,
        })
    }
}

/// Compounds the first slot's supply to the market index and adds `amount` to it.
pub open spec fn supply_into_slot0(m: Market, up: UserPosition, amount: u64) -> Option<Result<(Market, UserPosition), AurumError>> {
    let p = up.positions@[0];
    if p.supply_principal > 0 && p.supply_principal * m.supply_index > u128::MAX {
        None
    } else {
        let sp: int = if p.supply_principal > 0 {
            p.supply_principal * m.supply_index / index_or_one(p.supply_index)
        } else {
            p.supply_principal as int
        };
        if sp + amount > u128::MAX {
            None
        } else {
            Some(Ok((m, with_slot0(up, Position { supply_principal: (sp + amount) as u128, supply_index: m.supply_index, ..p }))))
        }
    }
}

/// Deposit of `amount` by the user `user_key` at time `now`: refused while the protocol is
/// paused, for a mint that is not `whitelisted` and for a zero amount; otherwise accrue, add
/// the amount to the market's cash, set up the position on first use, then compound and
/// grow its supply.  `None` marks the inputs on which the arithmetic leaves `u128` unchecked.
pub open spec fn deposit_spec(m: Market, c: Config, whitelisted: bool, up: UserPosition, program_id: Seq<u8>, market_key: [u8; 32], user_key: [u8; 32], amount: u64, now: u64) -> Option<Result<(Market, UserPosition), AurumError>> {
    if c.paused {
        Some(Err(AurumError::ProtocolPaused))
    } else if !whitelisted {
        Some(Err(AurumError::MintNotWhitelisted))
    } else if amount == 0 {
        Some(Err(AurumError::InvalidAmount))
    } else {
        match accrue_spec(m, c, now) {
            None => None,
            Some(Err(e)) => Some(Err(e)),
            Some(Ok(m1)) => if m1.total_cash + amount > u128::MAX {
                None
            } else {
                let m2 = Market { total_cash: (m1.total_cash + amount) as u128, ..m1 };
                if up.positions@[0].market@ == zero_key() {
                    match program_address_bump(user_position_seeds(market_key@, user_key@), program_id) {
                        None => Some(Err(AurumError::AddressDerivationFailed)),
                        Some(b) => supply_into_slot0(m2, deposit_init(up, b, user_key, market_key, m2), amount),
                    }
                } else {
                    supply_into_slot0(m2, up, amount)
                }
            },
        }
    }
}

fn supply_into_slot0_exec(m: &Market, up: &mut UserPosition, amount: u64) -> (r: Option<Result<(), AurumError>>)
    ensures
        match supply_into_slot0(*m, *old(up), amount) {
            None => r is None,
            Some(Ok((_, u2))) => r == Some(Ok::<(), AurumError>(())) && *final(up) == u2,
            Some(Err(e)) => r == Some(Err::<(), AurumError>(e)),
        },
{
    let mut p: Position = up.positions[0];
    if p.supply_principal > 0 {
        let divisor: u128 = if p.supply_index >= 1 { p.supply_index } else { 1 };
        p.supply_principal = match p.supply_principal.checked_mul(m.supply_index) {
            Some(x) => x / divisor,
            None => return None,
        };
    }
    p.supply_index = m.supply_index;
    p.supply_principal = match p.supply_principal.checked_add(amount as u128) {
        Some(x) => x,
        None => return None,
    };
    up.positions[0] = p;
    Some(Ok(()))
}

fn deposit_core(market: &mut Market, config: &Config, mint_whitelisted: &MintWhitelisted, user_position: &mut UserPosition, program_id: &[u8; 32], market_key: &[u8; 32], user_key: &[u8; 32], amount: u64, now_ts: u64) -> (r: Option<Result<(), AurumError>>)
    ensures
        match deposit_spec(*old(market), *config, mint_whitelisted.is_whitelisted, *old(user_position), program_id@, *market_key, *user_key, amount, now_ts) {
            Some(Ok((m2, u2))) => r == Some(Ok::<(), AurumError>(())) && *final(market) == m2 && *final(user_position) == u2,
            Some(Err(e)) => r == Some(Err::<(), AurumError>(e)) && *final(market) == *old(market) && *final(user_position) == *old(user_position),
            None => r is None && *final(market) == *old(market) && *final(user_position) == *old(user_position),
        },
{
    if config.paused {
        return Some(Err(AurumError::ProtocolPaused));
    }
    if !mint_whitelisted.is_whitelisted {
        return Some(Err(AurumError::MintNotWhitelisted));
    }
    if amount == 0 {
        return Some(Err(AurumError::InvalidAmount));
    }
    let mut m: Market = *market;
    match accrue_core(&mut m, config, now_ts) {
        Some(Ok(())) => {},
        Some(Err(e)) => return Some(Err(e)),
        None => return None,
    }
    m.total_cash = match m.total_cash.checked_add(amount as u128) {
        Some(x) => x,
        None => return None,
    };
    let mut u: UserPosition = *user_position;
    if key_is_default(&u.positions[0].market) {
        let seeds = user_position_seed_list(market_key, user_key);
        let bump: u8 = match find_bump(&seeds, program_id) {
            Some(b) => b,
            None => return Some(Err(AurumError::AddressDerivationFailed)),
        };
        u.bump = bump;
        u.owner = *user_key;
        u.positions[0] = Position {
            market: *market_key,
            supply_index: m.supply_index,
            borrow_index: m.borrow_index,
            supply_principal: 0,
            borrow_principal: 0,
            is_collateral: 0,
        };
    }
    match supply_into_slot0_exec(&m, &mut u, amount) {
        Some(Ok(())) => {},
        Some(Err(e)) => return Some(Err(e)),
        None => return None,
    }
    *market = m;
    *user_position = u;
    Some(Ok(()))
}

/// Deposit of `amount` into the market by the user `user_key`, at time `now_ts`.
/// The caller moves `amount` tokens from the user to the market vault.
pub fn deposit_at(market: &mut Market, config: &Config, mint_whitelisted: &MintWhitelisted, user_position: &mut UserPosition, program_id: &[u8; 32], market_key: &[u8; 32], user_key: &[u8; 32], amount: u64, now_ts: u64) -> (r: Result<(), AurumError>)
    requires
        deposit_spec(*old(market), *config, mint_whitelisted.is_whitelisted, *old(user_position), program_id@, *market_key, *user_key, amount, now_ts) is Some,
    ensures
        match deposit_spec(*old(market), *config, mint_whitelisted.is_whitelisted, *old(user_position), program_id@, *market_key, *user_key, amount, now_ts).unwrap() {
            Ok((m2, u2)) => r is Ok && *final(market) == m2 && *final(user_position) == u2,
            Err(e) => r == Err::<(), AurumError>(e) && *final(market) == *old(market) && *final(user_position) == *old(user_position),
        },
{
    match deposit_core(market, config, mint_whitelisted, user_position, program_id, market_key, user_key, amount, now_ts) {
        Some(res) => res,
        None => Err(AurumError::MathOverflow),
    }
}

/// The deposit instruction: `deposit_at` at the time of the cluster clock.  An unreadable
/// clock gives `ClockUnavailable`, a time at which the arithmetic would leave `u128`
/// unchecked gives `MathOverflow`.
pub fn handler_deposit(market: &mut Market, config: &Config, mint_whitelisted: &MintWhitelisted, user_position: &mut UserPosition, program_id: &[u8; 32], market_key: &[u8; 32], user_key: &[u8; 32], amount: u64) -> (r: Result<(), AurumError>)
    ensures
        config.paused ==> r == Err::<(), AurumError>(AurumError::ProtocolPaused),
        !config.paused && !mint_whitelisted.is_whitelisted ==> r == Err::<(), AurumError>(AurumError::MintNotWhitelisted),
        !config.paused && mint_whitelisted.is_whitelisted && amount == 0 ==> r == Err::<(), AurumError>(AurumError::InvalidAmount),
        r is Ok ==> exists|now: u64| deposit_spec(*old(market), *config, mint_whitelisted.is_whitelisted, *old(user_position), program_id@, *market_key, *user_key, amount, now)
            == Some(Ok::<(Market, UserPosition), AurumError>((*final(market), *final(user_position)))),
        r matches Err(e) ==> *final(market) == *old(market) && *final(user_position) == *old(user_position) && (e == AurumError::ClockUnavailable
            || (e == AurumError::MathOverflow && exists|now: u64| #![auto] deposit_spec(*old(market), *config, mint_whitelisted.is_whitelisted, *old(user_position), program_id@, *market_key, *user_key, amount, now) is None)
            || exists|now: u64| deposit_spec(*old(market), *config, mint_whitelisted.is_whitelisted, *old(user_position), program_id@, *market_key, *user_key, amount, now)
                == Some(Err::<(Market, UserPosition), AurumError>(e))),
{
    if config.paused {
        assert(deposit_spec(*market, *config, mint_whitelisted.is_whitelisted, *user_position, program_id@, *market_key, *user_key, amount, 0u64)
            == Some(Err::<(Market, UserPosition), AurumError>(AurumError::ProtocolPaused)));
        return Err(AurumError::ProtocolPaused);
    }
    if !mint_whitelisted.is_whitelisted {
        assert(deposit_spec(*market, *config, mint_whitelisted.is_whitelisted, *user_position, program_id@, *market_key, *user_key, amount, 0u64)
            == Some(Err::<(Market, UserPosition), AurumError>(AurumError::MintNotWhitelisted)));
        return Err(AurumError::MintNotWhitelisted);
    }
    if amount == 0 {
        assert(deposit_spec(*market, *config, mint_whitelisted.is_whitelisted, *user_position, program_id@, *market_key, *user_key, amount, 0u64)
            == Some(Err::<(Market, UserPosition), AurumError>(AurumError::InvalidAmount)));
        return Err(AurumError::InvalidAmount);
    }
    let now_ts: u64 = match clock_unix_timestamp() {
        Ok(t) => #[verifier::truncate] (t as u64),
        Err(_) => return Err(AurumError::ClockUnavailable),
    };
    match deposit_core(market, config, mint_whitelisted, user_position, program_id, market_key, user_key, amount, now_ts) {
        Some(res) => res,
        None => Err(AurumError::MathOverflow),
    }
}

// ---------------------------------------------------------------------------
// Withdraw
// ---------------------------------------------------------------------------

/// Withdrawal of `amount` once the market has accrued: compound the first slot's supply,
/// check the user's balance and the vault's tokens, refuse a withdrawal after which the
/// slot's compounded debt would exceed the remaining supply times the market's LTV, then
/// take the amount out.
pub open spec fn withdraw_after_accrue(m: Market, up: UserPosition, market_key: [u8; 32], vault_amount: u64, vault_owner: [u8; 32], amount: u64) -> Option<Result<(Market, UserPosition), AurumError>> {
    let p = up.positions@[0];
    if p.supply_principal > 0 && p.supply_principal * m.supply_index > u128::MAX {
        None
    } else {
        let sp: int = if p.supply_principal > 0 {
            p.supply_principal * m.supply_index / index_or_one(p.supply_index)
        } else {
            p.supply_principal as int
        };
        if sp < amount {
            Some(Err(AurumError::InsufficientBalance))
        } else if vault_amount < amount {
            Some(Err(AurumError::InsufficientLiquidity))
        } else {
            match borrow_balance_spec(p, m) {
                Err(e) => Some(Err(e)),
                Ok(debt) => if (sp - amount) * m.ltv_bps > u128::MAX {
                    Some(Err(AurumError::MathOverflow))
                } else if debt > max_borrow_allowed((sp - amount) as u128, m) {
                    Some(Err(AurumError::InsufficientCollateral))
                } else {
                    withdraw_take(m, up, p, sp, market_key, vault_owner, amount)
                },
            }
        }
    }
}

/// Last step of a withdrawal: take `amount` out of the market's cash and of the compounded
/// supply `sp` of slot `p`, once the vault is the market's.
pub open spec fn withdraw_take(m: Market, up: UserPosition, p: Position, sp: int, market_key: [u8; 32], vault_owner: [u8; 32], amount: u64) -> Option<Result<(Market, UserPosition), AurumError>> {
    if m.total_cash < amount {
        None
    } else if market_key@ != vault_owner@ {
        Some(Err(AurumError::InvalidVault))
    } else {
        Some(Ok((
            Market { total_cash: (m.total_cash - amount) as u128, ..m },
            with_slot0(up, Position { supply_principal: (sp - amount) as u128, supply_index: m.supply_index, ..p }),
        )))
    }
}

/// Withdrawal of `amount` at time `now`; `vault_key`, `vault_amount` and `vault_owner` are
/// the address, token balance and owner of the vault account handed in, which must be the
/// market's vault.  Refused while the protocol is paused.
pub open spec fn withdraw_spec(m: Market, c: Config, up: UserPosition, market_key: [u8; 32], vault_key: [u8; 32], vault_amount: u64, vault_owner: [u8; 32], amount: u64, now: u64) -> Option<Result<(Market, UserPosition), AurumError>> {
    if c.paused {
        Some(Err(AurumError::ProtocolPaused))
    } else if vault_key@ != m.vault@ {
        Some(Err(AurumError::InvalidVault))
    } else if amount == 0 {
        Some(Err(AurumError::InvalidAmount))
    } else {
        match accrue_spec(m, c, now) {
            None => None,
            Some(Err(e)) => Some(Err(e)),
            Some(Ok(m1)) => withdraw_after_accrue(m1, up, market_key, vault_amount, vault_owner, amount),
        }
    }
}

fn withdraw_core(market: &mut Market, config: &Config, user_position: &mut UserPosition, market_key: &[u8; 32], vault_key: &[u8; 32], vault_amount: u64, vault_owner: &[u8; 32], amount: u64, now_ts: u64) -> (r: Option<Result<(), AurumError>>)
    ensures
        match withdraw_spec(*old(market), *config, *old(user_position), *market_key, *vault_key, vault_amount, *vault_owner, amount, now_ts) {
            Some(Ok((m2, u2))) => r == Some(Ok::<(), AurumError>(())) && *final(market) == m2 && *final(user_position) == u2,
            Some(Err(e)) => r == Some(Err::<(), AurumError>(e)) && *final(market) == *old(market) && *final(user_position) == *old(user_position),
            None => r is None && *final(market) == *old(market) && *final(user_position) == *old(user_position),
        },
{
    if config.paused {
        return Some(Err(AurumError::ProtocolPaused));
    }
    if !keys_equal(vault_key, &market.vault) {
        return Some(Err(AurumError::InvalidVault));
    }
    if amount == 0 {
        return Some(Err(AurumError::InvalidAmount));
    }
    let mut m: Market = *market;
    match accrue_core(&mut m, config, now_ts) {
        Some(Ok(())) => {},
        Some(Err(e)) => return Some(Err(e)),
        None => return None,
    }
    let mut p: Position = user_position.positions[0];
    if p.supply_principal > 0 {
        let divisor: u128 = if p.supply_index >= 1 { p.supply_index } else { 1 };
        p.supply_principal = match p.supply_principal.checked_mul(m.supply_index) {
            Some(x) => x / divisor,
            None => return None,
        };
    }
    p.supply_index = m.supply_index;
    if p.supply_principal < amount as u128 {
        return Some(Err(AurumError::InsufficientBalance));
    }
    if vault_amount < amount {
        return Some(Err(AurumError::InsufficientLiquidity));
    }
    let debt: u128 = match compound(p.borrow_principal, m.borrow_index, p.borrow_index) {
        Ok(x) => x,
        Err(e) => return Some(Err(e)),
    };
    let remaining: u128 = p.supply_principal - amount as u128;
    let allowed: u128 = match remaining.checked_mul(m.ltv_bps as u128) {
        Some(x) => x / BPS_DENOMINATOR,
        None => return Some(Err(AurumError::MathOverflow)),
    };
    if debt > allowed {
        return Some(Err(AurumError::InsufficientCollateral));
    }
    p.supply_principal = p.supply_principal - amount as u128;
    if m.total_cash < amount as u128 {
        return None;
    }
    m.total_cash = m.total_cash - amount as u128;
    if !keys_equal(market_key, vault_owner) {
        return Some(Err(AurumError::InvalidVault));
    }
    let mut u: UserPosition = *user_position;
    u.positions[0] = p;
    *market = m;
    *user_position = u;
    Some(Ok(()))
}

/// Withdrawal of `amount` by the owner of `user_position` at time `now_ts`.  The caller
/// moves `amount` tokens from the market vault to the user.
pub fn withdraw_at(market: &mut Market, config: &Config, user_position: &mut UserPosition, market_key: &[u8; 32], vault_key: &[u8; 32], vault_amount: u64, vault_owner: &[u8; 32], amount: u64, now_ts: u64) -> (r: Result<(), AurumError>)
    requires
        withdraw_spec(*old(market), *config, *old(user_position), *market_key, *vault_key, vault_amount, *vault_owner, amount, now_ts) is Some,
    ensures
        match withdraw_spec(*old(market), *config, *old(user_position), *market_key, *vault_key, vault_amount, *vault_owner, amount, now_ts).unwrap() {
            Ok((m2, u2)) => r is Ok && *final(market) == m2 && *final(user_position) == u2,
            Err(e) => r == Err::<(), AurumError>(e) && *final(market) == *old(market) && *final(user_position) == *old(user_position),
        },
{
    match withdraw_core(market, config, user_position, market_key, vault_key, vault_amount, vault_owner, amount, now_ts) {
        Some(res) => res,
        None => Err(AurumError::MathOverflow),
    }
}

/// The withdraw instruction: `withdraw_at` at the time of the cluster clock.
pub fn handler_withdraw(market: &mut Market, config: &Config, user_position: &mut UserPosition, market_key: &[u8; 32], vault_key: &[u8; 32], vault_amount: u64, vault_owner: &[u8; 32], amount: u64) -> (r: Result<(), AurumError>)
    ensures
        config.paused ==> r == Err::<(), AurumError>(AurumError::ProtocolPaused),
        !config.paused && vault_key@ != old(market).vault@ ==> r == Err::<(), AurumError>(AurumError::InvalidVault),
        !config.paused && !(vault_key@ != old(market).vault@) && amount == 0 ==> r == Err::<(), AurumError>(AurumError::InvalidAmount),
        r is Ok ==> exists|now: u64| withdraw_spec(*old(market), *config, *old(user_position), *market_key, *vault_key, vault_amount, *vault_owner, amount, now)
            == Some(Ok::<(Market, UserPosition), AurumError>((*final(market), *final(user_position)))),
        r matches Err(e) ==> *final(market) == *old(market) && *final(user_position) == *old(user_position) && (e == AurumError::ClockUnavailable
            || (e == AurumError::MathOverflow && exists|now: u64| #![auto] withdraw_spec(*old(market), *config, *old(user_position), *market_key, *vault_key, vault_amount, *vault_owner, amount, now) is None)
            || exists|now: u64| withdraw_spec(*old(market), *config, *old(user_position), *market_key, *vault_key, vault_amount, *vault_owner, amount, now)
                == Some(Err::<(Market, UserPosition), AurumError>(e))),
{
    if config.paused {
        assert(withdraw_spec(*market, *config, *user_position, *market_key, *vault_key, vault_amount, *vault_owner, amount, 0u64)
            == Some(Err::<(Market, UserPosition), AurumError>(AurumError::ProtocolPaused)));
        return Err(AurumError::ProtocolPaused);
    }
    if !keys_equal(vault_key, &market.vault) {
        assert(withdraw_spec(*market, *config, *user_position, *market_key, *vault_key, vault_amount, *vault_owner, amount, 0u64)
            == Some(Err::<(Market, UserPosition), AurumError>(AurumError::InvalidVault)));
        return Err(AurumError::InvalidVault);
    }
    if amount == 0 {
        assert(withdraw_spec(*market, *config, *user_position, *market_key, *vault_key, vault_amount, *vault_owner, amount, 0u64)
            == Some(Err::<(Market, UserPosition), AurumError>(AurumError::InvalidAmount)));
        return Err(AurumError::InvalidAmount);
    }
    let now_ts: u64 = match clock_unix_timestamp() {
        Ok(t) => #[verifier::truncate] (t as u64),
        Err(_) => return Err(AurumError::ClockUnavailable),
    };
    match withdraw_core(market, config, user_position, market_key, vault_key, vault_amount, vault_owner, amount, now_ts) {
        Some(res) => res,
        None => Err(AurumError::MathOverflow),
    }
}

// ---------------------------------------------------------------------------
// Borrow
// ---------------------------------------------------------------------------

/// A user position set up by a first borrow: the first slot gets the market and the current
/// indices with empty principals.
pub open spec fn borrow_init(up: UserPosition, bump: u8, user_key: [u8; 32], market_key: [u8; 32], m: Market) -> UserPosition {
    UserPosition {
        bump: bump,
        owner: user_key,
        ..with_slot0(up, Position {
            market: market_key,
            supply_index: m.supply_index,
            borrow_index: m.borrow_index,
            supply_principal: 0,
            borrow_principal: 0,
            ..up.positions@[0]
        })
    }
}

/// Most a position may owe against a supply balance in the same market: the supply times
/// the market's loan-to-value factor, `supply_balance * ltv_bps / 10_000`.  Debt and
/// collateral are the same asset, so the bound holds of their values at any one price.
pub open spec fn max_borrow_allowed(supply_balance: u128, m: Market) -> int {
    supply_balance * m.ltv_bps / BPS_DENOMINATOR as int
}

/// Borrow of `amount` once the position is set up: compound the debt of slot 0, require
/// collateral in that slot and keep the new debt within the supply balance times the
/// market's LTV.
pub open spec fn borrow_after_init(m: Market, c: Config, up: UserPosition, market_key: [u8; 32], amount: u64) -> Option<Result<(Market, UserPosition), AurumError>> {
    let p = up.positions@[0];
    if p.borrow_principal > 0 && p.borrow_principal * m.borrow_index > u128::MAX {
        None
    } else {
        let bp: int = if p.borrow_principal > 0 {
            p.borrow_principal * m.borrow_index / index_or_one(p.borrow_index)
        } else {
            p.borrow_principal as int
        };
        let up1 = with_slot0(up, Position { borrow_principal: bp as u128, borrow_index: m.borrow_index, ..p });
        if p.supply_principal == 0 {
            Some(Err(AurumError::InsufficientBalance))
        } else {
            match slot0_for(up1, market_key@) {
                None => Some(Err(AurumError::InvalidPosition)),
                Some(q) => match supply_balance_spec(q, m) {
                    Err(e) => Some(Err(e)),
                    Ok(bal) => if bp + amount > u128::MAX || bal * m.ltv_bps > u128::MAX {
                        None
                    } else if bp + amount > max_borrow_allowed(bal, m) {
                        Some(Err(AurumError::InsufficientBalance))
                    } else if m.total_borrows + amount > u128::MAX {
                        None
                    } else {
                        Some(Ok((
                            Market {
                                total_cash: (m.total_cash - amount) as u128,
                                total_borrows: (m.total_borrows + amount) as u128,
                                ..m
                            },
                            with_slot0(up1, Position { borrow_principal: (bp + amount) as u128, borrow_index: m.borrow_index, ..p }),
                        )))
                    },
                },
            }
        }
    }
}

/// Borrow of `amount` by the user `user_key` at time `now`: refused while the protocol is
/// paused, for a mint that is not `whitelisted` and for a zero amount.
pub open spec fn borrow_spec(m: Market, c: Config, whitelisted: bool, up: UserPosition, program_id: Seq<u8>, market_key: [u8; 32], user_key: [u8; 32], amount: u64, now: u64) -> Option<Result<(Market, UserPosition), AurumError>> {
    if c.paused {
        Some(Err(AurumError::ProtocolPaused))
    } else if !whitelisted {
        Some(Err(AurumError::MintNotWhitelisted))
    } else if amount == 0 {
        Some(Err(AurumError::InvalidAmount))
    } else {
        match accrue_spec(m, c, now) {
            None => None,
            Some(Err(e)) => Some(Err(e)),
            Some(Ok(m1)) => if m1.total_cash < amount {
                Some(Err(AurumError::InsufficientLiquidity))
            } else if up.positions@[0].market@ == zero_key() {
                match program_address_bump(user_position_seeds(market_key@, user_key@), program_id) {
                    None => Some(Err(AurumError::AddressDerivationFailed)),
                    Some(b) => borrow_after_init(m1, c, borrow_init(up, b, user_key, market_key, m1), market_key, amount),
                }
            } else {
                borrow_after_init(m1, c, up, market_key, amount)
            },
        }
    }
}

fn borrow_after_init_exec(m: &mut Market, config: &Config, up: &mut UserPosition, market_key: &[u8; 32], amount: u64) -> (r: Option<Result<(), AurumError>>)
    requires
        old(m).total_cash >= amount,
    ensures
        match borrow_after_init(*old(m), *config, *old(up), *market_key, amount) {
            Some(Ok((m2, u2))) => r == Some(Ok::<(), AurumError>(())) && *final(m) == m2 && *final(up) == u2,
            Some(Err(e)) => r == Some(Err::<(), AurumError>(e)),
            None => r is None,
        },
{
    let mut p: Position = up.positions[0];
    if p.borrow_principal > 0 {
        let divisor: u128 = if p.borrow_index >= 1 { p.borrow_index } else { 1 };
        p.borrow_principal = match p.borrow_principal.checked_mul(m.borrow_index) {
            Some(x) => x / divisor,
            None => return None,
        };
    }
    p.borrow_index = m.borrow_index;
    up.positions[0] = p;
    if p.supply_principal == 0 {
        return Some(Err(AurumError::InsufficientBalance));
    }
    let current_supply_balance: u128 = match slot0_supply_balance(up, m, market_key) {
        Ok(bal) => bal,
        Err(e) => return Some(Err(e)),
    };
    let new_borrow_balance: u128 = match p.borrow_principal.checked_add(amount as u128) {
        Some(x) => x,
        None => return None,
    };
    let max_borrow: u128 = match current_supply_balance.checked_mul(m.ltv_bps as u128) {
        Some(x) => x / BPS_DENOMINATOR,
        None => return None,
    };
    if new_borrow_balance > max_borrow {
        return Some(Err(AurumError::InsufficientBalance));
    }
    let new_total_borrows: u128 = match m.total_borrows.checked_add(amount as u128) {
        Some(x) => x,
        None => return None,
    };
    p.borrow_principal = new_borrow_balance;
    up.positions[0] = p;
    m.total_cash = m.total_cash - amount as u128;
    m.total_borrows = new_total_borrows;
    Some(Ok(()))
}

fn borrow_core(market: &mut Market, config: &Config, mint_whitelisted: &MintWhitelisted, user_position: &mut UserPosition, program_id: &[u8; 32], market_key: &[u8; 32], user_key: &[u8; 32], amount: u64, now_ts: u64) -> (r: Option<Result<(), AurumError>>)
    ensures
        match borrow_spec(*old(market), *config, mint_whitelisted.is_whitelisted, *old(user_position), program_id@, *market_key, *user_key, amount, now_ts) {
            Some(Ok((m2, u2))) => r == Some(Ok::<(), AurumError>(())) && *final(market) == m2 && *final(user_position) == u2,
            Some(Err(e)) => r == Some(Err::<(), AurumError>(e)) && *final(market) == *old(market) && *final(user_position) == *old(user_position),
            None => r is None && *final(market) == *old(market) && *final(user_position) == *old(user_position),
        },
{
    if config.paused {
        return Some(Err(AurumError::ProtocolPaused));
    }
    if !mint_whitelisted.is_whitelisted {
        return Some(Err(AurumError::MintNotWhitelisted));
    }
    if amount == 0 {
        return Some(Err(AurumError::InvalidAmount));
    }
    let mut m: Market = *market;
    match accrue_core(&mut m, config, now_ts) {
        Some(Ok(())) => {},
        Some(Err(e)) => return Some(Err(e)),
        None => return None,
    }
    if m.total_cash < amount as u128 {
        return Some(Err(AurumError::InsufficientLiquidity));
    }
    let mut u: UserPosition = *user_position;
    if key_is_default(&u.positions[0].market) {
        let seeds = user_position_seed_list(market_key, user_key);
        let bump: u8 = match find_bump(&seeds, program_id) {
            Some(b) => b,
            None => return Some(Err(AurumError::AddressDerivationFailed)),
        };
        let p0: Position = u.positions[0];
        u.bump = bump;
        u.owner = *user_key;
        u.positions[0] = Position {
            market: *market_key,
            supply_index: m.supply_index,
            borrow_index: m.borrow_index,
            supply_principal: 0,
            borrow_principal: 0,
            ..p0
        };
    }
    match borrow_after_init_exec(&mut m, config, &mut u, market_key, amount) {
        Some(Ok(())) => {},
        Some(Err(e)) => return Some(Err(e)),
        None => return None,
    }
    *market = m;
    *user_position = u;
    Some(Ok(()))
}

/// Borrow of `amount` by the user `user_key` at time `now_ts`.  The caller moves `amount`
/// tokens from the market vault to the user.
pub fn borrow_at(market: &mut Market, config: &Config, mint_whitelisted: &MintWhitelisted, user_position: &mut UserPosition, program_id: &[u8; 32], market_key: &[u8; 32], user_key: &[u8; 32], amount: u64, now_ts: u64) -> (r: Result<(), AurumError>)
    requires
        borrow_spec(*old(market), *config, mint_whitelisted.is_whitelisted, *old(user_position), program_id@, *market_key, *user_key, amount, now_ts) is Some,
    ensures
        match borrow_spec(*old(market), *config, mint_whitelisted.is_whitelisted, *old(user_position), program_id@, *market_key, *user_key, amount, now_ts).unwrap() {
            Ok((m2, u2)) => r is Ok && *final(market) == m2 && *final(user_position) == u2,
            Err(e) => r == Err::<(), AurumError>(e) && *final(market) == *old(market) && *final(user_position) == *old(user_position),
        },
{
    match borrow_core(market, config, mint_whitelisted, user_position, program_id, market_key, user_key, amount, now_ts) {
        Some(res) => res,
        None => Err(AurumError::MathOverflow),
    }
}

/// The borrow instruction: `borrow_at` at the time of the cluster clock.
pub fn handler_borrow(market: &mut Market, config: &Config, mint_whitelisted: &MintWhitelisted, user_position: &mut UserPosition, program_id: &[u8; 32], market_key: &[u8; 32], user_key: &[u8; 32], amount: u64) -> (r: Result<(), AurumError>)
    ensures
        config.paused ==> r == Err::<(), AurumError>(AurumError::ProtocolPaused),
        !config.paused && !mint_whitelisted.is_whitelisted ==> r == Err::<(), AurumError>(AurumError::MintNotWhitelisted),
        !config.paused && mint_whitelisted.is_whitelisted && amount == 0 ==> r == Err::<(), AurumError>(AurumError::InvalidAmount),
        r is Ok ==> exists|now: u64| borrow_spec(*old(market), *config, mint_whitelisted.is_whitelisted, *old(user_position), program_id@, *market_key, *user_key, amount, now)
            == Some(Ok::<(Market, UserPosition), AurumError>((*final(market), *final(user_position)))),
        r matches Err(e) ==> *final(market) == *old(market) && *final(user_position) == *old(user_position) && (e == AurumError::ClockUnavailable
            || (e == AurumError::MathOverflow && exists|now: u64| #![auto] borrow_spec(*old(market), *config, mint_whitelisted.is_whitelisted, *old(user_position), program_id@, *market_key, *user_key, amount, now) is None)
            || exists|now: u64| borrow_spec(*old(market), *config, mint_whitelisted.is_whitelisted, *old(user_position), program_id@, *market_key, *user_key, amount, now)
                == Some(Err::<(Market, UserPosition), AurumError>(e))),
{
    if config.paused {
        assert(borrow_spec(*market, *config, mint_whitelisted.is_whitelisted, *user_position, program_id@, *market_key, *user_key, amount, 0u64)
            == Some(Err::<(Market, UserPosition), AurumError>(AurumError::ProtocolPaused)));
        return Err(AurumError::ProtocolPaused);
    }
    if !mint_whitelisted.is_whitelisted {
        assert(borrow_spec(*market, *config, mint_whitelisted.is_whitelisted, *user_position, program_id@, *market_key, *user_key, amount, 0u64)
            == Some(Err::<(Market, UserPosition), AurumError>(AurumError::MintNotWhitelisted)));
        return Err(AurumError::MintNotWhitelisted);
    }
    if amount == 0 {
        assert(borrow_spec(*market, *config, mint_whitelisted.is_whitelisted, *user_position, program_id@, *market_key, *user_key, amount, 0u64)
            == Some(Err::<(Market, UserPosition), AurumError>(AurumError::InvalidAmount)));
        return Err(AurumError::InvalidAmount);
    }
    let now_ts: u64 = match clock_unix_timestamp() {
        Ok(t) => #[verifier::truncate] (t as u64),
        Err(_) => return Err(AurumError::ClockUnavailable),
    };
    match borrow_core(market, config, mint_whitelisted, user_position, program_id, market_key, user_key, amount, now_ts) {
        Some(res) => res,
        None => Err(AurumError::MathOverflow),
    }
}

// ---------------------------------------------------------------------------
// Repay
// ---------------------------------------------------------------------------

/// The smaller of two amounts.
pub open spec fn min_u128(a: u128, b: u128) -> u128 {
    if a <= b { a } else { b }
}

/// Repayment once the market has accrued: the debt is compounded into the first slot, and
/// at most the whole debt is repaid.  The third component is the amount to transfer.
pub open spec fn repay_after_accrue(m: Market, up: UserPosition, market_key: [u8; 32], amount: u64) -> Option<Result<(Market, UserPosition, u64), AurumError>> {
    match slot0_for(up, market_key@) {
        None => Some(Err(AurumError::InvalidPosition)),
        Some(q) => match borrow_balance_spec(q, m) {
            Err(e) => Some(Err(e)),
            Ok(bal) => {
                let p = up.positions@[0];
                let p1 = Position { borrow_principal: bal, borrow_index: m.borrow_index, ..p };
                if bal == 0 {
                    Some(Ok((m, with_slot0(up, p1), 0u64)))
                } else {
                    let repay = min_u128(amount as u128, bal);
                    if m.total_borrows < repay || m.total_cash + repay > u128::MAX {
                        None
                    } else {
                        Some(Ok((
                            Market {
                                total_borrows: (m.total_borrows - repay) as u128,
                                total_cash: (m.total_cash + repay) as u128,
                                ..m
                            },
                            with_slot0(up, Position { borrow_principal: (bal - repay) as u128, ..p1 }),
                            repay as u64,
                        )))
                    }
                }
            },
        },
    }
}

/// Repayment of up to `amount` at time `now` into the vault account `vault_key`, which must
/// be the market's vault.  Refused while the protocol is paused.
pub open spec fn repay_spec(m: Market, c: Config, up: UserPosition, market_key: [u8; 32], vault_key: [u8; 32], amount: u64, now: u64) -> Option<Result<(Market, UserPosition, u64), AurumError>> {
    if c.paused {
        Some(Err(AurumError::ProtocolPaused))
    } else if vault_key@ != m.vault@ {
        Some(Err(AurumError::InvalidVault))
    } else if amount == 0 {
        Some(Err(AurumError::InvalidAmount))
    } else {
        match accrue_spec(m, c, now) {
            None => None,
            Some(Err(e)) => Some(Err(e)),
            Some(Ok(m1)) => repay_after_accrue(m1, up, market_key, amount),
        }
    }
}

fn repay_core(market: &mut Market, config: &Config, user_position: &mut UserPosition, market_key: &[u8; 32], vault_key: &[u8; 32], amount: u64, now_ts: u64) -> (r: Option<Result<u64, AurumError>>)
    ensures
        match repay_spec(*old(market), *config, *old(user_position), *market_key, *vault_key, amount, now_ts) {
            Some(Ok((m2, u2, t))) => r == Some(Ok::<u64, AurumError>(t)) && *final(market) == m2 && *final(user_position) == u2,
            Some(Err(e)) => r == Some(Err::<u64, AurumError>(e)) && *final(market) == *old(market) && *final(user_position) == *old(user_position),
            None => r is None && *final(market) == *old(market) && *final(user_position) == *old(user_position),
        },
{
    if config.paused {
        return Some(Err(AurumError::ProtocolPaused));
    }
    if !keys_equal(vault_key, &market.vault) {
        return Some(Err(AurumError::InvalidVault));
    }
    if amount == 0 {
        return Some(Err(AurumError::InvalidAmount));
    }
    let mut m: Market = *market;
    match accrue_core(&mut m, config, now_ts) {
        Some(Ok(())) => {},
        Some(Err(e)) => return Some(Err(e)),
        None => return None,
    }
    let mut u: UserPosition = *user_position;
    let current_borrow_balance: u128 = match slot0_borrow_balance(&u, &m, market_key) {
        Ok(x) => x,
        Err(e) => return Some(Err(e)),
    };
    let current_borrow_principal: u128 = current_borrow_balance;
    let mut p: Position = u.positions[0];
    p.borrow_principal = current_borrow_principal;
    p.borrow_index = m.borrow_index;
    if current_borrow_balance == 0 {
        u.positions[0] = p;
        *market = m;
        *user_position = u;
        return Some(Ok(0));
    }
    let repay_amount_u128: u128 = if (amount as u128) <= current_borrow_balance { amount as u128 } else { current_borrow_balance };
    let repay_amount_u64: u64 = repay_amount_u128 as u64;
    p.borrow_principal = p.borrow_principal - repay_amount_u128;
    if m.total_borrows < repay_amount_u128 {
        return None;
    }
    m.total_borrows = m.total_borrows - repay_amount_u128;
    m.total_cash = match m.total_cash.checked_add(repay_amount_u128) {
        Some(x) => x,
        None => return None,
    };
    u.positions[0] = p;
    *market = m;
    *user_position = u;
    Some(Ok(repay_amount_u64))
}

/// Repayment of up to `amount` by the owner of `user_position` at time `now_ts`; returns the
/// amount the caller moves from the user to the market vault (never more than the debt).
pub fn repay_at(market: &mut Market, config: &Config, user_position: &mut UserPosition, market_key: &[u8; 32], vault_key: &[u8; 32], amount: u64, now_ts: u64) -> (r: Result<u64, AurumError>)
    requires
        repay_spec(*old(market), *config, *old(user_position), *market_key, *vault_key, amount, now_ts) is Some,
    ensures
        match repay_spec(*old(market), *config, *old(user_position), *market_key, *vault_key, amount, now_ts).unwrap() {
            Ok((m2, u2, t)) => r == Ok::<u64, AurumError>(t) && *final(market) == m2 && *final(user_position) == u2,
            Err(e) => r == Err::<u64, AurumError>(e) && *final(market) == *old(market) && *final(user_position) == *old(user_position),
        },
{
    match repay_core(market, config, user_position, market_key, vault_key, amount, now_ts) {
        Some(res) => res,
        None => Err(AurumError::MathOverflow),
    }
}

/// The repay instruction: `repay_at` at the time of the cluster clock.
pub fn handler_repay(market: &mut Market, config: &Config, user_position: &mut UserPosition, market_key: &[u8; 32], vault_key: &[u8; 32], amount: u64) -> (r: Result<u64, AurumError>)
    ensures
        config.paused ==> r == Err::<u64, AurumError>(AurumError::ProtocolPaused),
        !config.paused && vault_key@ != old(market).vault@ ==> r == Err::<u64, AurumError>(AurumError::InvalidVault),
        !config.paused && !(vault_key@ != old(market).vault@) && amount == 0 ==> r == Err::<u64, AurumError>(AurumError::InvalidAmount),
        r matches Ok(t) ==> exists|now: u64| repay_spec(*old(market), *config, *old(user_position), *market_key, *vault_key, amount, now)
            == Some(Ok::<(Market, UserPosition, u64), AurumError>((*final(market), *final(user_position), t))),
        r matches Err(e) ==> *final(market) == *old(market) && *final(user_position) == *old(user_position) && (e == AurumError::ClockUnavailable
            || (e == AurumError::MathOverflow && exists|now: u64| #![auto] repay_spec(*old(market), *config, *old(user_position), *market_key, *vault_key, amount, now) is None)
            || exists|now: u64| repay_spec(*old(market), *config, *old(user_position), *market_key, *vault_key, amount, now)
                == Some(Err::<(Market, UserPosition, u64), AurumError>(e))),
{
    if config.paused {
        assert(repay_spec(*market, *config, *user_position, *market_key, *vault_key, amount, 0u64)
            == Some(Err::<(Market, UserPosition, u64), AurumError>(AurumError::ProtocolPaused)));
        return Err(AurumError::ProtocolPaused);
    }
    if !keys_equal(vault_key, &market.vault) {
        assert(repay_spec(*market, *config, *user_position, *market_key, *vault_key, amount, 0u64)
            == Some(Err::<(Market, UserPosition, u64), AurumError>(AurumError::InvalidVault)));
        return Err(AurumError::InvalidVault);
    }
    if amount == 0 {
        assert(repay_spec(*market, *config, *user_position, *market_key, *vault_key, amount, 0u64)
            == Some(Err::<(Market, UserPosition, u64), AurumError>(AurumError::InvalidAmount)));
        return Err(AurumError::InvalidAmount);
    }
    let now_ts: u64 = match clock_unix_timestamp() {
        Ok(t) => #[verifier::truncate] (t as u64),
        Err(_) => return Err(AurumError::ClockUnavailable),
    };
    match repay_core(market, config, user_position, market_key, vault_key, amount, now_ts) {
        Some(res) => res,
        None => Err(AurumError::MathOverflow),
    }
}

// ---------------------------------------------------------------------------
// Liquidate
// ---------------------------------------------------------------------------

/// State after a liquidation: asset market, credit market, the user's asset position, the
/// user's credit position, the amount repaid by the liquidator and the collateral seized.
pub type LiquidationOutcome = (Market, Market, UserPosition, UserPosition, u64, u64);

/// Collateral seized for a repayment of `repay` units of the credit asset: the repaid value
/// at `credit_price` in units of the collateral at `asset_price`, plus the liquidation
/// bonus: `(repay * credit_price / asset_price) * (10_000 + bonus) / 10_000`.
pub open spec fn seize_amount(repay: u128, credit_price: u128, asset_price: u128, c: Config) -> int {
    (repay * credit_price / asset_price as int) * (BPS_DENOMINATOR + c.liquidation_bonus) / BPS_DENOMINATOR as int
}

/// Value of `amount` base units at an 18-decimal `price`: `amount * price / 1e18`.
pub open spec fn value_at(amount: u128, price: u128) -> int {
    amount * price / INDEX_MANTISSA as int
}

/// Debt value above which a position can be liquidated: the value of the supply `sbal` at
/// `asset_price` times the liquidation threshold.
pub open spec fn liquidation_limit(sbal: u128, asset_price: u128, c: Config) -> int {
    value_at(sbal, asset_price) * c.liquidation_threshold / BPS_DENOMINATOR as int
}

/// Liquidation once both markets have accrued, at the 18-decimal oracle prices
/// `asset_price` (of the collateral) and `credit_price` (of the debt).  The user's supply in
/// the asset market and debt in the credit market are slot 0 of the two positions,
/// compounded.  The position may be liquidated when the debt's value (`value_at`) exceeds
/// the supply's value times the liquidation threshold; the liquidator repays at most `amount` and the debt, and seizes
/// `seize_amount` of the supply.
pub open spec fn liquidate_after_accrue(a: Market, cm: Market, c: Config, ua: UserPosition, uc: UserPosition, asset_key: [u8; 32], credit_key: [u8; 32], asset_price: u128, credit_price: u128, asset_vault_owner: [u8; 32], amount: u64) -> Option<Result<LiquidationOutcome, AurumError>> {
    match slot0_for(ua, asset_key@) {
        None => Some(Err(AurumError::InvalidPosition)),
        Some(qa) => match supply_balance_spec(qa, a) {
            Err(e) => Some(Err(e)),
            Ok(sbal) => match slot0_for(uc, credit_key@) {
                None => Some(Err(AurumError::InvalidPosition)),
                Some(qc) => match borrow_balance_spec(qc, cm) {
                    Err(e) => Some(Err(e)),
                    Ok(bbal) => {
                        let pa = Position { supply_principal: sbal, supply_index: a.supply_index, ..ua.positions@[0] };
                        let pc = Position { borrow_principal: bbal, borrow_index: cm.borrow_index, ..uc.positions@[0] };
                        if sbal * asset_price > u128::MAX || value_at(sbal, asset_price) * c.liquidation_threshold > u128::MAX
                            || bbal * credit_price > u128::MAX {
                            Some(Err(AurumError::MathOverflow))
                        } else if value_at(bbal, credit_price) <= liquidation_limit(sbal, asset_price, c) {
                            Some(Err(AurumError::NotLiquidatable))
                        } else if asset_price == 0 {
                            Some(Err(AurumError::InvalidPriceFeed))
                        } else {
                            let repay = min_u128(amount as u128, bbal);
                            if repay * credit_price > u128::MAX
                                || (repay * credit_price / asset_price as int) * (BPS_DENOMINATOR + c.liquidation_bonus) > u128::MAX {
                                Some(Err(AurumError::MathOverflow))
                            } else {
                                let seize = seize_amount(repay, credit_price, asset_price, c);
                                if sbal < seize {
                                    Some(Err(AurumError::InsufficientBalance))
                                } else if a.total_cash < seize {
                                    Some(Err(AurumError::InsufficientLiquidity))
                                } else if cm.total_borrows < repay || cm.total_cash + repay > u128::MAX {
                                    None
                                } else if asset_key@ != asset_vault_owner@ {
                                    Some(Err(AurumError::InvalidVault))
                                } else {
                                    Some(Ok((
                                        Market { total_cash: (a.total_cash - seize) as u128, ..a },
                                        Market {
                                            total_borrows: (cm.total_borrows - repay) as u128,
                                            total_cash: (cm.total_cash + repay) as u128,
                                            ..cm
                                        },
                                        with_slot0(ua, Position { supply_principal: (sbal - seize) as u128, ..pa }),
                                        with_slot0(uc, Position { borrow_principal: (bbal - repay) as u128, ..pc }),
                                        repay as u64,
                                        seize as u64,
                                    )))
                                }
                            }
                        }
                    },
                },
            },
        },
    }
}

/// Liquidation of up to `amount` of the user's debt at time `now`, with the oracle prices
/// (or the errors of reading them) of the collateral and of the debt; `asset_vault_key` and
/// `credit_vault_key` must be the two markets' vaults.  Refused while the protocol is paused.
pub open spec fn liquidate_spec(a: Market, cm: Market, c: Config, ua: UserPosition, uc: UserPosition, asset_key: [u8; 32], credit_key: [u8; 32], asset_vault_key: [u8; 32], credit_vault_key: [u8; 32], asset_price: Result<u128, AurumError>, credit_price: Result<u128, AurumError>, asset_vault_owner: [u8; 32], amount: u64, now: u64) -> Option<Result<LiquidationOutcome, AurumError>> {
    if c.paused {
        Some(Err(AurumError::ProtocolPaused))
    } else if credit_vault_key@ != cm.vault@ || asset_vault_key@ != a.vault@ {
        Some(Err(AurumError::InvalidVault))
    } else if amount == 0 {
        Some(Err(AurumError::InvalidAmount))
    } else {
        match asset_price {
            Err(e) => Some(Err(e)),
            Ok(ap) => match credit_price {
                Err(e) => Some(Err(e)),
                Ok(cp) => match accrue_spec(a, c, now) {
                    None => None,
                    Some(Err(e)) => Some(Err(e)),
                    Some(Ok(a1)) => match accrue_spec(cm, c, now) {
                        None => None,
                        Some(Err(e)) => Some(Err(e)),
                        Some(Ok(c1)) => liquidate_after_accrue(a1, c1, c, ua, uc, asset_key, credit_key, ap, cp, asset_vault_owner, amount),
                    },
                },
            },
        }
    }
}

fn liquidate_after_accrue_exec(a: &mut Market, cm: &mut Market, config: &Config, ua: &mut UserPosition, uc: &mut UserPosition, asset_key: &[u8; 32], credit_key: &[u8; 32], asset_price: u128, credit_price: u128, asset_vault_owner: &[u8; 32], amount: u64) -> (r: Option<Result<(u64, u64), AurumError>>)
    ensures
        match liquidate_after_accrue(*old(a), *old(cm), *config, *old(ua), *old(uc), *asset_key, *credit_key, asset_price, credit_price, *asset_vault_owner, amount) {
            Some(Ok((a2, c2, ua2, uc2, t1, t2))) => r == Some(Ok::<(u64, u64), AurumError>((t1, t2)))
                && *final(a) == a2 && *final(cm) == c2 && *final(ua) == ua2 && *final(uc) == uc2,
            Some(Err(e)) => r == Some(Err::<(u64, u64), AurumError>(e)),
            None => r is None,
        },
{
    let asset_supply_balance: u128 = match slot0_supply_balance(ua, a, asset_key) {
        Ok(x) => x,
        Err(e) => return Some(Err(e)),
    };
    let credit_borrow_balance: u128 = match slot0_borrow_balance(uc, cm, credit_key) {
        Ok(x) => x,
        Err(e) => return Some(Err(e)),
    };
    let mut pa: Position = ua.positions[0];
    pa.supply_principal = asset_supply_balance;
    pa.supply_index = a.supply_index;
    let mut pc: Position = uc.positions[0];
    pc.borrow_principal = credit_borrow_balance;
    pc.borrow_index = cm.borrow_index;

    let supply_value: u128 = match mul_div_floor(asset_supply_balance, asset_price, INDEX_MANTISSA) {
        Ok(x) => x,
        Err(e) => return Some(Err(e)),
    };
    let limit: u128 = match supply_value.checked_mul(config.liquidation_threshold as u128) {
        Some(x) => x / BPS_DENOMINATOR,
        None => return Some(Err(AurumError::MathOverflow)),
    };
    let debt_value: u128 = match mul_div_floor(credit_borrow_balance, credit_price, INDEX_MANTISSA) {
        Ok(x) => x,
        Err(e) => return Some(Err(e)),
    };
    if debt_value <= limit {
        return Some(Err(AurumError::NotLiquidatable));
    }
    if asset_price == 0 {
        return Some(Err(AurumError::InvalidPriceFeed));
    }
    let repay_amount_u128: u128 = if (amount as u128) <= credit_borrow_balance { amount as u128 } else { credit_borrow_balance };
    let repay_amount_u64: u64 = repay_amount_u128 as u64;
    let repay_value: u128 = match repay_amount_u128.checked_mul(credit_price) {
        Some(x) => x,
        None => return Some(Err(AurumError::MathOverflow)),
    };
    let bonus_bps: u128 = config.liquidation_bonus as u128;
    let seize: u128 = match (repay_value / asset_price).checked_mul(BPS_DENOMINATOR + bonus_bps) {
        Some(x) => x / BPS_DENOMINATOR,
        None => return Some(Err(AurumError::MathOverflow)),
    };
    if asset_supply_balance < seize {
        return Some(Err(AurumError::InsufficientBalance));
    }
    if a.total_cash < seize {
        return Some(Err(AurumError::InsufficientLiquidity));
    }
    pc.borrow_principal = pc.borrow_principal - repay_amount_u128;
    if cm.total_borrows < repay_amount_u128 {
        return None;
    }
    let new_credit_cash: u128 = match cm.total_cash.checked_add(repay_amount_u128) {
        Some(x) => x,
        None => return None,
    };
    pa.supply_principal = pa.supply_principal - seize;
    if !keys_equal(asset_key, asset_vault_owner) {
        return Some(Err(AurumError::InvalidVault));
    }
    cm.total_borrows = cm.total_borrows - repay_amount_u128;
    cm.total_cash = new_credit_cash;
    a.total_cash = a.total_cash - seize;
    ua.positions[0] = pa;
    uc.positions[0] = pc;
    Some(Ok((repay_amount_u64, #[verifier::truncate] (seize as u64))))
}

fn liquidate_core(asset_market: &mut Market, credit_market: &mut Market, config: &Config, asset_user_position: &mut UserPosition, credit_user_position: &mut UserPosition, asset_key: &[u8; 32], credit_key: &[u8; 32], asset_vault_key: &[u8; 32], credit_vault_key: &[u8; 32], asset_price: u128, credit_price: u128, asset_vault_owner: &[u8; 32], amount: u64, now_ts: u64) -> (r: Option<Result<(u64, u64), AurumError>>)
    ensures
        match liquidate_spec(*old(asset_market), *old(credit_market), *config, *old(asset_user_position), *old(credit_user_position), *asset_key, *credit_key, *asset_vault_key, *credit_vault_key, Ok(asset_price), Ok(credit_price), *asset_vault_owner, amount, now_ts) {
            Some(Ok((a2, c2, ua2, uc2, t1, t2))) => r == Some(Ok::<(u64, u64), AurumError>((t1, t2)))
                && *final(asset_market) == a2 && *final(credit_market) == c2
                && *final(asset_user_position) == ua2 && *final(credit_user_position) == uc2,
            Some(Err(e)) => r == Some(Err::<(u64, u64), AurumError>(e))
                && *final(asset_market) == *old(asset_market) && *final(credit_market) == *old(credit_market)
                && *final(asset_user_position) == *old(asset_user_position) && *final(credit_user_position) == *old(credit_user_position),
            None => r is None
                && *final(asset_market) == *old(asset_market) && *final(credit_market) == *old(credit_market)
                && *final(asset_user_position) == *old(asset_user_position) && *final(credit_user_position) == *old(credit_user_position),
        },
{
    if config.paused {
        return Some(Err(AurumError::ProtocolPaused));
    }
    if !keys_equal(credit_vault_key, &credit_market.vault) || !keys_equal(asset_vault_key, &asset_market.vault) {
        return Some(Err(AurumError::InvalidVault));
    }
    if amount == 0 {
        return Some(Err(AurumError::InvalidAmount));
    }
    let mut a: Market = *asset_market;
    match accrue_core(&mut a, config, now_ts) {
        Some(Ok(())) => {},
        Some(Err(e)) => return Some(Err(e)),
        None => return None,
    }
    let mut cm: Market = *credit_market;
    match accrue_core(&mut cm, config, now_ts) {
        Some(Ok(())) => {},
        Some(Err(e)) => return Some(Err(e)),
        None => return None,
    }
    let mut ua: UserPosition = *asset_user_position;
    let mut uc: UserPosition = *credit_user_position;
    match liquidate_after_accrue_exec(&mut a, &mut cm, config, &mut ua, &mut uc, asset_key, credit_key, asset_price, credit_price, asset_vault_owner, amount) {
        Some(Ok(t)) => {
            *asset_market = a;
            *credit_market = cm;
            *asset_user_position = ua;
            *credit_user_position = uc;
            Some(Ok(t))
        },
        Some(Err(e)) => Some(Err(e)),
        None => None,
    }
}

/// Liquidation of up to `amount` of the user's debt in the credit market against the
/// user's supply in the asset market, at time `now_ts` and at the oracle prices
/// `asset_price` and `credit_price`.  Returns the amount the liquidator moves into the
/// credit market vault and the amount moved from the asset market vault to the liquidator.
pub fn liquidate_at(asset_market: &mut Market, credit_market: &mut Market, config: &Config, asset_user_position: &mut UserPosition, credit_user_position: &mut UserPosition, asset_key: &[u8; 32], credit_key: &[u8; 32], asset_vault_key: &[u8; 32], credit_vault_key: &[u8; 32], asset_price: u128, credit_price: u128, asset_vault_owner: &[u8; 32], amount: u64, now_ts: u64) -> (r: Result<(u64, u64), AurumError>)
    requires
        liquidate_spec(*old(asset_market), *old(credit_market), *config, *old(asset_user_position), *old(credit_user_position), *asset_key, *credit_key, *asset_vault_key, *credit_vault_key, Ok(asset_price), Ok(credit_price), *asset_vault_owner, amount, now_ts) is Some,
    ensures
        match liquidate_spec(*old(asset_market), *old(credit_market), *config, *old(asset_user_position), *old(credit_user_position), *asset_key, *credit_key, *asset_vault_key, *credit_vault_key, Ok(asset_price), Ok(credit_price), *asset_vault_owner, amount, now_ts).unwrap() {
            Ok((a2, c2, ua2, uc2, t1, t2)) => r == Ok::<(u64, u64), AurumError>((t1, t2))
                && *final(asset_market) == a2 && *final(credit_market) == c2
                && *final(asset_user_position) == ua2 && *final(credit_user_position) == uc2,
            Err(e) => r == Err::<(u64, u64), AurumError>(e)
                && *final(asset_market) == *old(asset_market) && *final(credit_market) == *old(credit_market)
                && *final(asset_user_position) == *old(asset_user_position) && *final(credit_user_position) == *old(credit_user_position),
        },
{
    match liquidate_core(asset_market, credit_market, config, asset_user_position, credit_user_position, asset_key, credit_key, asset_vault_key, credit_vault_key, asset_price, credit_price, asset_vault_owner, amount, now_ts) {
        Some(res) => res,
        None => Err(AurumError::MathOverflow),
    }
}

/// The liquidation at clock reading `t`: prices read from the two Pyth updates for the
/// markets' feeds, no older than `PRICE_MAXIMUM_AGE`, and `liquidate_spec` at `t`.
pub open spec fn liquidate_at_clock(a: Market, cm: Market, c: Config, ua: UserPosition, uc: UserPosition, asset_key: [u8; 32], credit_key: [u8; 32], asset_vault_key: [u8; 32], credit_vault_key: [u8; 32], asset_update: PriceUpdate, credit_update: PriceUpdate, asset_vault_owner: [u8; 32], amount: u64, t: i64) -> Option<Result<LiquidationOutcome, AurumError>> {
    liquidate_spec(a, cm, c, ua, uc, asset_key, credit_key, asset_vault_key, credit_vault_key,
        price_value_spec(asset_update, a.pyth_feed_id@, PRICE_MAXIMUM_AGE, t),
        price_value_spec(credit_update, cm.pyth_feed_id@, PRICE_MAXIMUM_AGE, t),
        asset_vault_owner, amount, t as u64)
}

/// The liquidate instruction: `liquidate_at` at the time of the cluster clock, with the
/// prices of the two markets' Pyth updates read at that time.
pub fn handler_liquidate(asset_market: &mut Market, credit_market: &mut Market, config: &Config, asset_user_position: &mut UserPosition, credit_user_position: &mut UserPosition, asset_key: &[u8; 32], credit_key: &[u8; 32], asset_vault_key: &[u8; 32], credit_vault_key: &[u8; 32], asset_price_update: &PriceUpdate, credit_price_update: &PriceUpdate, asset_vault_owner: &[u8; 32], amount: u64) -> (r: Result<(u64, u64), AurumError>)
    ensures
        config.paused ==> r == Err::<(u64, u64), AurumError>(AurumError::ProtocolPaused),
        !config.paused && (credit_vault_key@ != old(credit_market).vault@ || asset_vault_key@ != old(asset_market).vault@)
            ==> r == Err::<(u64, u64), AurumError>(AurumError::InvalidVault),
        !config.paused && !(credit_vault_key@ != old(credit_market).vault@ || asset_vault_key@ != old(asset_market).vault@) && amount == 0
            ==> r == Err::<(u64, u64), AurumError>(AurumError::InvalidAmount),
        r matches Ok((t1, t2)) ==> exists|t: i64| liquidate_at_clock(*old(asset_market), *old(credit_market), *config, *old(asset_user_position), *old(credit_user_position), *asset_key, *credit_key, *asset_vault_key, *credit_vault_key, *asset_price_update, *credit_price_update, *asset_vault_owner, amount, t)
            == Some(Ok::<LiquidationOutcome, AurumError>((*final(asset_market), *final(credit_market), *final(asset_user_position), *final(credit_user_position), t1, t2))),
        r matches Err(e) ==> *final(asset_market) == *old(asset_market) && *final(credit_market) == *old(credit_market)
            && *final(asset_user_position) == *old(asset_user_position) && *final(credit_user_position) == *old(credit_user_position)
            && (e == AurumError::ClockUnavailable
            || (e == AurumError::MathOverflow && exists|t: i64| #![auto] liquidate_at_clock(*old(asset_market), *old(credit_market), *config, *old(asset_user_position), *old(credit_user_position), *asset_key, *credit_key, *asset_vault_key, *credit_vault_key, *asset_price_update, *credit_price_update, *asset_vault_owner, amount, t) is None)
            || exists|t: i64| liquidate_at_clock(*old(asset_market), *old(credit_market), *config, *old(asset_user_position), *old(credit_user_position), *asset_key, *credit_key, *asset_vault_key, *credit_vault_key, *asset_price_update, *credit_price_update, *asset_vault_owner, amount, t)
                == Some(Err::<LiquidationOutcome, AurumError>(e))),
{
    if config.paused {
        assert(liquidate_at_clock(*asset_market, *credit_market, *config, *asset_user_position, *credit_user_position, *asset_key, *credit_key, *asset_vault_key, *credit_vault_key, *asset_price_update, *credit_price_update, *asset_vault_owner, amount, 0i64)
            == Some(Err::<LiquidationOutcome, AurumError>(AurumError::ProtocolPaused)));
        return Err(AurumError::ProtocolPaused);
    }
    if !keys_equal(credit_vault_key, &credit_market.vault) || !keys_equal(asset_vault_key, &asset_market.vault) {
        assert(liquidate_at_clock(*asset_market, *credit_market, *config, *asset_user_position, *credit_user_position, *asset_key, *credit_key, *asset_vault_key, *credit_vault_key, *asset_price_update, *credit_price_update, *asset_vault_owner, amount, 0i64)
            == Some(Err::<LiquidationOutcome, AurumError>(AurumError::InvalidVault)));
        return Err(AurumError::InvalidVault);
    }
    if amount == 0 {
        assert(liquidate_at_clock(*asset_market, *credit_market, *config, *asset_user_position, *credit_user_position, *asset_key, *credit_key, *asset_vault_key, *credit_vault_key, *asset_price_update, *credit_price_update, *asset_vault_owner, amount, 0i64)
            == Some(Err::<LiquidationOutcome, AurumError>(AurumError::InvalidAmount)));
        return Err(AurumError::InvalidAmount);
    }
    let t: i64 = match clock_unix_timestamp() {
        Ok(t) => t,
        Err(_) => return Err(AurumError::ClockUnavailable),
    };
    let asset_price: u128 = match price_value_at(asset_price_update, &asset_market.pyth_feed_id, PRICE_MAXIMUM_AGE, t) {
        Ok(p) => p,
        Err(e) => {
            assert(liquidate_at_clock(*asset_market, *credit_market, *config, *asset_user_position, *credit_user_position, *asset_key, *credit_key, *asset_vault_key, *credit_vault_key, *asset_price_update, *credit_price_update, *asset_vault_owner, amount, t)
                == Some(Err::<LiquidationOutcome, AurumError>(e)));
            return Err(e);
        },
    };
    let credit_price: u128 = match price_value_at(credit_price_update, &credit_market.pyth_feed_id, PRICE_MAXIMUM_AGE, t) {
        Ok(p) => p,
        Err(e) => {
            assert(liquidate_at_clock(*asset_market, *credit_market, *config, *asset_user_position, *credit_user_position, *asset_key, *credit_key, *asset_vault_key, *credit_vault_key, *asset_price_update, *credit_price_update, *asset_vault_owner, amount, t)
                == Some(Err::<LiquidationOutcome, AurumError>(e)));
            return Err(e);
        },
    };
    let now_ts: u64 = #[verifier::truncate] (t as u64);
    assert(liquidate_at_clock(*asset_market, *credit_market, *config, *asset_user_position, *credit_user_position, *asset_key, *credit_key, *asset_vault_key, *credit_vault_key, *asset_price_update, *credit_price_update, *asset_vault_owner, amount, t)
        == liquidate_spec(*asset_market, *credit_market, *config, *asset_user_position, *credit_user_position, *asset_key, *credit_key, *asset_vault_key, *credit_vault_key, Ok(asset_price), Ok(credit_price), *asset_vault_owner, amount, now_ts));
    match liquidate_core(asset_market, credit_market, config, asset_user_position, credit_user_position, asset_key, credit_key, asset_vault_key, credit_vault_key, asset_price, credit_price, asset_vault_owner, amount, now_ts) {
        Some(res) => res,
        None => Err(AurumError::MathOverflow),
    }
}

// ---------------------------------------------------------------------------
// Liquidation within one market
// ---------------------------------------------------------------------------

/// Liquidation where the debt and the collateral lie in the same market `m`, so that the
/// market and the user's position are one account each: the liquidation of
/// `liquidate_after_accrue` with both sides being `m` and `up`, whose two updates are both
/// applied.  The market's borrows drop and its cash rises by the repayment, its cash drops
/// by the seizure; the position's debt drops by the repayment and its supply by the seizure.
pub open spec fn liquidate_same_market_after_accrue(m: Market, c: Config, up: UserPosition, market_key: [u8; 32], price: u128, vault_owner: [u8; 32], amount: u64) -> Option<Result<(Market, UserPosition, u64, u64), AurumError>> {
    match liquidate_after_accrue(m, m, c, up, up, market_key, market_key, price, price, vault_owner, amount) {
        None => None,
        Some(Err(e)) => Some(Err(e)),
        Some(Ok((a2, c2, ua2, uc2, r, s))) => Some(Ok((
            Market { total_cash: (a2.total_cash + r) as u128, ..c2 },
            with_slot0(uc2, Position {
                supply_principal: ua2.positions@[0].supply_principal,
                supply_index: ua2.positions@[0].supply_index,
                ..uc2.positions@[0]
            }),
            r,
            s,
        ))),
    }
}

/// Same-market liquidation of up to `amount` at time `now`, at the market's oracle `price`
/// (or the error of reading it); `vault_key` must be the market's vault.  Refused while the
/// protocol is paused.
pub open spec fn liquidate_same_market_spec(m: Market, c: Config, up: UserPosition, market_key: [u8; 32], vault_key: [u8; 32], price: Result<u128, AurumError>, vault_owner: [u8; 32], amount: u64, now: u64) -> Option<Result<(Market, UserPosition, u64, u64), AurumError>> {
    if c.paused {
        Some(Err(AurumError::ProtocolPaused))
    } else if vault_key@ != m.vault@ {
        Some(Err(AurumError::InvalidVault))
    } else if amount == 0 {
        Some(Err(AurumError::InvalidAmount))
    } else {
        match price {
            Err(e) => Some(Err(e)),
            Ok(p) => match accrue_spec(m, c, now) {
                None => None,
                Some(Err(e)) => Some(Err(e)),
                Some(Ok(m1)) => liquidate_same_market_after_accrue(m1, c, up, market_key, p, vault_owner, amount),
            },
        }
    }
}

fn liquidate_same_market_core(market: &mut Market, config: &Config, user_position: &mut UserPosition, market_key: &[u8; 32], vault_key: &[u8; 32], price: u128, vault_owner: &[u8; 32], amount: u64, now_ts: u64) -> (r: Option<Result<(u64, u64), AurumError>>)
    ensures
        match liquidate_same_market_spec(*old(market), *config, *old(user_position), *market_key, *vault_key, Ok(price), *vault_owner, amount, now_ts) {
            Some(Ok((m2, u2, t1, t2))) => r == Some(Ok::<(u64, u64), AurumError>((t1, t2)))
                && *final(market) == m2 && *final(user_position) == u2,
            Some(Err(e)) => r == Some(Err::<(u64, u64), AurumError>(e))
                && *final(market) == *old(market) && *final(user_position) == *old(user_position),
            None => r is None && *final(market) == *old(market) && *final(user_position) == *old(user_position),
        },
{
    if config.paused {
        return Some(Err(AurumError::ProtocolPaused));
    }
    if !keys_equal(vault_key, &market.vault) {
        return Some(Err(AurumError::InvalidVault));
    }
    if amount == 0 {
        return Some(Err(AurumError::InvalidAmount));
    }
    let mut m: Market = *market;
    match accrue_core(&mut m, config, now_ts) {
        Some(Ok(())) => {},
        Some(Err(e)) => return Some(Err(e)),
        None => return None,
    }
    let mut a: Market = m;
    let mut cm: Market = m;
    let mut ua: UserPosition = *user_position;
    let mut uc: UserPosition = *user_position;
    match liquidate_after_accrue_exec(&mut a, &mut cm, config, &mut ua, &mut uc, market_key, market_key, price, price, vault_owner, amount) {
        Some(Ok((repaid, seized))) => {
            let mut merged: Market = cm;
            merged.total_cash = a.total_cash + repaid as u128;
            let mut p0: Position = uc.positions[0];
            p0.supply_principal = ua.positions[0].supply_principal;
            p0.supply_index = ua.positions[0].supply_index;
            let mut pos: UserPosition = uc;
            pos.positions[0] = p0;
            *market = merged;
            *user_position = pos;
            Some(Ok((repaid, seized)))
        },
        Some(Err(e)) => Some(Err(e)),
        None => None,
    }
}

/// Liquidation of up to `amount` of a user's debt against the user's supply in the same
/// market, at time `now_ts` and at the market's oracle `price`.  Returns the amount the
/// liquidator moves into the market vault and the amount moved from it to the liquidator.
pub fn liquidate_same_market_at(market: &mut Market, config: &Config, user_position: &mut UserPosition, market_key: &[u8; 32], vault_key: &[u8; 32], price: u128, vault_owner: &[u8; 32], amount: u64, now_ts: u64) -> (r: Result<(u64, u64), AurumError>)
    requires
        liquidate_same_market_spec(*old(market), *config, *old(user_position), *market_key, *vault_key, Ok(price), *vault_owner, amount, now_ts) is Some,
    ensures
        match liquidate_same_market_spec(*old(market), *config, *old(user_position), *market_key, *vault_key, Ok(price), *vault_owner, amount, now_ts).unwrap() {
            Ok((m2, u2, t1, t2)) => r == Ok::<(u64, u64), AurumError>((t1, t2)) && *final(market) == m2 && *final(user_position) == u2,
            Err(e) => r == Err::<(u64, u64), AurumError>(e) && *final(market) == *old(market) && *final(user_position) == *old(user_position),
        },
{
    match liquidate_same_market_core(market, config, user_position, market_key, vault_key, price, vault_owner, amount, now_ts) {
        Some(res) => res,
        None => Err(AurumError::MathOverflow),
    }
}

/// The same-market liquidation at clock reading `t`: the price read from the market's Pyth
/// update, no older than `PRICE_MAXIMUM_AGE`, and `liquidate_same_market_spec` at `t`.
pub open spec fn liquidate_same_market_at_clock(m: Market, c: Config, up: UserPosition, market_key: [u8; 32], vault_key: [u8; 32], update: PriceUpdate, vault_owner: [u8; 32], amount: u64, t: i64) -> Option<Result<(Market, UserPosition, u64, u64), AurumError>> {
    liquidate_same_market_spec(m, c, up, market_key, vault_key, price_value_spec(update, m.pyth_feed_id@, PRICE_MAXIMUM_AGE, t), vault_owner, amount, t as u64)
}

/// The liquidate instruction when the debt and the collateral lie in the same market:
/// `liquidate_same_market_at` at the time of the cluster clock, with the price of the
/// market's Pyth update read at that time.
pub fn handler_liquidate_same_market(market: &mut Market, config: &Config, user_position: &mut UserPosition, market_key: &[u8; 32], vault_key: &[u8; 32], price_update: &PriceUpdate, vault_owner: &[u8; 32], amount: u64) -> (r: Result<(u64, u64), AurumError>)
    ensures
        config.paused ==> r == Err::<(u64, u64), AurumError>(AurumError::ProtocolPaused),
        !config.paused && vault_key@ != old(market).vault@ ==> r == Err::<(u64, u64), AurumError>(AurumError::InvalidVault),
        !config.paused && vault_key@ == old(market).vault@ && amount == 0 ==> r == Err::<(u64, u64), AurumError>(AurumError::InvalidAmount),
        r matches Ok((t1, t2)) ==> exists|t: i64| liquidate_same_market_at_clock(*old(market), *config, *old(user_position), *market_key, *vault_key, *price_update, *vault_owner, amount, t)
            == Some(Ok::<(Market, UserPosition, u64, u64), AurumError>((*final(market), *final(user_position), t1, t2))),
        r matches Err(e) ==> *final(market) == *old(market) && *final(user_position) == *old(user_position)
            && (e == AurumError::ClockUnavailable
            || (e == AurumError::MathOverflow && exists|t: i64| #![auto] liquidate_same_market_at_clock(*old(market), *config, *old(user_position), *market_key, *vault_key, *price_update, *vault_owner, amount, t) is None)
            || exists|t: i64| liquidate_same_market_at_clock(*old(market), *config, *old(user_position), *market_key, *vault_key, *price_update, *vault_owner, amount, t)
                == Some(Err::<(Market, UserPosition, u64, u64), AurumError>(e))),
{
    if config.paused {
        assert(liquidate_same_market_at_clock(*market, *config, *user_position, *market_key, *vault_key, *price_update, *vault_owner, amount, 0i64)
            == Some(Err::<(Market, UserPosition, u64, u64), AurumError>(AurumError::ProtocolPaused)));
        return Err(AurumError::ProtocolPaused);
    }
    if !keys_equal(vault_key, &market.vault) {
        assert(liquidate_same_market_at_clock(*market, *config, *user_position, *market_key, *vault_key, *price_update, *vault_owner, amount, 0i64)
            == Some(Err::<(Market, UserPosition, u64, u64), AurumError>(AurumError::InvalidVault)));
        return Err(AurumError::InvalidVault);
    }
    if amount == 0 {
        assert(liquidate_same_market_at_clock(*market, *config, *user_position, *market_key, *vault_key, *price_update, *vault_owner, amount, 0i64)
            == Some(Err::<(Market, UserPosition, u64, u64), AurumError>(AurumError::InvalidAmount)));
        return Err(AurumError::InvalidAmount);
    }
    let t: i64 = match clock_unix_timestamp() {
        Ok(t) => t,
        Err(_) => return Err(AurumError::ClockUnavailable),
    };
    let price: u128 = match price_value_at(price_update, &market.pyth_feed_id, PRICE_MAXIMUM_AGE, t) {
        Ok(p) => p,
        Err(e) => {
            assert(liquidate_same_market_at_clock(*market, *config, *user_position, *market_key, *vault_key, *price_update, *vault_owner, amount, t)
                == Some(Err::<(Market, UserPosition, u64, u64), AurumError>(e)));
            return Err(e);
        },
    };
    let now_ts: u64 = #[verifier::truncate] (t as u64);
    assert(liquidate_same_market_at_clock(*market, *config, *user_position, *market_key, *vault_key, *price_update, *vault_owner, amount, t)
        == liquidate_same_market_spec(*market, *config, *user_position, *market_key, *vault_key, Ok(price), *vault_owner, amount, now_ts));
    match liquidate_same_market_core(market, config, user_position, market_key, vault_key, price, vault_owner, amount, now_ts) {
        Some(res) => res,
        None => Err(AurumError::MathOverflow),
    }
}

} // verus!
