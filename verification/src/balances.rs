//! Locating a user's position and compounding its balances to the market indices.
use vstd::prelude::*;
use crate::errors::AurumError;
use crate::state::{keys_equal, Market, Position, UserPosition};

verus! {

/// Whether slot `p` is the active slot of the market with address `key`.
pub open spec fn slot_matches(p: Position, key: Seq<u8>) -> bool {
    p.market@ == key && p.active()
}

/// The first slot, from `i` on, that is the active slot of market `key`.
pub open spec fn first_slot_from(ps: Seq<Position>, key: Seq<u8>, i: int) -> Option<int>
    decreases ps.len() - i,
{
    if i < 0 || i >= ps.len() {
        None
    } else if slot_matches(ps[i], key) {
        Some(i)
    } else {
        first_slot_from(ps, key, i + 1)
    }
}

/// The first active slot of `user` for the market `key`.
pub open spec fn position_for(user: UserPosition, key: Seq<u8>) -> Option<Position> {
    match first_slot_from(user.positions@, key, 0) {
        Some(i) => Some(user.positions@[i]),
        None => None,
    }
}

/// A stored index, with 0 read as 1.
pub open spec fn index_or_one(x: u128) -> int {
    if x >= 1 { x as int } else { 1 }
}

/// `principal * market_index / position_index`: a principal compounded to the current index,
/// failing when the product leaves `u128`.
pub open spec fn compound_spec(principal: u128, market_index: u128, position_index: u128) -> Result<u128, AurumError> {
    if principal == 0 {
        Ok(0u128)
    } else if principal * market_index > u128::MAX {
        Err(AurumError::MathOverflow)
    } else {
        Ok((principal * market_index / index_or_one(position_index)) as u128)
    }
}

/// Current supply balance of a position in a market.
pub open spec fn supply_balance_spec(p: Position, m: Market) -> Result<u128, AurumError> {
    compound_spec(p.supply_principal, m.supply_index, p.supply_index)
}

/// Current borrow balance of a position in a market.
pub open spec fn borrow_balance_spec(p: Position, m: Market) -> Result<u128, AurumError> {
    compound_spec(p.borrow_principal, m.borrow_index, p.borrow_index)
}

/// The first active position of `user` in the market with address `market_key`.
pub fn find_position<'a>(user: &'a UserPosition, market_key: &[u8; 32]) -> (r: Option<&'a Position>)
    ensures
        match r {
            Some(p) => position_for(*user, market_key@) == Some(*p),
            None => position_for(*user, market_key@) is None,
        },
{
    let mut i: usize = 0;
    while i < 10
        invariant
            0 <= i <= 10,
            user.positions@.len() == 10,
            first_slot_from(user.positions@, market_key@, 0) == first_slot_from(user.positions@, market_key@, i as int),
        decreases 10 - i,
    {
        let p = &user.positions[i];
        if keys_equal(&p.market, market_key) && p.is_active() {
            return Some(p);
        }
        i = i + 1;
    }
    None
}

/// Compounds a principal recorded at `position_index` up to `market_index`.
pub(crate) fn compound(principal: u128, market_index: u128, position_index: u128) -> (r: Result<u128, AurumError>)
    ensures
        r == compound_spec(principal, market_index, position_index),
{
    if principal == 0 {
        return Ok(0);
    }
    let divisor: u128 = if position_index >= 1 { position_index } else { 1 };
    match principal.checked_mul(market_index) {
        Some(x) => Ok(x / divisor),
        None => Err(AurumError::MathOverflow),
    }
}

/// Returns (updated_supply_principal, current_supply_balance) of `user` in the market at
/// `market_key`; both are the supply principal compounded to the market's supply index.
pub fn compute_supply_balance(user: &UserPosition, market: &Market, market_key: &[u8; 32]) -> (r: Result<(u128, u128), AurumError>)
    ensures
        match position_for(*user, market_key@) {
            None => r == Err::<(u128, u128), AurumError>(AurumError::InvalidPosition),
            Some(p) => match supply_balance_spec(p, *market) {
                Ok(v) => r == Ok::<(u128, u128), AurumError>((v, v)),
                Err(e) => r == Err::<(u128, u128), AurumError>(e),
            },
        },
{
    let position = match find_position(user, market_key) {
        Some(p) => p,
        None => return Err(AurumError::InvalidPosition),
    };
    match compound(position.supply_principal, market.supply_index, position.supply_index) {
        Ok(v) => Ok((v, v)),
        Err(e) => Err(e),
    }
}

/// Returns (updated_borrow_principal, current_borrow_balance) of `user` in the market at
/// `market_key`; both are the borrow principal compounded to the market's borrow index.
pub fn compute_borrow_balance(user: &UserPosition, market: &Market, market_key: &[u8; 32]) -> (r: Result<(u128, u128), AurumError>)
    ensures
        match position_for(*user, market_key@) {
            None => r == Err::<(u128, u128), AurumError>(AurumError::InvalidPosition),
            Some(p) => match borrow_balance_spec(p, *market) {
                Ok(v) => r == Ok::<(u128, u128), AurumError>((v, v)),
                Err(e) => r == Err::<(u128, u128), AurumError>(e),
            },
        },
{
    let position = match find_position(user, market_key) {
        Some(p) => p,
        None => return Err(AurumError::InvalidPosition),
    };
    match compound(position.borrow_principal, market.borrow_index, position.borrow_index) {
        Ok(v) => Ok((v, v)),
        Err(e) => Err(e),
    }
}

/// Slot 0 of `user`, when it is the active slot of the market `key`.  The instructions keep
/// a user's position in a market in slot 0 and read and write that slot alone.
pub open spec fn slot0_for(user: UserPosition, key: Seq<u8>) -> Option<Position> {
    if slot_matches(user.positions@[0], key) { Some(user.positions@[0]) } else { None }
}

/// Current supply balance of slot 0, which must be the active slot of `market_key`.
pub(crate) fn slot0_supply_balance(user: &UserPosition, market: &Market, market_key: &[u8; 32]) -> (r: Result<u128, AurumError>)
    ensures
        r == match slot0_for(*user, market_key@) {
            None => Err(AurumError::InvalidPosition),
            Some(p) => supply_balance_spec(p, *market),
        },
{
    let p: &Position = &user.positions[0];
    if !(keys_equal(&p.market, market_key) && p.is_active()) {
        return Err(AurumError::InvalidPosition);
    }
    compound(p.supply_principal, market.supply_index, p.supply_index)
}

/// Current borrow balance of slot 0, which must be the active slot of `market_key`.
pub(crate) fn slot0_borrow_balance(user: &UserPosition, market: &Market, market_key: &[u8; 32]) -> (r: Result<u128, AurumError>)
    ensures
        r == match slot0_for(*user, market_key@) {
            None => Err(AurumError::InvalidPosition),
            Some(p) => borrow_balance_spec(p, *market),
        },
{
    let p: &Position = &user.positions[0];
    if !(keys_equal(&p.market, market_key) && p.is_active()) {
        return Err(AurumError::InvalidPosition);
    }
    compound(p.borrow_principal, market.borrow_index, p.borrow_index)
}

} // verus!
