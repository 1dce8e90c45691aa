//! A Compound-style lending market: configuration, per-asset markets with a
//! jump-rate interest model, and per-user supply / borrow positions.
use vstd::prelude::*;

pub mod constants;
pub mod errors;
pub mod math;
pub mod state;
pub mod interest;
pub mod balances;
pub mod actions;
pub mod admin;
pub mod health;
pub mod oracle;
pub mod laws;
pub mod laws_positions;
pub mod outside;

verus! {

} // verus!
