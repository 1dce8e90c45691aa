# Aurum lending market

A Compound-style lending market for Solana: users supply and borrow tokens of whitelisted
mints, interest accrues by a kinked (jump-rate) model, and undercollateralized positions
can be liquidated with a bonus.  The protocol logic is a library verified with Verus; the
Anchor program around it only moves accounts and tokens.

## Layout

- `src/` — the verified library.
  - `math.rs`: 1e18 fixed-point multiplication and division.
  - `interest.rs`: utilization, borrow and supply rates, interest accrual.
  - `balances.rs`: position lookup and compounded balances.
  - `actions.rs`: deposit, withdraw, borrow, repay and liquidate.
  - `admin.rs`: configuration, pausing, treasury, mint whitelist, market creation.
  - `health.rs`: health factor of a user position.
  - `oracle.rs`: Pyth prices normalized to 18 decimals and USD values.
  - `state.rs`, `constants.rs`, `errors.rs`: account state, seeds and constants, errors.
  - `laws.rs`, `laws_positions.rs`: properties that relate several operations.
  - `outside.rs`: the calls into Anchor, SPL Token-2022 and the Pyth receiver SDK, each
    with the contract the rest of the library relies on.
- `tests/` — tests of the library on concrete values.
- `app/` — the Anchor program: account layouts, instruction accounts, token transfers and
  entry points, each instruction deciding through the library.
