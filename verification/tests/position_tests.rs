use anchor_lang::prelude::Pubkey;
use lending_borrowing_market_compound_v2::actions::{
    borrow_at, deposit_at, handler_borrow, handler_deposit, handler_liquidate, handler_repay,
    handler_liquidate_same_market, handler_withdraw, liquidate_at, liquidate_same_market_at, repay_at, withdraw_at,
};
use lending_borrowing_market_compound_v2::balances::{compute_borrow_balance, compute_supply_balance, find_position};
use lending_borrowing_market_compound_v2::errors::AurumError;
use lending_borrowing_market_compound_v2::oracle::{PriceUpdate, PriceVerification};
use lending_borrowing_market_compound_v2::state::{Config, Market, MintWhitelisted, Position, UserPosition};

const WAD: u128 = 1_000_000_000_000_000_000;
const PROGRAM: [u8; 32] = [9u8; 32];
const MARKET: [u8; 32] = [5u8; 32];
const OTHER_MARKET: [u8; 32] = [6u8; 32];
const USER: [u8; 32] = [7u8; 32];
const VAULT: [u8; 32] = [4u8; 32];
const PRICE: u128 = 100 * WAD;

fn config() -> Config {
    Config {
        bump: 1,
        admin: [1u8; 32],
        treasury: [2u8; 32],
        paused: false,
        updated_at: 0,
        liquidation_threshold: 8000,
        liquidation_bonus: 500,
        base_rate: 20_000_000_000_000_000,
        slope1: 100_000_000_000_000_000,
        jump_slope: 1_000_000_000_000_000_000,
        kink: 8000,
        reserve_factor: 1000,
    }
}

fn market(cash: u128, borrows: u128) -> Market {
    Market {
        bump: 0,
        mint: [3u8; 32],
        vault: [4u8; 32],
        total_cash: cash,
        total_borrows: borrows,
        total_reserves: 0,
        c_token_mint: [0u8; 32],
        c_token_supply: 0,
        pyth_feed_id: [0u8; 32],
        decimals: 6,
        borrow_index: WAD,
        supply_index: WAD,
        ltv_bps: 7500,
        liquidation_threshold_bps: 8000,
        liquidation_bonus_bps: 500,
        reserve_factor_bps: 1000,
        kink_utilization_bps: 8000,
        base_rate_per_year: 0,
        slope1_per_year: 0,
        slope2_per_year: 0,
        last_updated_ts: 100,
    }
}

fn feed_update() -> PriceUpdate {
    PriceUpdate { verification_level: PriceVerification::Full, feed_id: [0u8; 32], price: 100, conf: 1, exponent: 0, publish_time: 0 }
}

fn listed() -> MintWhitelisted {
    MintWhitelisted { mint: [3u8; 32], mint_decimals: 6, is_whitelisted: true, bump: 1, pyth_price_feed: String::new() }
}

fn empty_slot() -> Position {
    Position { market: [0u8; 32], supply_principal: 0, borrow_principal: 0, supply_index: 0, borrow_index: 0, is_collateral: 0 }
}

fn fresh_user() -> UserPosition {
    UserPosition { bump: 0, owner: [0u8; 32], num_positions: 0, positions: [empty_slot(); 10] }
}

fn user_with(market_key: [u8; 32], supply: u128, borrow: u128) -> UserPosition {
    let mut u = fresh_user();
    u.owner = USER;
    u.positions[0] = Position { market: market_key, supply_principal: supply, borrow_principal: borrow, supply_index: WAD, borrow_index: WAD, is_collateral: 1 };
    u
}

#[test]
fn deposit_sets_up_a_fresh_position() {
    let mut m = market(0, 0);
    let mut u = fresh_user();
    assert_eq!(deposit_at(&mut m, &config(), &listed(), &mut u, &PROGRAM, &MARKET, &USER, 1_000, 100), Ok(()));
    let (_, bump) = Pubkey::find_program_address(&[b"user_position".as_ref(), MARKET.as_ref(), USER.as_ref()], &Pubkey::new_from_array(PROGRAM));
    assert_eq!(u.bump, bump);
    assert_eq!(u.owner, USER);
    assert_eq!(u.positions[0].market, MARKET);
    assert_eq!(u.positions[0].supply_principal, 1_000);
    assert_eq!(u.positions[0].supply_index, WAD);
    assert_eq!(u.positions[0].is_collateral, 0);
    assert_eq!(m.total_cash, 1_000);
}

#[test]
fn deposit_of_nothing_is_refused() {
    let mut m = market(0, 0);
    let mut u = fresh_user();
    assert_eq!(deposit_at(&mut m, &config(), &listed(), &mut u, &PROGRAM, &MARKET, &USER, 0, 100), Err(AurumError::InvalidAmount));
    assert_eq!(handler_deposit(&mut m, &config(), &listed(), &mut u, &PROGRAM, &MARKET, &USER, 0), Err(AurumError::InvalidAmount));
    assert_eq!(m.total_cash, 0);
}

#[test]
fn deposit_compounds_the_existing_supply() {
    let mut m = market(1_000, 0);
    m.supply_index = WAD + WAD / 10;
    let mut u = user_with(MARKET, 1_000, 0);
    deposit_at(&mut m, &config(), &listed(), &mut u, &PROGRAM, &MARKET, &USER, 500, 100).unwrap();
    assert_eq!(u.positions[0].supply_principal, 1_600);
    assert_eq!(u.positions[0].supply_index, WAD + WAD / 10);
    assert_eq!(m.total_cash, 1_500);
}

#[test]
fn deposit_overflowing_cash_is_math_overflow() {
    let mut m = market(u128::MAX, 0);
    let mut u = user_with(MARKET, 1, 0);
    assert_eq!(deposit_at(&mut m, &config(), &listed(), &mut u, &PROGRAM, &MARKET, &USER, 1, 100), Err(AurumError::MathOverflow));
    assert_eq!(u.positions[0].supply_principal, 1);
}

#[test]
fn deposit_needs_the_cluster_clock() {
    let mut m = market(0, 0);
    let mut u = fresh_user();
    assert_eq!(handler_deposit(&mut m, &config(), &listed(), &mut u, &PROGRAM, &MARKET, &USER, 5), Err(AurumError::ClockUnavailable));
    assert_eq!(m.total_cash, 0);
}

#[test]
fn withdraw_checks_balance_liquidity_and_vault() {
    let c = config();
    let mut m = market(1_000, 0);
    let mut u = user_with(MARKET, 1_000, 0);
    assert_eq!(withdraw_at(&mut m, &c, &mut u, &MARKET, &VAULT, 5_000, &MARKET, 2_000, 100), Err(AurumError::InsufficientBalance));
    assert_eq!(withdraw_at(&mut m, &c, &mut u, &MARKET, &VAULT, 100, &MARKET, 500, 100), Err(AurumError::InsufficientLiquidity));
    assert_eq!(withdraw_at(&mut m, &c, &mut u, &MARKET, &VAULT, 5_000, &USER, 500, 100), Err(AurumError::InvalidVault));
    assert_eq!(withdraw_at(&mut m, &c, &mut u, &MARKET, &VAULT, 5_000, &MARKET, 0, 100), Err(AurumError::InvalidAmount));
    assert_eq!(u.positions[0].supply_principal, 1_000);
    assert_eq!(withdraw_at(&mut m, &c, &mut u, &MARKET, &VAULT, 5_000, &MARKET, 400, 100), Ok(()));
    assert_eq!(u.positions[0].supply_principal, 600);
    assert_eq!(m.total_cash, 600);
    assert_eq!(handler_withdraw(&mut m, &c, &mut u, &MARKET, &VAULT, 5_000, &MARKET, 1), Err(AurumError::ClockUnavailable));
}

#[test]
fn deposit_then_withdraw_gives_the_amount_back() {
    let c = config();
    let mut m = market(6_000_000_000_000, 4_000_000_000_000);
    let mut u = user_with(MARKET, 2_000_000, 0);
    deposit_at(&mut m, &c, &listed(), &mut u, &PROGRAM, &MARKET, &USER, 777_777, 100 + 86_400).unwrap();
    let after_deposit = u.positions[0].supply_principal;
    let cash_after_deposit = m.total_cash;
    withdraw_at(&mut m, &c, &mut u, &MARKET, &VAULT, u64::MAX, &MARKET, 777_777, 100 + 86_400).unwrap();
    assert_eq!(m.total_cash, cash_after_deposit - 777_777);
    assert_eq!(m.total_cash, 6_000_000_000_000);
    assert_eq!(u.positions[0].supply_principal, after_deposit - 777_777);
}

#[test]
fn borrow_needs_liquidity_and_collateral() {
    let c = config();
    let mut m = market(1_000, 0);
    let mut u = user_with(MARKET, 1_000, 0);
    assert_eq!(borrow_at(&mut m, &c, &listed(), &mut u, &PROGRAM, &MARKET, &USER, 2_000, 100), Err(AurumError::InsufficientLiquidity));
    assert_eq!(borrow_at(&mut m, &c, &listed(), &mut u, &PROGRAM, &MARKET, &USER, 751, 100), Err(AurumError::InsufficientBalance));
    let mut nobody = fresh_user();
    assert_eq!(borrow_at(&mut m, &c, &listed(), &mut nobody, &PROGRAM, &MARKET, &USER, 10, 100), Err(AurumError::InsufficientBalance));
    assert_eq!(nobody.positions[0].market, [0u8; 32]);
    assert_eq!(borrow_at(&mut m, &c, &listed(), &mut u, &PROGRAM, &MARKET, &USER, 750, 100), Ok(()));
    assert_eq!(u.positions[0].borrow_principal, 750);
    assert_eq!(m.total_cash, 250);
    assert_eq!(m.total_borrows, 750);
    assert_eq!(handler_borrow(&mut m, &c, &listed(), &mut u, &PROGRAM, &MARKET, &USER, 1), Err(AurumError::ClockUnavailable));
}

#[test]
fn borrow_then_repay_restores_the_debt() {
    let c = config();
    let mut m = market(10_000, 0);
    let mut u = user_with(MARKET, 10_000, 0);
    borrow_at(&mut m, &c, &listed(), &mut u, &PROGRAM, &MARKET, &USER, 3_000, 100).unwrap();
    assert_eq!(repay_at(&mut m, &c, &mut u, &MARKET, &VAULT, 3_000, 100), Ok(3_000));
    assert_eq!(u.positions[0].borrow_principal, 0);
    assert_eq!(m.total_cash, 10_000);
    assert_eq!(m.total_borrows, 0);
}

#[test]
fn repay_is_capped_at_the_debt() {
    let c = config();
    let mut m = market(1_000, 500);
    let mut u = user_with(MARKET, 1_000, 500);
    assert_eq!(repay_at(&mut m, &c, &mut u, &MARKET, &VAULT, 2_000, 100), Ok(500));
    assert_eq!(u.positions[0].borrow_principal, 0);
    assert_eq!(m.total_borrows, 0);
    assert_eq!(m.total_cash, 1_500);
    assert_eq!(repay_at(&mut m, &c, &mut u, &MARKET, &VAULT, 10, 100), Ok(0));
    assert_eq!(m.total_cash, 1_500);
}

#[test]
fn repay_without_position_is_refused() {
    let c = config();
    let mut m = market(1_000, 500);
    let mut u = fresh_user();
    assert_eq!(repay_at(&mut m, &c, &mut u, &MARKET, &VAULT, 10, 100), Err(AurumError::InvalidPosition));
    assert_eq!(repay_at(&mut m, &c, &mut u, &MARKET, &VAULT, 0, 100), Err(AurumError::InvalidAmount));
    assert_eq!(handler_repay(&mut m, &c, &mut u, &MARKET, &VAULT, 10), Err(AurumError::ClockUnavailable));
}

#[test]
fn balances_compound_to_the_market_index() {
    let mut m = market(0, 0);
    m.supply_index = 2 * WAD;
    m.borrow_index = 3 * WAD;
    let u = user_with(MARKET, 100, 10);
    assert_eq!(compute_supply_balance(&u, &m, &MARKET), Ok((200, 200)));
    assert_eq!(compute_borrow_balance(&u, &m, &MARKET), Ok((30, 30)));
    assert_eq!(compute_supply_balance(&u, &m, &OTHER_MARKET), Err(AurumError::InvalidPosition));
    assert!(find_position(&u, &MARKET).is_some());
    assert!(find_position(&u, &OTHER_MARKET).is_none());
}

#[test]
fn healthy_positions_cannot_be_liquidated() {
    let c = config();
    let mut a = market(10_000, 0);
    let mut cm = market(10_000, 700);
    let mut ua = user_with(MARKET, 1_000, 0);
    let mut uc = user_with(OTHER_MARKET, 0, 700);
    assert_eq!(
        liquidate_at(&mut a, &mut cm, &c, &mut ua, &mut uc, &MARKET, &OTHER_MARKET, &VAULT, &VAULT, PRICE, PRICE, &MARKET, 100, 100),
        Err(AurumError::NotLiquidatable)
    );
}

#[test]
fn liquidation_repays_and_seizes_with_bonus() {
    let c = config();
    let mut a = market(10_000, 0);
    let mut cm = market(10_000, 900);
    let mut ua = user_with(MARKET, 1_000, 0);
    let mut uc = user_with(OTHER_MARKET, 0, 900);
    assert_eq!(
        liquidate_at(&mut a, &mut cm, &c, &mut ua, &mut uc, &MARKET, &OTHER_MARKET, &VAULT, &VAULT, PRICE, PRICE, &MARKET, 400, 100),
        Ok((400, 420))
    );
    assert_eq!(uc.positions[0].borrow_principal, 500);
    assert_eq!(ua.positions[0].supply_principal, 580);
    assert_eq!(cm.total_borrows, 500);
    assert_eq!(cm.total_cash, 10_400);
    assert_eq!(a.total_cash, 9_580);
}

#[test]
fn liquidation_cannot_seize_more_than_the_supply() {
    let c = config();
    let mut a = market(10_000, 0);
    let mut cm = market(10_000, 2_000);
    let mut ua = user_with(MARKET, 1_000, 0);
    let mut uc = user_with(OTHER_MARKET, 0, 2_000);
    assert_eq!(
        liquidate_at(&mut a, &mut cm, &c, &mut ua, &mut uc, &MARKET, &OTHER_MARKET, &VAULT, &VAULT, PRICE, PRICE, &MARKET, 2_000, 100),
        Err(AurumError::InsufficientBalance)
    );
    assert_eq!(
        liquidate_at(&mut a, &mut cm, &c, &mut ua, &mut uc, &MARKET, &OTHER_MARKET, &VAULT, &VAULT, PRICE, PRICE, &USER, 100, 100),
        Err(AurumError::InvalidVault)
    );
    assert_eq!(ua.positions[0].supply_principal, 1_000);
    assert_eq!(
        handler_liquidate(&mut a, &mut cm, &c, &mut ua, &mut uc, &MARKET, &OTHER_MARKET, &VAULT, &VAULT, &feed_update(), &feed_update(), &MARKET, 0),
        Err(AurumError::InvalidAmount)
    );
    assert_eq!(
        handler_liquidate(&mut a, &mut cm, &c, &mut ua, &mut uc, &MARKET, &OTHER_MARKET, &VAULT, &VAULT, &feed_update(), &feed_update(), &MARKET, 10),
        Err(AurumError::ClockUnavailable)
    );
}

#[test]
fn liquidation_cash_shortage_is_insufficient_liquidity() {
    let c = config();
    let mut a = market(100, 0);
    let mut cm = market(10_000, 900);
    let mut ua = user_with(MARKET, 1_000, 0);
    let mut uc = user_with(OTHER_MARKET, 0, 900);
    assert_eq!(
        liquidate_at(&mut a, &mut cm, &c, &mut ua, &mut uc, &MARKET, &OTHER_MARKET, &VAULT, &VAULT, PRICE, PRICE, &MARKET, 400, 100),
        Err(AurumError::InsufficientLiquidity)
    );
}

#[test]
fn a_paused_protocol_refuses_user_operations() {
    let mut c = config();
    c.paused = true;
    let mut m = market(10_000, 1_000);
    let mut u = user_with(MARKET, 5_000, 1_000);
    let (m0, u0) = (m, u);
    assert_eq!(deposit_at(&mut m, &c, &listed(), &mut u, &PROGRAM, &MARKET, &USER, 10, 200), Err(AurumError::ProtocolPaused));
    assert_eq!(withdraw_at(&mut m, &c, &mut u, &MARKET, &VAULT, 10_000, &MARKET, 10, 200), Err(AurumError::ProtocolPaused));
    assert_eq!(borrow_at(&mut m, &c, &listed(), &mut u, &PROGRAM, &MARKET, &USER, 10, 200), Err(AurumError::ProtocolPaused));
    assert_eq!(repay_at(&mut m, &c, &mut u, &MARKET, &VAULT, 10, 200), Err(AurumError::ProtocolPaused));
    assert_eq!(handler_deposit(&mut m, &c, &listed(), &mut u, &PROGRAM, &MARKET, &USER, 0), Err(AurumError::ProtocolPaused));
    assert_eq!(handler_repay(&mut m, &c, &mut u, &MARKET, &VAULT, 10), Err(AurumError::ProtocolPaused));
    assert_eq!((m.total_cash, m.total_borrows, m.last_updated_ts), (m0.total_cash, m0.total_borrows, m0.last_updated_ts));
    assert_eq!(u.positions[0].supply_principal, u0.positions[0].supply_principal);
    let mut other = market(10_000, 0);
    let mut ua = user_with(OTHER_MARKET, 5_000, 0);
    assert_eq!(
        liquidate_at(&mut other, &mut m, &c, &mut ua, &mut u, &OTHER_MARKET, &MARKET, &VAULT, &VAULT, PRICE, PRICE, &OTHER_MARKET, 10, 200),
        Err(AurumError::ProtocolPaused)
    );
}

#[test]
fn unlisted_mints_cannot_be_deposited_or_borrowed() {
    let mut unlisted = listed();
    unlisted.is_whitelisted = false;
    let mut m = market(10_000, 0);
    let mut u = user_with(MARKET, 5_000, 0);
    assert_eq!(deposit_at(&mut m, &config(), &unlisted, &mut u, &PROGRAM, &MARKET, &USER, 10, 100), Err(AurumError::MintNotWhitelisted));
    assert_eq!(borrow_at(&mut m, &config(), &unlisted, &mut u, &PROGRAM, &MARKET, &USER, 10, 100), Err(AurumError::MintNotWhitelisted));
    assert_eq!(handler_borrow(&mut m, &config(), &unlisted, &mut u, &PROGRAM, &MARKET, &USER, 0), Err(AurumError::MintNotWhitelisted));
    assert_eq!(m.total_cash, 10_000);
    assert_eq!(u.positions[0].supply_principal, 5_000);
}

#[test]
fn only_the_market_vault_is_accepted() {
    let c = config();
    let mut m = market(10_000, 1_000);
    let mut u = user_with(MARKET, 5_000, 1_000);
    assert_eq!(withdraw_at(&mut m, &c, &mut u, &MARKET, &USER, 10_000, &MARKET, 10, 100), Err(AurumError::InvalidVault));
    assert_eq!(repay_at(&mut m, &c, &mut u, &MARKET, &USER, 10, 100), Err(AurumError::InvalidVault));
    assert_eq!(handler_withdraw(&mut m, &c, &mut u, &MARKET, &USER, 10_000, &MARKET, 0), Err(AurumError::InvalidVault));
    let mut a = market(10_000, 0);
    let mut ua = user_with(OTHER_MARKET, 5_000, 0);
    assert_eq!(
        liquidate_at(&mut a, &mut m, &c, &mut ua, &mut u, &OTHER_MARKET, &MARKET, &VAULT, &USER, PRICE, PRICE, &OTHER_MARKET, 10, 100),
        Err(AurumError::InvalidVault)
    );
    assert_eq!(
        liquidate_at(&mut a, &mut m, &c, &mut ua, &mut u, &OTHER_MARKET, &MARKET, &USER, &VAULT, PRICE, PRICE, &OTHER_MARKET, 10, 100),
        Err(AurumError::InvalidVault)
    );
    assert_eq!(u.positions[0].borrow_principal, 1_000);
    assert_eq!(m.total_cash, 10_000);
}

#[test]
fn withdrawals_keep_the_debt_within_collateral() {
    let c = config();
    let mut m = market(10_000, 600);
    let mut u = user_with(MARKET, 1_000, 600);
    // 700 left times 75% is 525, below the debt of 600
    assert_eq!(withdraw_at(&mut m, &c, &mut u, &MARKET, &VAULT, 10_000, &MARKET, 300, 100), Err(AurumError::InsufficientCollateral));
    assert_eq!(u.positions[0].supply_principal, 1_000);
    // 900 left times 75% is 675
    assert_eq!(withdraw_at(&mut m, &c, &mut u, &MARKET, &VAULT, 10_000, &MARKET, 100, 100), Ok(()));
    assert_eq!(u.positions[0].supply_principal, 900);
    assert_eq!(withdraw_at(&mut m, &c, &mut u, &MARKET, &VAULT, 10_000, &MARKET, 900, 100), Err(AurumError::InsufficientCollateral));
}

#[test]
fn liquidation_values_debt_and_collateral_at_their_prices() {
    let c = config();
    // collateral worth twice the debt asset: 1_000 * 2 * 80% = 1_600 < 1_700 of debt value
    let mut a = market(10_000, 0);
    let mut cm = market(10_000, 1_700);
    let mut ua = user_with(MARKET, 1_000, 0);
    let mut uc = user_with(OTHER_MARKET, 0, 1_700);
    assert_eq!(
        liquidate_at(&mut a, &mut cm, &c, &mut ua, &mut uc, &MARKET, &OTHER_MARKET, &VAULT, &VAULT, 2 * PRICE, PRICE, &MARKET, 400, 100),
        Ok((400, 210))
    );
    assert_eq!(ua.positions[0].supply_principal, 790);
    assert_eq!(uc.positions[0].borrow_principal, 1_300);
    // debt priced twice the collateral: 700 * 2 = 1_400 of debt value against 800
    let mut a2 = market(10_000, 0);
    let mut cm2 = market(10_000, 700);
    let mut ua2 = user_with(MARKET, 1_000, 0);
    let mut uc2 = user_with(OTHER_MARKET, 0, 700);
    assert_eq!(
        liquidate_at(&mut a2, &mut cm2, &c, &mut ua2, &mut uc2, &MARKET, &OTHER_MARKET, &VAULT, &VAULT, PRICE, 2 * PRICE, &MARKET, 100, 100),
        Ok((100, 210))
    );
    assert_eq!(
        liquidate_at(&mut a2, &mut cm2, &c, &mut ua2, &mut uc2, &MARKET, &OTHER_MARKET, &VAULT, &VAULT, 0, PRICE, &MARKET, 100, 100),
        Err(AurumError::InvalidPriceFeed)
    );
}

#[test]
fn same_market_liquidation_applies_both_sides() {
    let c = config();
    let mut m = market(10_000, 900);
    let mut u = user_with(MARKET, 1_000, 900);
    assert_eq!(liquidate_same_market_at(&mut m, &c, &mut u, &MARKET, &VAULT, PRICE, &MARKET, 400, 100), Ok((400, 420)));
    assert_eq!(u.positions[0].borrow_principal, 500);
    assert_eq!(u.positions[0].supply_principal, 580);
    assert_eq!(m.total_borrows, 500);
    assert_eq!(m.total_cash, 10_000 + 400 - 420);
    let mut healthy = user_with(MARKET, 1_000, 700);
    assert_eq!(liquidate_same_market_at(&mut m, &c, &mut healthy, &MARKET, &VAULT, PRICE, &MARKET, 100, 100), Err(AurumError::NotLiquidatable));
    assert_eq!(handler_liquidate_same_market(&mut m, &c, &mut u, &MARKET, &VAULT, &feed_update(), &MARKET, 0), Err(AurumError::InvalidAmount));
    assert_eq!(handler_liquidate_same_market(&mut m, &c, &mut u, &MARKET, &VAULT, &feed_update(), &MARKET, 10), Err(AurumError::ClockUnavailable));
}

#[test]
fn instructions_read_and_write_slot_zero() {
    let c = config();
    let mut m = market(10_000, 500);
    let mut u = fresh_user();
    u.owner = USER;
    u.positions[0] = Position { market: OTHER_MARKET, supply_principal: 1_000, borrow_principal: 0, supply_index: WAD, borrow_index: WAD, is_collateral: 1 };
    u.positions[1] = Position { market: MARKET, supply_principal: 1_000, borrow_principal: 500, supply_index: WAD, borrow_index: WAD, is_collateral: 1 };
    assert_eq!(repay_at(&mut m, &c, &mut u, &MARKET, &VAULT, 100, 100), Err(AurumError::InvalidPosition));
    assert_eq!(borrow_at(&mut m, &c, &listed(), &mut u, &PROGRAM, &MARKET, &USER, 100, 100), Err(AurumError::InvalidPosition));
    assert_eq!(u.positions[1].borrow_principal, 500);
}

#[test]
fn large_positions_are_liquidated_without_overflow() {
    let c = config();
    let supply: u128 = 1_000_000_000_000_000; // one million tokens of 9 decimals
    let mut a = market(10 * supply, 0);
    let mut cm = market(10 * supply, 900_000_000_000_000);
    let mut ua = user_with(MARKET, supply, 0);
    let mut uc = user_with(OTHER_MARKET, 0, 900_000_000_000_000);
    assert_eq!(
        liquidate_at(&mut a, &mut cm, &c, &mut ua, &mut uc, &MARKET, &OTHER_MARKET, &VAULT, &VAULT, PRICE, PRICE, &MARKET, 400_000_000_000_000, 100),
        Ok((400_000_000_000_000, 420_000_000_000_000))
    );
    assert_eq!(ua.positions[0].supply_principal, supply - 420_000_000_000_000);
    assert_eq!(uc.positions[0].borrow_principal, 500_000_000_000_000);
}
