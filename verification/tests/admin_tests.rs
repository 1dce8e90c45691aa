use anchor_lang::prelude::Pubkey;
use anchor_lang::solana_program::program_option::COption;
use anchor_lang::solana_program::program_pack::Pack;
use anchor_spl::token_2022::spl_token_2022::extension::metadata_pointer::MetadataPointer;
use anchor_spl::token_2022::spl_token_2022::extension::mint_close_authority::MintCloseAuthority;
use anchor_spl::token_2022::spl_token_2022::extension::{BaseStateWithExtensionsMut, ExtensionType, StateWithExtensionsMut};
use anchor_spl::token_2022::spl_token_2022::state::Mint;
use lending_borrowing_market_compound_v2::admin::{
    handle_set_pause, handle_set_unpause, handler_initialize_config, handler_initialize_market,
    handler_update_config, handler_update_treasury, handler_whitelist_mint, initialize_config_at,
    initialize_market_at, is_supported_mint, set_pause_at, set_unpause_at, update_config_at,
};
use lending_borrowing_market_compound_v2::errors::AurumError;
use lending_borrowing_market_compound_v2::state::{
    Config, GlobalConfigParams, Market, MarketInitParams, MintWhitelisted, MintWhitelistedParams, Position,
};

const WAD: u128 = 1_000_000_000_000_000_000;
const PROGRAM: [u8; 32] = [9u8; 32];
const MINT: [u8; 32] = [8u8; 32];
const ADMIN: [u8; 32] = [0u8; 32];
const STRANGER: [u8; 32] = [5u8; 32];

fn params() -> GlobalConfigParams {
    GlobalConfigParams {
        base_rate: 1,
        slope1: 2,
        jump_slope: 3,
        kink: 8000,
        reserve_factor: 1000,
        liquidation_threshold: 8500,
        liquidation_bonus: 500,
    }
}

fn blank_config() -> Config {
    Config {
        bump: 0,
        admin: [0u8; 32],
        treasury: [0u8; 32],
        paused: true,
        updated_at: 0,
        liquidation_threshold: 0,
        liquidation_bonus: 0,
        base_rate: 0,
        slope1: 0,
        jump_slope: 0,
        kink: 0,
        reserve_factor: 0,
    }
}

fn listed_entry() -> MintWhitelisted {
    MintWhitelisted { mint: MINT, mint_decimals: 6, is_whitelisted: true, bump: 1, pyth_price_feed: String::new() }
}

fn blank_market() -> Market {
    Market {
        bump: 3,
        mint: [0u8; 32],
        vault: [0u8; 32],
        total_cash: 5,
        total_borrows: 5,
        total_reserves: 5,
        c_token_mint: [0u8; 32],
        c_token_supply: 0,
        pyth_feed_id: [0u8; 32],
        decimals: 0,
        borrow_index: 0,
        supply_index: 0,
        ltv_bps: 0,
        liquidation_threshold_bps: 0,
        liquidation_bonus_bps: 0,
        reserve_factor_bps: 0,
        kink_utilization_bps: 0,
        base_rate_per_year: 0,
        slope1_per_year: 0,
        slope2_per_year: 0,
        last_updated_ts: 0,
    }
}

#[test]
fn initialize_config_writes_every_field() {
    let mut c = blank_config();
    initialize_config_at(&mut c, 254, &[1u8; 32], &[2u8; 32], &params(), 77);
    assert_eq!(c.bump, 254);
    assert_eq!(c.admin, [1u8; 32]);
    assert_eq!(c.treasury, [2u8; 32]);
    assert!(!c.paused);
    assert_eq!(c.updated_at, 77);
    assert_eq!(c.liquidation_threshold, 8500);
    assert_eq!(c.liquidation_bonus, 500);
    assert_eq!(c.base_rate, 1);
    assert_eq!(c.slope1, 2);
    assert_eq!(c.jump_slope, 3);
    assert_eq!(c.kink, 8000);
    assert_eq!(c.reserve_factor, 1000);
    let mut d = blank_config();
    assert_eq!(handler_initialize_config(&mut d, 1, &[1u8; 32], &[2u8; 32], &params()), Err(AurumError::ClockUnavailable));
    assert_eq!(d.bump, 0);
}

#[test]
fn pause_and_unpause_undo_each_other() {
    let mut c = blank_config();
    c.paused = false;
    assert_eq!(set_unpause_at(&mut c, 5), Err(AurumError::ConfigAlreadyUnpaused));
    assert_eq!(set_pause_at(&mut c, 10), Ok(()));
    assert!(c.paused);
    assert_eq!(c.updated_at, 10);
    assert_eq!(set_pause_at(&mut c, 11), Err(AurumError::ConfigAlreadyPaused));
    assert_eq!(c.updated_at, 10);
    assert_eq!(set_unpause_at(&mut c, 12), Ok(()));
    assert!(!c.paused);
    assert_eq!(c.updated_at, 12);
}

#[test]
fn pause_handlers_check_the_flag_before_the_clock() {
    let mut c = blank_config();
    assert_eq!(handle_set_pause(&mut c, &ADMIN), Err(AurumError::ConfigAlreadyPaused));
    assert_eq!(handle_set_unpause(&mut c, &ADMIN), Err(AurumError::ClockUnavailable));
    c.paused = false;
    assert_eq!(handle_set_unpause(&mut c, &ADMIN), Err(AurumError::ConfigAlreadyUnpaused));
    assert_eq!(handle_set_pause(&mut c, &ADMIN), Err(AurumError::ClockUnavailable));
    assert!(!c.paused);
}

#[test]
fn update_config_replaces_the_parameters() {
    let mut c = blank_config();
    c.admin = [4u8; 32];
    update_config_at(&mut c, &params(), 99);
    assert_eq!(c.admin, [4u8; 32]);
    assert!(c.paused);
    assert_eq!(c.kink, 8000);
    assert_eq!(c.liquidation_threshold, 8500);
    assert_eq!(c.updated_at, 99);
    let mut d = blank_config();
    assert_eq!(handler_update_config(&mut d, &ADMIN, &params()), Err(AurumError::ClockUnavailable));
    assert_eq!(d.kink, 0);
}

#[test]
fn treasury_must_change() {
    let mut c = blank_config();
    c.treasury = [2u8; 32];
    assert_eq!(handler_update_treasury(&mut c, &ADMIN, &[2u8; 32]), Err(AurumError::TresurySameAsOldOne));
    assert_eq!(handler_update_treasury(&mut c, &ADMIN, &[3u8; 32]), Ok(()));
    assert_eq!(c.treasury, [3u8; 32]);
}

#[test]
fn initialize_market_sets_unit_indices() {
    let mut m = blank_market();
    let p = MarketInitParams::default();
    initialize_market_at(&mut m, &p, &[8u8; 32], &[6u8; 32], 1234);
    assert_eq!(m.mint, [8u8; 32]);
    assert_eq!(m.vault, [6u8; 32]);
    assert_eq!((m.total_cash, m.total_borrows, m.total_reserves), (0, 0, 0));
    assert_eq!(m.borrow_index, WAD);
    assert_eq!(m.supply_index, WAD);
    assert_eq!(m.last_updated_ts, 1234);
    assert_eq!(m.ltv_bps, 7500);
    assert_eq!(m.liquidation_threshold_bps, 8000);
    assert_eq!(m.liquidation_bonus_bps, 500);
    assert_eq!(m.reserve_factor_bps, 0);
    assert_eq!(m.bump, 3);
    let mut n = blank_market();
    assert_eq!(handler_initialize_market(&mut n, &blank_config(), &ADMIN, &listed_entry(), &p, &[8u8; 32], &[6u8; 32]), Err(AurumError::ClockUnavailable));
}

#[test]
fn default_market_parameters() {
    let p = MarketInitParams::default();
    assert_eq!(p.pyth_feed_id, [0u8; 32]);
    assert_eq!(p.decimals, 9);
    assert_eq!(p.ltv_bps, 7500);
    assert_eq!(p.liquidation_threshold_bps, 8000);
    assert_eq!(p.liquidation_bonus_bps, 500);
    assert_eq!(p.reserve_factor_bps, 1000);
    assert_eq!(p.kink_utilization_bps, 8000);
    assert_eq!(p.base_rate_per_year, 0);
    assert_eq!(p.slope1_per_year, 50_000_000_000_000_000);
    assert_eq!(p.slope2_per_year, 200_000_000_000_000_000);
}

#[test]
fn position_activity() {
    let mut p = Position { market: [0u8; 32], supply_principal: 0, borrow_principal: 0, supply_index: 0, borrow_index: 0, is_collateral: 0 };
    assert!(!p.is_active());
    p.market[31] = 1;
    assert!(p.is_active());
}

fn base_mint_bytes() -> Vec<u8> {
    let mint = Mint { mint_authority: COption::None, supply: 0, decimals: 6, is_initialized: true, freeze_authority: COption::None };
    let mut data = vec![0u8; Mint::LEN];
    Mint::pack(mint, &mut data).unwrap();
    data
}

fn mint_with(ext: ExtensionType) -> Vec<u8> {
    let len = ExtensionType::try_calculate_account_len::<Mint>(&[ext]).unwrap();
    let mut data = vec![0u8; len];
    {
        let mut state = StateWithExtensionsMut::<Mint>::unpack_uninitialized(&mut data).unwrap();
        if ext == ExtensionType::MintCloseAuthority {
            state.init_extension::<MintCloseAuthority>(true).unwrap();
        } else {
            state.init_extension::<MetadataPointer>(true).unwrap();
        }
        state.base = Mint { mint_authority: COption::None, supply: 0, decimals: 6, is_initialized: true, freeze_authority: COption::None };
        state.pack_base();
        state.init_account_type().unwrap();
    }
    data
}

#[test]
fn token_program_mints_are_supported() {
    let owner = anchor_spl::token::ID.to_bytes();
    assert_eq!(is_supported_mint(&owner, &[]), Ok(true));
}

#[test]
fn token_2022_mints_need_metadata_only_extensions() {
    let owner = anchor_spl::token_2022::ID.to_bytes();
    assert_eq!(is_supported_mint(&owner, &base_mint_bytes()), Ok(true));
    assert_eq!(is_supported_mint(&owner, &mint_with(ExtensionType::MetadataPointer)), Ok(true));
    assert_eq!(is_supported_mint(&owner, &mint_with(ExtensionType::MintCloseAuthority)), Ok(false));
    assert_eq!(is_supported_mint(&owner, &[1, 2, 3]), Err(AurumError::InvalidMintData));
}

#[test]
fn whitelisting_writes_the_entry_once_then_updates() {
    let (_, bump) = Pubkey::find_program_address(&[b"mint_whitelisted".as_ref(), MINT.as_ref()], &Pubkey::new_from_array(PROGRAM));
    let owner = anchor_spl::token::ID.to_bytes();
    let mut w = MintWhitelisted { mint: [0u8; 32], mint_decimals: 0, is_whitelisted: false, bump: bump.wrapping_add(1), pyth_price_feed: String::new() };
    let r = handler_whitelist_mint(&mut w, &blank_config(), &ADMIN, &PROGRAM, &MINT, &owner, &[], 6, MintWhitelistedParams { pyth_price_feed: "feed-a".to_string(), is_whitelisted: true });
    assert_eq!(r, Ok(()));
    assert_eq!(w.mint, MINT);
    assert_eq!(w.bump, bump);
    assert_eq!(w.mint_decimals, 6);
    assert!(w.is_whitelisted);
    assert_eq!(w.pyth_price_feed, "feed-a");
    let r = handler_whitelist_mint(&mut w, &blank_config(), &ADMIN, &PROGRAM, &MINT, &[0u8; 32], &[1, 2], 9, MintWhitelistedParams { pyth_price_feed: "feed-b".to_string(), is_whitelisted: false });
    assert_eq!(r, Ok(()));
    assert_eq!(w.mint_decimals, 6);
    assert!(!w.is_whitelisted);
    assert_eq!(w.pyth_price_feed, "feed-b");
}

#[test]
fn whitelisting_an_unsupported_mint_is_refused() {
    let owner = anchor_spl::token_2022::ID.to_bytes();
    let mut w = MintWhitelisted { mint: [0u8; 32], mint_decimals: 0, is_whitelisted: false, bump: 0, pyth_price_feed: String::new() };
    let data = mint_with(ExtensionType::MintCloseAuthority);
    let r = handler_whitelist_mint(&mut w, &blank_config(), &ADMIN, &PROGRAM, &MINT, &owner, &data, 6, MintWhitelistedParams { pyth_price_feed: "f".to_string(), is_whitelisted: true });
    assert_eq!(r, Err(AurumError::MintNotSupported));
    assert!(!w.is_whitelisted);
    let r = handler_whitelist_mint(&mut w, &blank_config(), &ADMIN, &PROGRAM, &MINT, &owner, &[7u8; 5], 6, MintWhitelistedParams { pyth_price_feed: "f".to_string(), is_whitelisted: true });
    assert_eq!(r, Err(AurumError::InvalidMintData));
}

#[test]
fn only_the_admin_changes_the_configuration() {
    let mut c = blank_config();
    let before = c;
    assert_eq!(handle_set_pause(&mut c, &STRANGER), Err(AurumError::Unauthorized));
    assert_eq!(handle_set_unpause(&mut c, &STRANGER), Err(AurumError::Unauthorized));
    assert_eq!(handler_update_config(&mut c, &STRANGER, &params()), Err(AurumError::Unauthorized));
    assert_eq!(handler_update_treasury(&mut c, &STRANGER, &[3u8; 32]), Err(AurumError::Unauthorized));
    assert_eq!((c.paused, c.kink, c.treasury, c.updated_at), (before.paused, before.kink, before.treasury, before.updated_at));
    let mut w = MintWhitelisted { mint: [0u8; 32], mint_decimals: 0, is_whitelisted: false, bump: 0, pyth_price_feed: String::new() };
    let owner = anchor_spl::token::ID.to_bytes();
    let r = handler_whitelist_mint(&mut w, &c, &STRANGER, &PROGRAM, &MINT, &owner, &[], 6, MintWhitelistedParams { pyth_price_feed: "x".to_string(), is_whitelisted: true });
    assert_eq!(r, Err(AurumError::Unauthorized));
    assert!(!w.is_whitelisted);
    let mut m = blank_market();
    let p = MarketInitParams::default();
    assert_eq!(handler_initialize_market(&mut m, &c, &STRANGER, &listed_entry(), &p, &MINT, &[6u8; 32]), Err(AurumError::Unauthorized));
    assert_eq!(m.total_cash, 5);
}

#[test]
fn markets_need_a_whitelisted_mint() {
    let mut entry = listed_entry();
    entry.is_whitelisted = false;
    let mut m = blank_market();
    let p = MarketInitParams::default();
    assert_eq!(handler_initialize_market(&mut m, &blank_config(), &ADMIN, &entry, &p, &MINT, &[6u8; 32]), Err(AurumError::MintNotWhitelisted));
    assert_eq!(m.total_cash, 5);
}
