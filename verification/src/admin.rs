//! Administrative instructions: configuration, pausing, treasury, mint whitelist and
//! market creation.  On an error no account changes.
use vstd::prelude::*;
use vstd::string::StringSliceAdditionalSpecFns;
use crate::constants::{INDEX_MANTISSA, MINT_WHITELISTED_SEED};
use crate::errors::AurumError;
use crate::outside::{clock_unix_timestamp, find_bump, mint_extension_types, mint_extensions, program_address_bump, token_program_id};
use crate::state::{keys_equal, Config, GlobalConfigParams, Market, MarketInitParams, MintWhitelisted, MintWhitelistedParams};

verus! {

/// Reads the cluster clock as an unsigned timestamp.
fn now_or_unavailable() -> (r: Result<u64, AurumError>)
    ensures
        r matches Err(e) ==> e == AurumError::ClockUnavailable,
{
    match clock_unix_timestamp() {
        Ok(t) => Ok(#[verifier::truncate] (t as u64)),
        Err(_) => Err(AurumError::ClockUnavailable),
    }
}

// ---------------------------------------------------------------------------
// Configuration
// ---------------------------------------------------------------------------

/// A freshly initialized configuration.
pub open spec fn initialized_config(bump: u8, admin: [u8; 32], treasury: [u8; 32], params: GlobalConfigParams, now: u64) -> Config {
    Config {
        bump: bump,
        admin: admin,
        treasury: treasury,
        paused: false,
        updated_at: now,
        liquidation_threshold: params.liquidation_threshold,
        liquidation_bonus: params.liquidation_bonus,
        base_rate: params.base_rate,
        slope1: params.slope1,
        jump_slope: params.jump_slope,
        kink: params.kink,
        reserve_factor: params.reserve_factor,
    }
}

/// Initializes the configuration at time `now_ts`: unpaused, with the given admin,
/// treasury and model parameters.
pub fn initialize_config_at(config: &mut Config, bump: u8, admin: &[u8; 32], treasury: &[u8; 32], params: &GlobalConfigParams, now_ts: u64)
    ensures
        *final(config) == initialized_config(bump, *admin, *treasury, *params, now_ts),
{
    config.bump = bump;
    config.admin = *admin;
    config.treasury = *treasury;
    config.paused = false;
    config.updated_at = now_ts;
    config.liquidation_threshold = params.liquidation_threshold;
    config.liquidation_bonus = params.liquidation_bonus;
    config.base_rate = params.base_rate;
    config.slope1 = params.slope1;
    config.jump_slope = params.jump_slope;
    config.kink = params.kink;
    config.reserve_factor = params.reserve_factor;
}

/// The initialize-config instruction: `initialize_config_at` at the cluster clock.
pub fn handler_initialize_config(config: &mut Config, bump: u8, admin: &[u8; 32], treasury: &[u8; 32], params: &GlobalConfigParams) -> (r: Result<(), AurumError>)
    ensures
        r is Ok ==> *final(config) == initialized_config(bump, *admin, *treasury, *params, final(config).updated_at),
        r matches Err(e) ==> e == AurumError::ClockUnavailable && *final(config) == *old(config),
{
    let now_ts: u64 = now_or_unavailable()?;
    initialize_config_at(config, bump, admin, treasury, params, now_ts);
    Ok(())
}

/// Pausing at `now`: fails on a paused configuration, else sets the flag and the stamp.
pub open spec fn pause_spec(c: Config, now: u64) -> Result<Config, AurumError> {
    if c.paused {
        Err(AurumError::ConfigAlreadyPaused)
    } else {
        Ok(Config { paused: true, updated_at: now, ..c })
    }
}

/// Unpausing at `now`: fails on an unpaused configuration, else clears the flag and stamps.
pub open spec fn unpause_spec(c: Config, now: u64) -> Result<Config, AurumError> {
    if !c.paused {
        Err(AurumError::ConfigAlreadyUnpaused)
    } else {
        Ok(Config { paused: false, updated_at: now, ..c })
    }
}

/// Pauses the protocol at time `now_ts`; fails when it is already paused.
pub fn set_pause_at(config: &mut Config, now_ts: u64) -> (r: Result<(), AurumError>)
    ensures
        match pause_spec(*old(config), now_ts) {
            Ok(c2) => r is Ok && *final(config) == c2,
            Err(e) => r == Err::<(), AurumError>(e) && *final(config) == *old(config),
        },
{
    if config.paused {
        return Err(AurumError::ConfigAlreadyPaused);
    }
    config.paused = true;
    config.updated_at = now_ts;
    Ok(())
}

/// Whether `signer` is the configured admin.
pub open spec fn is_admin(c: Config, signer: [u8; 32]) -> bool {
    c.admin@ == signer@
}

/// The pause instruction, signed by `signer`: `set_pause_at` at the cluster clock.  Only
/// the admin may pause.
pub fn handle_set_pause(config: &mut Config, signer: &[u8; 32]) -> (r: Result<(), AurumError>)
    ensures
        !is_admin(*old(config), *signer) ==> r == Err::<(), AurumError>(AurumError::Unauthorized),
        is_admin(*old(config), *signer) && old(config).paused ==> r == Err::<(), AurumError>(AurumError::ConfigAlreadyPaused),
        r is Ok ==> *final(config) == (Config { paused: true, updated_at: final(config).updated_at, ..*old(config) }),
        r matches Err(e) ==> *final(config) == *old(config)
            && (e == AurumError::Unauthorized || e == AurumError::ConfigAlreadyPaused || e == AurumError::ClockUnavailable),
{
    if !keys_equal(&config.admin, signer) {
        return Err(AurumError::Unauthorized);
    }
    if config.paused {
        return Err(AurumError::ConfigAlreadyPaused);
    }
    let now_ts: u64 = now_or_unavailable()?;
    set_pause_at(config, now_ts)
}

/// Unpauses the protocol at time `now_ts`; fails when it is not paused.
pub fn set_unpause_at(config: &mut Config, now_ts: u64) -> (r: Result<(), AurumError>)
    ensures
        match unpause_spec(*old(config), now_ts) {
            Ok(c2) => r is Ok && *final(config) == c2,
            Err(e) => r == Err::<(), AurumError>(e) && *final(config) == *old(config),
        },
{
    if !config.paused {
        return Err(AurumError::ConfigAlreadyUnpaused);
    }
    config.paused = false;
    config.updated_at = now_ts;
    Ok(())
}

/// The unpause instruction, signed by `signer`: `set_unpause_at` at the cluster clock.
/// Only the admin may unpause.
pub fn handle_set_unpause(config: &mut Config, signer: &[u8; 32]) -> (r: Result<(), AurumError>)
    ensures
        !is_admin(*old(config), *signer) ==> r == Err::<(), AurumError>(AurumError::Unauthorized),
        is_admin(*old(config), *signer) && !old(config).paused ==> r == Err::<(), AurumError>(AurumError::ConfigAlreadyUnpaused),
        r is Ok ==> *final(config) == (Config { paused: false, updated_at: final(config).updated_at, ..*old(config) }),
        r matches Err(e) ==> *final(config) == *old(config)
            && (e == AurumError::Unauthorized || e == AurumError::ConfigAlreadyUnpaused || e == AurumError::ClockUnavailable),
{
    if !keys_equal(&config.admin, signer) {
        return Err(AurumError::Unauthorized);
    }
    if !config.paused {
        return Err(AurumError::ConfigAlreadyUnpaused);
    }
    let now_ts: u64 = now_or_unavailable()?;
    set_unpause_at(config, now_ts)
}

/// The configuration with new model parameters, stamped at `now`.
pub open spec fn updated_config(c: Config, params: GlobalConfigParams, now: u64) -> Config {
    Config {
        liquidation_threshold: params.liquidation_threshold,
        liquidation_bonus: params.liquidation_bonus,
        base_rate: params.base_rate,
        slope1: params.slope1,
        jump_slope: params.jump_slope,
        kink: params.kink,
        reserve_factor: params.reserve_factor,
        updated_at: now,
        ..c
    }
}

/// Replaces the model and liquidation parameters at time `now_ts`.
pub fn update_config_at(config: &mut Config, params: &GlobalConfigParams, now_ts: u64)
    ensures
        *final(config) == updated_config(*old(config), *params, now_ts),
{
    config.liquidation_threshold = params.liquidation_threshold;
    config.liquidation_bonus = params.liquidation_bonus;
    config.base_rate = params.base_rate;
    config.slope1 = params.slope1;
    config.jump_slope = params.jump_slope;
    config.kink = params.kink;
    config.reserve_factor = params.reserve_factor;
    config.updated_at = now_ts;
}

/// The update-config instruction, signed by `signer`: `update_config_at` at the cluster
/// clock.  Only the admin may update the configuration.
pub fn handler_update_config(config: &mut Config, signer: &[u8; 32], params: &GlobalConfigParams) -> (r: Result<(), AurumError>)
    ensures
        !is_admin(*old(config), *signer) ==> r == Err::<(), AurumError>(AurumError::Unauthorized),
        r is Ok ==> *final(config) == updated_config(*old(config), *params, final(config).updated_at),
        r matches Err(e) ==> *final(config) == *old(config)
            && (e == AurumError::Unauthorized || (is_admin(*old(config), *signer) && e == AurumError::ClockUnavailable)),
{
    if !keys_equal(&config.admin, signer) {
        return Err(AurumError::Unauthorized);
    }
    let now_ts: u64 = now_or_unavailable()?;
    update_config_at(config, params, now_ts);
    Ok(())
}

/// Moves the treasury to `new_treasury`, which must differ from the current one.  Only the
/// admin (`signer`) may move it.
pub fn handler_update_treasury(config: &mut Config, signer: &[u8; 32], new_treasury: &[u8; 32]) -> (r: Result<(), AurumError>)
    ensures
        !is_admin(*old(config), *signer) ==> r == Err::<(), AurumError>(AurumError::Unauthorized) && *final(config) == *old(config),
        is_admin(*old(config), *signer) && new_treasury@ == old(config).treasury@
            ==> r == Err::<(), AurumError>(AurumError::TresurySameAsOldOne) && *final(config) == *old(config),
        is_admin(*old(config), *signer) && new_treasury@ != old(config).treasury@
            ==> r is Ok && *final(config) == (Config { treasury: *new_treasury, ..*old(config) }),
{
    if !keys_equal(&config.admin, signer) {
        return Err(AurumError::Unauthorized);
    }
    if keys_equal(new_treasury, &config.treasury) {
        return Err(AurumError::TresurySameAsOldOne);
    }
    config.treasury = *new_treasury;
    Ok(())
}

// ---------------------------------------------------------------------------
// Mint whitelist
// ---------------------------------------------------------------------------

/// Extension code of a metadata pointer (`ExtensionType::MetadataPointer`).
pub const METADATA_POINTER_EXTENSION: u16 = 18;
/// Extension code of embedded token metadata (`ExtensionType::TokenMetadata`).
pub const TOKEN_METADATA_EXTENSION: u16 = 19;

/// Whether every listed extension is a metadata pointer or token metadata.
pub open spec fn only_metadata_extensions(codes: Seq<u16>) -> bool {
    forall|i: int| 0 <= i < codes.len() ==> (codes[i] == METADATA_POINTER_EXTENSION || codes[i] == TOKEN_METADATA_EXTENSION)
}

/// The SPL Token program address.
pub open spec fn token_program_key() -> Seq<u8> {
    seq![6u8, 221, 246, 225, 215, 101, 161, 147, 217, 203, 225, 70, 206, 235, 121, 172,
        28, 180, 133, 237, 95, 91, 55, 145, 58, 140, 245, 133, 126, 255, 0, 169]
}

/// Whether a mint can be listed: any mint of the SPL Token program, or a Token-2022 mint
/// whose only extensions are metadata.  Mint data that does not decode gives `InvalidMintData`.
pub fn is_supported_mint(mint_owner: &[u8; 32], mint_data: &[u8]) -> (r: Result<bool, AurumError>)
    ensures
        mint_owner@ == token_program_key() ==> r == Ok::<bool, AurumError>(true),
        mint_owner@ != token_program_key() ==> r == match mint_extension_types(mint_data@) {
            None => Err::<bool, AurumError>(AurumError::InvalidMintData),
            Some(codes) => Ok::<bool, AurumError>(only_metadata_extensions(codes)),
        },
{
    let token_id: [u8; 32] = token_program_id();
    if keys_equal(mint_owner, &token_id) {
        return Ok(true);
    }
    let extensions: Vec<u16> = match mint_extensions(mint_data) {
        Ok(v) => v,
        Err(_) => return Err(AurumError::InvalidMintData),
    };
    let mut i: usize = 0;
    while i < extensions.len()
        invariant
            0 <= i <= extensions@.len(),
            mint_owner@ != token_program_key(),
            mint_extension_types(mint_data@) == Some(extensions@),
            forall|j: int| 0 <= j < i ==> (extensions@[j] == METADATA_POINTER_EXTENSION || extensions@[j] == TOKEN_METADATA_EXTENSION),
        decreases extensions@.len() - i,
    {
        let e: u16 = extensions[i];
        if e != METADATA_POINTER_EXTENSION && e != TOKEN_METADATA_EXTENSION {
            assert(!only_metadata_extensions(extensions@));
            return Ok(false);
        }
        i = i + 1;
    }
    Ok(true)
}

/// Seeds of a mint whitelist address: the whitelist seed and the mint.
pub open spec fn mint_whitelisted_seeds(mint_key: Seq<u8>) -> Seq<Seq<u8>> {
    seq![MINT_WHITELISTED_SEED.spec_bytes(), mint_key]
}

/// Lists, delists or updates a mint.  The first time (when the stored bump is not the
/// address's bump) the mint must be supported and the whole entry is written; afterwards
/// only the whitelist flag and the price feed change.
/// Only the admin (`signer`) may change the whitelist.
pub fn handler_whitelist_mint(mint_whitelisted: &mut MintWhitelisted, config: &Config, signer: &[u8; 32], program_id: &[u8; 32], mint_key: &[u8; 32], mint_owner: &[u8; 32], mint_data: &[u8], mint_decimals: u8, params: MintWhitelistedParams) -> (r: Result<(), AurumError>)
    ensures
        !is_admin(*config, *signer) ==> r == Err::<(), AurumError>(AurumError::Unauthorized) && *final(mint_whitelisted) == *old(mint_whitelisted),
        is_admin(*config, *signer) ==> match program_address_bump(mint_whitelisted_seeds(mint_key@), program_id@) {
            None => r == Err::<(), AurumError>(AurumError::AddressDerivationFailed) && *final(mint_whitelisted) == *old(mint_whitelisted),
            Some(b) => if old(mint_whitelisted).bump != b {
                let supported = if mint_owner@ == token_program_key() {
                    Ok::<bool, AurumError>(true)
                } else {
                    match mint_extension_types(mint_data@) {
                        None => Err::<bool, AurumError>(AurumError::InvalidMintData),
                        Some(codes) => Ok::<bool, AurumError>(only_metadata_extensions(codes)),
                    }
                };
                match supported {
                    Err(e) => r == Err::<(), AurumError>(e) && *final(mint_whitelisted) == *old(mint_whitelisted),
                    Ok(false) => r == Err::<(), AurumError>(AurumError::MintNotSupported) && *final(mint_whitelisted) == *old(mint_whitelisted),
                    Ok(true) => r is Ok
                        && final(mint_whitelisted).mint == *mint_key
                        && final(mint_whitelisted).bump == b
                        && final(mint_whitelisted).pyth_price_feed@ == params.pyth_price_feed@
                        && final(mint_whitelisted).mint_decimals == mint_decimals
                        && final(mint_whitelisted).is_whitelisted == params.is_whitelisted,
                }
            } else {
                r is Ok
                    && final(mint_whitelisted).mint == old(mint_whitelisted).mint
                    && final(mint_whitelisted).bump == old(mint_whitelisted).bump
                    && final(mint_whitelisted).mint_decimals == old(mint_whitelisted).mint_decimals
                    && final(mint_whitelisted).pyth_price_feed@ == params.pyth_price_feed@
                    && final(mint_whitelisted).is_whitelisted == params.is_whitelisted
            },
        },
{
    if !keys_equal(&config.admin, signer) {
        return Err(AurumError::Unauthorized);
    }
    let mut seeds: Vec<Vec<u8>> = Vec::new();
    seeds.push(vstd::slice::slice_to_vec(MINT_WHITELISTED_SEED.as_bytes()));
    seeds.push(vstd::slice::slice_to_vec(vstd::array::array_as_slice(mint_key)));
    proof {
        assert(seeds@[0].deep_view() =~= MINT_WHITELISTED_SEED.spec_bytes());
        assert(seeds@[1].deep_view() =~= mint_key@);
        assert(seeds.deep_view() =~= mint_whitelisted_seeds(mint_key@));
    }
    let bump: u8 = match find_bump(&seeds, program_id) {
        Some(b) => b,
        None => return Err(AurumError::AddressDerivationFailed),
    };
    if mint_whitelisted.bump != bump {
        let supported: bool = is_supported_mint(mint_owner, mint_data)?;
        if !supported {
            return Err(AurumError::MintNotSupported);
        }
        mint_whitelisted.mint = *mint_key;
        mint_whitelisted.bump = bump;
        mint_whitelisted.pyth_price_feed = params.pyth_price_feed;
        mint_whitelisted.mint_decimals = mint_decimals;
        mint_whitelisted.is_whitelisted = params.is_whitelisted;
    } else {
        mint_whitelisted.is_whitelisted = params.is_whitelisted;
        mint_whitelisted.pyth_price_feed = params.pyth_price_feed;
    }
    Ok(())
}

// ---------------------------------------------------------------------------
// Market creation
// ---------------------------------------------------------------------------

/// A market initialized for the mint `mint_key` with vault `vault_key` at time `now`: empty
/// totals, unit indices, the feed and risk parameters of `params`; other fields, the stored
/// bump among them, untouched.
pub open spec fn initialized_market(m: Market, params: MarketInitParams, mint_key: [u8; 32], vault_key: [u8; 32], now: u64) -> Market {
    Market {
        pyth_feed_id: params.pyth_feed_id,
        mint: mint_key,
        vault: vault_key,
        total_cash: 0,
        total_borrows: 0,
        total_reserves: 0,
        borrow_index: INDEX_MANTISSA,
        supply_index: INDEX_MANTISSA,
        last_updated_ts: now,
        ltv_bps: params.ltv_bps,
        liquidation_threshold_bps: params.liquidation_threshold_bps,
        liquidation_bonus_bps: params.liquidation_bonus_bps,
        ..m
    }
}

/// Initializes a market at time `now_ts`.
pub fn initialize_market_at(market: &mut Market, params: &MarketInitParams, mint_key: &[u8; 32], vault_key: &[u8; 32], now_ts: u64)
    ensures
        *final(market) == initialized_market(*old(market), *params, *mint_key, *vault_key, now_ts),
{
    market.pyth_feed_id = params.pyth_feed_id;
    market.mint = *mint_key;
    market.vault = *vault_key;
    market.total_cash = 0;
    market.total_borrows = 0;
    market.total_reserves = 0;
    market.borrow_index = INDEX_MANTISSA;
    market.supply_index = INDEX_MANTISSA;
    market.last_updated_ts = now_ts;
    market.ltv_bps = params.ltv_bps;
    market.liquidation_threshold_bps = params.liquidation_threshold_bps;
    market.liquidation_bonus_bps = params.liquidation_bonus_bps;
}

/// The initialize-market instruction, signed by `signer`: `initialize_market_at` at the
/// cluster clock.  Only the admin may create a market, and only for a whitelisted mint
/// (`mint_whitelisted` is the mint's whitelist entry).
pub fn handler_initialize_market(market: &mut Market, config: &Config, signer: &[u8; 32], mint_whitelisted: &MintWhitelisted, params: &MarketInitParams, mint_key: &[u8; 32], vault_key: &[u8; 32]) -> (r: Result<(), AurumError>)
    ensures
        !is_admin(*config, *signer) ==> r == Err::<(), AurumError>(AurumError::Unauthorized),
        is_admin(*config, *signer) && !mint_whitelisted.is_whitelisted ==> r == Err::<(), AurumError>(AurumError::MintNotWhitelisted),
        r is Ok ==> *final(market) == initialized_market(*old(market), *params, *mint_key, *vault_key, final(market).last_updated_ts),
        r matches Err(e) ==> *final(market) == *old(market) && (e == AurumError::Unauthorized
            || e == AurumError::MintNotWhitelisted
            || (is_admin(*config, *signer) && mint_whitelisted.is_whitelisted && e == AurumError::ClockUnavailable)),
{
    if !keys_equal(&config.admin, signer) {
        return Err(AurumError::Unauthorized);
    }
    if !mint_whitelisted.is_whitelisted {
        return Err(AurumError::MintNotWhitelisted);
    }
    let now_ts: u64 = now_or_unavailable()?;
    initialize_market_at(market, params, mint_key, vault_key, now_ts);
    Ok(())
}

} // verus!
