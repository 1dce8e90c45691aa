//! Trusted boundary to the Solana runtime crates.
use anchor_lang::prelude::SolanaSysvar;
use anchor_spl::token_2022::spl_token_2022::extension::{BaseStateWithExtensions, StateWithExtensions};
use vstd::prelude::*;
use anchor_lang::prelude::{Clock, Pubkey};
use pyth_solana_receiver_sdk::price_update::{PriceFeedMessage, PriceUpdateV2, VerificationLevel};
use crate::oracle::{PriceUpdate, PriceVerification, PythPrice};

verus! {

#[verifier::external_type_specification]
#[verifier::external_body]
pub struct ExProgramError(anchor_lang::solana_program::program_error::ProgramError);

/// Reads the cluster clock sysvar (`Clock::get` from anchor_lang) and returns its
/// `unix_timestamp`.  The value depends on the runtime, so nothing is promised of it.
#[verifier::external_body]
pub(crate) fn clock_unix_timestamp() -> (r: Result<i64, anchor_lang::solana_program::program_error::ProgramError>) {
    anchor_lang::prelude::Clock::get().map(|c| c.unix_timestamp)
}

/// Bump seed that `Pubkey::try_find_program_address` finds for the seeds and program id.
pub uninterp spec fn program_address_bump(seeds: Seq<Seq<u8>>, program_id: Seq<u8>) -> Option<u8>;

/// Calls `Pubkey::try_find_program_address` (anchor_lang / solana-address) and keeps the
/// bump seed.  The search is a deterministic function of the seeds and the program id,
/// named `program_address_bump`; `None` when no bump gives an off-curve address.
#[verifier::external_body]
pub(crate) fn find_bump(seeds: &Vec<Vec<u8>>, program_id: &[u8; 32]) -> (r: Option<u8>)
    ensures
        r == program_address_bump(seeds.deep_view(), program_id@),
{
    let refs: Vec<&[u8]> = seeds.iter().map(|s| s.as_slice()).collect();
    anchor_lang::prelude::Pubkey::try_find_program_address(&refs, &anchor_lang::prelude::Pubkey::new_from_array(*program_id))
        .map(|(_, bump)| bump)
}

/// Address of the SPL Token program (`anchor_spl::token::ID`).
#[verifier::external_body]
pub(crate) fn token_program_id() -> (r: [u8; 32])
    ensures
        r@ == seq![6u8, 221, 246, 225, 215, 101, 161, 147, 217, 203, 225, 70, 206, 235, 121, 172,
            28, 180, 133, 237, 95, 91, 55, 145, 58, 140, 245, 133, 126, 255, 0, 169],
{
    anchor_spl::token::ID.to_bytes()
}

/// Extension type codes (`ExtensionType as u16`) of a Token-2022 mint account's data, or
/// `None` when the data does not decode as an initialized mint with well-formed extensions.
pub uninterp spec fn mint_extension_types(data: Seq<u8>) -> Option<Seq<u16>>;

/// Decodes mint account data with `StateWithExtensions::<Mint>::unpack` (spl-token-2022,
/// through anchor_spl) and lists its extensions with `get_extension_types`, each as its
/// `u16` code.  The decoded state borrows `data` and is consumed here, so both calls stand
/// in this one item; the outcome is a function of the bytes alone.
#[verifier::external_body]
pub(crate) fn mint_extensions(data: &[u8]) -> (r: Result<Vec<u16>, anchor_lang::solana_program::program_error::ProgramError>)
    ensures
        r matches Ok(v) ==> mint_extension_types(data@) == Some(v@),
        r is Err ==> mint_extension_types(data@) is None,
{
    let state = StateWithExtensions::<anchor_spl::token_2022::spl_token_2022::state::Mint>::unpack(data)?;
    state.get_extension_types().map(|v| v.into_iter().map(u16::from).collect())
}

#[verifier::external_type_specification]
#[verifier::external_body]
pub struct ExGetPriceError(pyth_solana_receiver_sdk::error::GetPriceError);

/// Calls `PriceUpdateV2::get_price_no_older_than` (pyth-solana-receiver-sdk) on the account
/// holding `u`, at a clock reading `now`.  As its source shows, it succeeds exactly when the
/// update is fully verified, is for `feed_id` and `publish_time` saturating-plus
/// `maximum_age` reaches `now`, and then returns the stored price; `maximum_age` must fit
/// in `i64` (it is converted with `unwrap`).
#[verifier::external_body]
pub(crate) fn pyth_price_no_older_than(u: &PriceUpdate, now: i64, maximum_age: u64, feed_id: &[u8; 32]) -> (r: Result<PythPrice, pyth_solana_receiver_sdk::error::GetPriceError>)
    requires
        maximum_age <= i64::MAX,
    ensures
        r is Ok <==> (u.verification_level is Full && u.feed_id@ == feed_id@ && u.publish_time + maximum_age >= now),
        r matches Ok(p) ==> p.price == u.price && p.conf == u.conf && p.exponent == u.exponent && p.publish_time == u.publish_time,
{
    let level = match u.verification_level {
        PriceVerification::Partial { num_signatures } => VerificationLevel::Partial { num_signatures },
        PriceVerification::Full => VerificationLevel::Full,
    };
    let price_message = PriceFeedMessage { feed_id: u.feed_id, price: u.price, conf: u.conf, exponent: u.exponent,
        publish_time: u.publish_time, prev_publish_time: 0, ema_price: 0, ema_conf: 0 };
    let account = PriceUpdateV2 { write_authority: Pubkey::default(), verification_level: level, price_message, posted_slot: 0 };
    let clock = Clock { unix_timestamp: now, ..Clock::default() };
    account.get_price_no_older_than(&clock, maximum_age, feed_id)
        .map(|p| PythPrice { price: p.price, conf: p.conf, exponent: p.exponent, publish_time: p.publish_time })
}

} // verus!
