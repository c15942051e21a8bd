//! Launching an asset: validate its descriptive metadata, seed a fresh
//! bonding curve in its subscription phase, and count the creation.

use vstd::prelude::*;
use vstd::string::StringSliceAdditionalSpecFns;

use crate::errors::ErrorCode;
use crate::state::{AccountId, Phase, PlatformConfig, TokenBondingCurve};

verus! {

/// Virtual currency the pricing formula starts from, seeding the initial
/// price away from a zero denominator.
pub const INITIAL_VIRTUAL_SOL_RESERVES: u64 = 30_000_000_000;

/// Virtual asset the pricing formula starts from.
pub const INITIAL_VIRTUAL_TOKEN_RESERVES: u64 = 1_000_000_000_000_000;

/// Fixed total minted supply of every asset, all of it held by the pool's
/// custody at launch.
pub const TOTAL_SUPPLY: u64 = 1_000_000_000_000_000;

/// Creator fee rate fixed at creation: 1%.
pub const CREATOR_FEE_BPS: u16 = 100;

/// Byte ceiling on an asset name.
pub const MAX_NAME_LEN: usize = 32;

/// Byte ceiling on an asset symbol.
pub const MAX_SYMBOL_LEN: usize = 10;

/// Byte ceiling on an asset metadata locator.
pub const MAX_URI_LEN: usize = 200;

/// The byte length of a string slice, as `str::len` reports it.
pub open spec fn byte_len(s: &str) -> usize {
    s.spec_bytes().len() as usize
}

/// What launching an asset does: hold the metadata to its byte ceilings,
/// demand a positive subscription window, stamp the deadline, seed the curve,
/// and count the creation on the configuration.
pub open spec fn create_result(
    cfg: PlatformConfig,
    creator: AccountId,
    token_mint: AccountId,
    name: &str,
    symbol: &str,
    uri: &str,
    alpha_duration_seconds: i64,
    current_time: i64,
) -> Result<(PlatformConfig, TokenBondingCurve), ErrorCode> {
    if byte_len(name) > MAX_NAME_LEN {
        Err(ErrorCode::NameTooLong)
    } else if byte_len(symbol) > MAX_SYMBOL_LEN {
        Err(ErrorCode::SymbolTooLong)
    } else if byte_len(uri) > MAX_URI_LEN {
        Err(ErrorCode::UriTooLong)
    } else if alpha_duration_seconds <= 0 {
        Err(ErrorCode::InvalidAmount)
    } else if current_time + alpha_duration_seconds > i64::MAX {
        Err(ErrorCode::Overflow)
    } else if cfg.total_tokens_created + 1 > u64::MAX {
        Err(ErrorCode::MathOverflow)
    } else {
        Ok(
            (
                PlatformConfig { total_tokens_created: (cfg.total_tokens_created + 1) as u64, ..cfg },
                TokenBondingCurve {
                    token_mint,
                    creator,
                    virtual_sol_reserves: INITIAL_VIRTUAL_SOL_RESERVES,
                    virtual_token_reserves: INITIAL_VIRTUAL_TOKEN_RESERVES,
                    real_sol_reserves: 0,
                    real_token_reserves: TOTAL_SUPPLY,
                    alpha_phase_end_time: (current_time + alpha_duration_seconds) as i64,
                    total_alpha_sol: 0,
                    total_alpha_token: 0,
                    real_token_supply: TOTAL_SUPPLY,
                    created_at: current_time,
                    creator_fee_bps: CREATOR_FEE_BPS,
                    phase: Phase::Subscription,
                },
            ),
        )
    }
}

/// Launch an asset: on success the returned curve is in its subscription
/// phase with the whole supply in the pool's custody, and the caller must
/// mint that supply to the pool and register the (already validated)
/// metadata; on failure the configuration is untouched and `create_result`
/// pins down exactly which error comes back.
pub fn create_token(
    config: &mut PlatformConfig,
    creator: AccountId,
    token_mint: AccountId,
    name: &str,
    symbol: &str,
    uri: &str,
    alpha_duration_seconds: i64,
    current_time: i64,
) -> (r: Result<TokenBondingCurve, ErrorCode>)
    requires
        old(config).wf(),
    ensures
        final(config).wf(),
        match r {
            Ok(curve) => {
                &&& create_result(
                    *old(config),
                    creator,
                    token_mint,
                    name,
                    symbol,
                    uri,
                    alpha_duration_seconds,
                    current_time,
                ) == Ok::<(PlatformConfig, TokenBondingCurve), ErrorCode>((*final(config), curve))
                &&& curve.wf()
                &&& !curve.spec_trading_live()
            },
            Err(e) => {
                &&& *final(config) == *old(config)
                &&& create_result(
                    *old(config),
                    creator,
                    token_mint,
                    name,
                    symbol,
                    uri,
                    alpha_duration_seconds,
                    current_time,
                ) == Err::<(PlatformConfig, TokenBondingCurve), ErrorCode>(e)
            },
        },
{
    if name.len() > MAX_NAME_LEN {
        return Err(ErrorCode::NameTooLong);
    }
    if symbol.len() > MAX_SYMBOL_LEN {
        return Err(ErrorCode::SymbolTooLong);
    }
    if uri.len() > MAX_URI_LEN {
        return Err(ErrorCode::UriTooLong);
    }
    if alpha_duration_seconds <= 0 {
        return Err(ErrorCode::InvalidAmount);
    }
    let alpha_phase_end_time: i64 = match current_time.checked_add(alpha_duration_seconds) {
        Some(v) => v,
        None => return Err(ErrorCode::Overflow),
    };
    let new_count: u64 = match config.total_tokens_created.checked_add(1) {
        Some(v) => v,
        None => return Err(ErrorCode::MathOverflow),
    };
    config.total_tokens_created = new_count;
    Ok(
        TokenBondingCurve {
            token_mint,
            creator,
            virtual_sol_reserves: INITIAL_VIRTUAL_SOL_RESERVES,
            virtual_token_reserves: INITIAL_VIRTUAL_TOKEN_RESERVES,
            real_sol_reserves: 0,
            real_token_reserves: TOTAL_SUPPLY,
            alpha_phase_end_time,
            total_alpha_sol: 0,
            total_alpha_token: 0,
            real_token_supply: TOTAL_SUPPLY,
            created_at: current_time,
            creator_fee_bps: CREATOR_FEE_BPS,
            phase: Phase::Subscription,
        },
    )
}

} // verus!
