//! The one-time administrator action that configures the platform.

use vstd::prelude::*;

use crate::errors::ErrorCode;
use crate::state::{AccountId, PlatformConfig, MAX_FEE_BPS};

verus! {

/// Create the platform configuration.
///
/// Rejects a platform fee rate above the 1000 basis-point ceiling; otherwise
/// the configuration starts with no assets created.
pub fn initialize_platform(
    authority: AccountId,
    platform_fee_wallet: AccountId,
    platform_fee_bps: u16,
    platform_token_creation_fee: u64,
) -> (r: Result<PlatformConfig, ErrorCode>)
    ensures
        r == if platform_fee_bps > MAX_FEE_BPS {
            Err::<PlatformConfig, ErrorCode>(ErrorCode::FeeTooHigh)
        } else {
            Ok::<PlatformConfig, ErrorCode>(
                PlatformConfig {
                    platform_authority: authority,
                    platform_fee_wallet,
                    platform_fee_bps,
                    platform_token_creation_fee,
                    total_tokens_created: 0,
                },
            )
        },
        r matches Ok(c) ==> c.wf(),
{
    if platform_fee_bps > MAX_FEE_BPS {
        return Err(ErrorCode::FeeTooHigh);
    }
    Ok(
        PlatformConfig {
            platform_authority: authority,
            platform_fee_wallet,
            platform_fee_bps,
            platform_token_creation_fee,
            total_tokens_created: 0,
        },
    )
}

} // verus!
