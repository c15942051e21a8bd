//! The sell protocol: the gross currency output is quoted first, fees come
//! out of that gross output (not out of the input, unlike a buy), and the
//! seller can set a floor under the net proceeds.

use vstd::prelude::*;

use crate::errors::ErrorCode;
use crate::maths::{calculate_sol_out, fee_value, lemma_product_truncation, sol_out_value};
use crate::state::{AccountId, PlatformConfig, TokenBondingCurve, BPS_DENOMINATOR};

verus! {

/// The settlement plan of one sale: what the caller's ledger layer must move
/// once the curve's records are updated.
#[derive(Clone, Copy, Debug, PartialEq, Eq, Structural)]
pub struct SellOutcome {
    /// Gross currency the pool gives up; the next three sum to it.
    pub sol_out_gross: u64,
    /// Net currency the pool pays the seller.
    pub sol_out_net: u64,
    /// Currency the pool pays the platform fee wallet (skip if zero).
    pub platform_fee: u64,
    /// Currency the pool pays the creator (skip if zero).
    pub creator_fee: u64,
}

/// What a sale does: quote the gross currency for the asset paid in, check
/// the pool can cover it, split the fees out of the gross, hold the net
/// against the seller's floor, and move both virtual and real reserves
/// symmetrically.
pub open spec fn sell_result(
    c: TokenBondingCurve,
    platform_fee_bps: u16,
    creator_wallet: AccountId,
    token_amount: u64,
    min_sol_out: u64,
) -> Result<(TokenBondingCurve, SellOutcome), ErrorCode> {
    if creator_wallet != c.creator {
        Err(ErrorCode::InvalidCreatorWallet)
    } else if !c.spec_trading_live() {
        Err(ErrorCode::TradingNotLive)
    } else if token_amount == 0 {
        Err(ErrorCode::InvalidAmount)
    } else {
        let gross = sol_out_value(
            token_amount as int,
            c.virtual_sol_reserves as int,
            c.virtual_token_reserves as int,
        );
        if gross > c.real_sol_reserves {
            Err(ErrorCode::InsufficientSolReserves)
        } else if gross * platform_fee_bps > u64::MAX {
            Err(ErrorCode::MathOverflow)
        } else if gross * c.creator_fee_bps > u64::MAX {
            Err(ErrorCode::MathOverflow)
        } else {
            let pf = fee_value(gross, platform_fee_bps as int);
            let cf = fee_value(gross, c.creator_fee_bps as int);
            if pf + cf > u64::MAX {
                Err(ErrorCode::MathOverflow)
            } else if pf + cf > gross {
                Err(ErrorCode::MathUnderflow)
            } else {
                let net = gross - pf - cf;
                if net < min_sol_out {
                    Err(ErrorCode::SlippageExceeded)
                } else if c.virtual_token_reserves + token_amount > u64::MAX {
                    Err(ErrorCode::MathOverflow)
                } else if c.real_token_reserves + token_amount > u64::MAX {
                    Err(ErrorCode::MathOverflow)
                } else {
                    Ok(
                        (
                            TokenBondingCurve {
                                virtual_sol_reserves: (c.virtual_sol_reserves - gross) as u64,
                                virtual_token_reserves: (c.virtual_token_reserves
                                    + token_amount) as u64,
                                real_sol_reserves: (c.real_sol_reserves - gross) as u64,
                                real_token_reserves: (c.real_token_reserves + token_amount) as u64,
                                ..c
                            },
                            SellOutcome {
                                sol_out_gross: gross as u64,
                                sol_out_net: net as u64,
                                platform_fee: pf as u64,
                                creator_fee: cf as u64,
                            },
                        ),
                    )
                }
            }
        }
    }
}

/// Sell `token_amount` asset back to the pool for at least `min_sol_out`
/// net currency.
///
/// A sale never triggers the transition to open trading: the curve must
/// already be live.  On success the reserves are updated and the returned
/// plan tells the caller what to move; on failure the curve is untouched and
/// `sell_result` pins down exactly which error comes back.  The reserve
/// product never grows across the trade and falls short of its old value by
/// less than one unit of the grown asset side.
pub fn sell_tokens(
    curve: &mut TokenBondingCurve,
    config: &PlatformConfig,
    creator_wallet: AccountId,
    token_amount: u64,
    min_sol_out: u64,
) -> (r: Result<SellOutcome, ErrorCode>)
    requires
        old(curve).wf(),
        token_amount + old(curve).real_token_reserves <= old(curve).real_token_supply,
    ensures
        final(curve).wf(),
        final(curve).phase == old(curve).phase,
        match r {
            Ok(out) => {
                &&& sell_result(
                    *old(curve),
                    config.platform_fee_bps,
                    creator_wallet,
                    token_amount,
                    min_sol_out,
                ) == Ok::<(TokenBondingCurve, SellOutcome), ErrorCode>((*final(curve), out))
                &&& out.sol_out_gross <= old(curve).real_sol_reserves
                &&& out.sol_out_net + out.platform_fee + out.creator_fee == out.sol_out_gross
                &&& out.sol_out_net >= min_sol_out
            },
            Err(e) => {
                &&& *final(curve) == *old(curve)
                &&& sell_result(
                    *old(curve),
                    config.platform_fee_bps,
                    creator_wallet,
                    token_amount,
                    min_sol_out,
                ) == Err::<(TokenBondingCurve, SellOutcome), ErrorCode>(e)
            },
        },
        r is Ok ==> {
            let before = old(curve).virtual_sol_reserves * old(curve).virtual_token_reserves;
            let after = final(curve).virtual_sol_reserves * final(curve).virtual_token_reserves;
            &&& after <= before
            &&& after + final(curve).virtual_token_reserves > before
        },
{
    if creator_wallet != curve.creator {
        return Err(ErrorCode::InvalidCreatorWallet);
    }
    if !curve.trading_live() {
        return Err(ErrorCode::TradingNotLive);
    }
    if token_amount == 0 {
        return Err(ErrorCode::InvalidAmount);
    }

    let sol_out_gross: u64 = match calculate_sol_out(
        token_amount,
        curve.virtual_sol_reserves,
        curve.virtual_token_reserves,
    ) {
        Ok(v) => v,
        Err(e) => return Err(e),
    };
    if sol_out_gross > curve.real_sol_reserves {
        return Err(ErrorCode::InsufficientSolReserves);
    }

    let fee_bps: u64 = config.platform_fee_bps as u64;
    let creator_bps: u64 = curve.creator_fee_bps as u64;

    let platform_fee: u64 = match sol_out_gross.checked_mul(fee_bps) {
        Some(v) => v / BPS_DENOMINATOR,
        None => return Err(ErrorCode::MathOverflow),
    };
    let creator_fee: u64 = match sol_out_gross.checked_mul(creator_bps) {
        Some(v) => v / BPS_DENOMINATOR,
        None => return Err(ErrorCode::MathOverflow),
    };
    let total_fees: u64 = match platform_fee.checked_add(creator_fee) {
        Some(v) => v,
        None => return Err(ErrorCode::MathOverflow),
    };
    let sol_out_net: u64 = match sol_out_gross.checked_sub(total_fees) {
        Some(v) => v,
        None => return Err(ErrorCode::MathUnderflow),
    };

    if sol_out_net < min_sol_out {
        return Err(ErrorCode::SlippageExceeded);
    }

    let mut staged: TokenBondingCurve = *curve;

    staged.virtual_sol_reserves = match staged.virtual_sol_reserves.checked_sub(sol_out_gross) {
        Some(v) => v,
        None => return Err(ErrorCode::MathUnderflow),
    };
    staged.virtual_token_reserves = match staged.virtual_token_reserves.checked_add(token_amount) {
        Some(v) => v,
        None => return Err(ErrorCode::MathOverflow),
    };
    staged.real_sol_reserves = match staged.real_sol_reserves.checked_sub(sol_out_gross) {
        Some(v) => v,
        None => return Err(ErrorCode::MathUnderflow),
    };
    staged.real_token_reserves = match staged.real_token_reserves.checked_add(token_amount) {
        Some(v) => v,
        None => return Err(ErrorCode::MathOverflow),
    };

    proof {
        vstd::arithmetic::mul::lemma_mul_is_commutative(
            curve.virtual_sol_reserves as int,
            curve.virtual_token_reserves as int,
        );
        lemma_product_truncation(
            curve.virtual_sol_reserves as int,
            curve.virtual_token_reserves as int,
            token_amount as int,
        );
        vstd::arithmetic::mul::lemma_mul_is_commutative(
            staged.virtual_token_reserves as int,
            staged.virtual_sol_reserves as int,
        );
    }

    *curve = staged;
    Ok(
        SellOutcome {
            sol_out_gross,
            sol_out_net,
            platform_fee,
            creator_fee,
        },
    )
}

} // verus!
