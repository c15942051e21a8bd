//! The buy protocol: fees come out of the gross currency input, the net goes
//! through the pricing formula, and the curve goes live lazily on the first
//! buy at or after the subscription deadline.

use vstd::prelude::*;

use crate::errors::ErrorCode;
use crate::maths::{calculate_tokens_out, fee_value, lemma_product_truncation, tokens_out_value};
use crate::state::{AccountId, Phase, PlatformConfig, TokenBondingCurve, BPS_DENOMINATOR};

verus! {

/// The settlement plan of one buy: what the caller's ledger layer must move
/// once the curve's records are updated.
#[derive(Clone, Copy, Debug, PartialEq, Eq, Structural)]
pub struct BuyOutcome {
    /// Net currency the buyer pays into the pool's custody.
    pub sol_for_tokens: u64,
    /// Currency the buyer pays to the platform fee wallet (skip if zero).
    pub platform_fee: u64,
    /// Currency the buyer pays to the creator (skip if zero).
    pub creator_fee: u64,
    /// Asset the pool pays out to the buyer.
    pub tokens_out: u64,
}

/// The subscription-phase finalization: quote the asset owed to subscribers
/// for the whole subscribed sum, set it aside, fold the subscribed currency
/// into both currency reserves, and go live.  With nothing subscribed the
/// reserves are untouched.
pub open spec fn finalized_curve(c: TokenBondingCurve) -> Result<TokenBondingCurve, ErrorCode> {
    if c.total_alpha_sol == 0 {
        Ok(TokenBondingCurve { phase: Phase::Live, ..c })
    } else {
        let t = tokens_out_value(
            c.total_alpha_sol as int,
            c.virtual_sol_reserves as int,
            c.virtual_token_reserves as int,
        );
        if c.virtual_sol_reserves + c.total_alpha_sol > u64::MAX {
            Err(ErrorCode::MathOverflow)
        } else if c.real_sol_reserves + c.total_alpha_sol > u64::MAX {
            Err(ErrorCode::MathOverflow)
        } else if t > c.real_token_reserves {
            Err(ErrorCode::MathUnderflow)
        } else {
            Ok(
                TokenBondingCurve {
                    virtual_sol_reserves: (c.virtual_sol_reserves + c.total_alpha_sol) as u64,
                    virtual_token_reserves: (c.virtual_token_reserves - t) as u64,
                    real_sol_reserves: (c.real_sol_reserves + c.total_alpha_sol) as u64,
                    real_token_reserves: (c.real_token_reserves - t) as u64,
                    total_alpha_token: t as u64,
                    phase: Phase::Live,
                    ..c
                },
            )
        }
    }
}

/// The pricing-and-settlement step of a buy on a live curve: split the fees
/// out of the gross input, quote the asset output for the net, and move both
/// virtual and real reserves symmetrically.
pub open spec fn trade_result(c: TokenBondingCurve, platform_fee_bps: u16, lamports_sent: u64) -> Result<
    (TokenBondingCurve, BuyOutcome),
    ErrorCode,
> {
    let gross = lamports_sent as int;
    if gross * platform_fee_bps > u64::MAX {
        Err(ErrorCode::MathOverflow)
    } else if gross * c.creator_fee_bps > u64::MAX {
        Err(ErrorCode::MathOverflow)
    } else {
        let pf = fee_value(gross, platform_fee_bps as int);
        let cf = fee_value(gross, c.creator_fee_bps as int);
        if pf + cf > u64::MAX {
            Err(ErrorCode::MathOverflow)
        } else if pf + cf > gross {
            Err(ErrorCode::MathUnderflow)
        } else {
            let net = gross - pf - cf;
            if c.virtual_sol_reserves + net == 0 {
                Err(ErrorCode::MathOverflow)
            } else {
                let out = tokens_out_value(
                    net,
                    c.virtual_sol_reserves as int,
                    c.virtual_token_reserves as int,
                );
                if out == 0 {
                    Err(ErrorCode::InvalidPriceCalculation)
                } else if out > c.real_token_reserves {
                    Err(ErrorCode::InsufficientTokenReserves)
                } else if c.virtual_sol_reserves + net > u64::MAX {
                    Err(ErrorCode::MathOverflow)
                } else if c.real_sol_reserves + net > u64::MAX {
                    Err(ErrorCode::MathOverflow)
                } else {
                    Ok(
                        (
                            TokenBondingCurve {
                                virtual_sol_reserves: (c.virtual_sol_reserves + net) as u64,
                                virtual_token_reserves: (c.virtual_token_reserves - out) as u64,
                                real_sol_reserves: (c.real_sol_reserves + net) as u64,
                                real_token_reserves: (c.real_token_reserves - out) as u64,
                                ..c
                            },
                            BuyOutcome {
                                sol_for_tokens: net as u64,
                                platform_fee: pf as u64,
                                creator_fee: cf as u64,
                                tokens_out: out as u64,
                            },
                        ),
                    )
                }
            }
        }
    }
}

/// What a whole buy does: wallet and amount validation, the lazy transition
/// to open trading, then the trade itself on the (now) live curve.
pub open spec fn buy_result(
    c: TokenBondingCurve,
    platform_fee_bps: u16,
    creator_fee_wallet: AccountId,
    lamports_sent: u64,
    current_time: i64,
) -> Result<(TokenBondingCurve, BuyOutcome), ErrorCode> {
    if creator_fee_wallet != c.creator {
        Err(ErrorCode::InvalidCreatorWallet)
    } else if lamports_sent == 0 {
        Err(ErrorCode::InvalidAmount)
    } else if !c.spec_trading_live() && current_time < c.alpha_phase_end_time {
        Err(ErrorCode::AlphaPhaseNotEnded)
    } else {
        let staged = if c.spec_trading_live() {
            Ok(c)
        } else {
            finalized_curve(c)
        };
        match staged {
            Err(e) => Err(e),
            Ok(c1) => trade_result(c1, platform_fee_bps, lamports_sent),
        }
    }
}

/// Buy asset with `lamports_sent` gross currency.
///
/// On success the curve is live, its reserves are updated, and the returned
/// plan tells the caller what to move; on failure the curve is untouched and
/// `buy_result` pins down exactly which error comes back.  The reserve
/// product never grows across the trade and falls short of its old value by
/// less than one unit of the grown currency side.
pub fn buy_tokens(
    curve: &mut TokenBondingCurve,
    config: &PlatformConfig,
    creator_fee_wallet: AccountId,
    lamports_sent: u64,
    current_time: i64,
) -> (r: Result<BuyOutcome, ErrorCode>)
    requires
        old(curve).wf(),
    ensures
        final(curve).wf(),
        old(curve).phase.le(final(curve).phase),
        match r {
            Ok(out) => {
                &&& buy_result(
                    *old(curve),
                    config.platform_fee_bps,
                    creator_fee_wallet,
                    lamports_sent,
                    current_time,
                ) == Ok::<(TokenBondingCurve, BuyOutcome), ErrorCode>((*final(curve), out))
                &&& final(curve).spec_trading_live()
                &&& out.tokens_out <= old(curve).real_token_reserves
            },
            Err(e) => {
                &&& *final(curve) == *old(curve)
                &&& buy_result(
                    *old(curve),
                    config.platform_fee_bps,
                    creator_fee_wallet,
                    lamports_sent,
                    current_time,
                ) == Err::<(TokenBondingCurve, BuyOutcome), ErrorCode>(e)
            },
        },
        old(curve).spec_trading_live() && r is Ok ==> {
            let before = old(curve).virtual_sol_reserves * old(curve).virtual_token_reserves;
            let after = final(curve).virtual_sol_reserves * final(curve).virtual_token_reserves;
            &&& after <= before
            &&& after + final(curve).virtual_sol_reserves > before
        },
{
    if creator_fee_wallet != curve.creator {
        return Err(ErrorCode::InvalidCreatorWallet);
    }
    if lamports_sent == 0 {
        return Err(ErrorCode::InvalidAmount);
    }

    let mut staged: TokenBondingCurve = *curve;

    if !staged.trading_live() {
        if current_time < staged.alpha_phase_end_time {
            return Err(ErrorCode::AlphaPhaseNotEnded);
        }
        let total_raised = staged.total_alpha_sol;
        if total_raised > 0 {
            let tokens_for_alpha = match calculate_tokens_out(
                total_raised,
                staged.virtual_sol_reserves,
                staged.virtual_token_reserves,
            ) {
                Ok(v) => v,
                Err(e) => return Err(e),
            };
            staged.total_alpha_token = tokens_for_alpha;
            staged.virtual_sol_reserves = match staged.virtual_sol_reserves.checked_add(
                total_raised,
            ) {
                Some(v) => v,
                None => return Err(ErrorCode::MathOverflow),
            };
            staged.virtual_token_reserves = match staged.virtual_token_reserves.checked_sub(
                tokens_for_alpha,
            ) {
                Some(v) => v,
                None => return Err(ErrorCode::MathUnderflow),
            };
            staged.real_sol_reserves = match staged.real_sol_reserves.checked_add(total_raised) {
                Some(v) => v,
                None => return Err(ErrorCode::MathOverflow),
            };
            staged.real_token_reserves = match staged.real_token_reserves.checked_sub(
                tokens_for_alpha,
            ) {
                Some(v) => v,
                None => return Err(ErrorCode::MathUnderflow),
            };
        }
        staged.phase = Phase::Live;
    }

    let fee_bps: u64 = config.platform_fee_bps as u64;
    let creator_bps: u64 = staged.creator_fee_bps as u64;

    let platform_fee: u64 = match lamports_sent.checked_mul(fee_bps) {
        Some(v) => v / BPS_DENOMINATOR,
        None => return Err(ErrorCode::MathOverflow),
    };
    let creator_fee: u64 = match lamports_sent.checked_mul(creator_bps) {
        Some(v) => v / BPS_DENOMINATOR,
        None => return Err(ErrorCode::MathOverflow),
    };
    let total_fees: u64 = match platform_fee.checked_add(creator_fee) {
        Some(v) => v,
        None => return Err(ErrorCode::MathOverflow),
    };
    let sol_for_tokens: u64 = match lamports_sent.checked_sub(total_fees) {
        Some(v) => v,
        None => return Err(ErrorCode::MathUnderflow),
    };

    let tokens_out: u64 = match calculate_tokens_out(
        sol_for_tokens,
        staged.virtual_sol_reserves,
        staged.virtual_token_reserves,
    ) {
        Ok(v) => v,
        Err(e) => return Err(e),
    };
    if tokens_out == 0 {
        return Err(ErrorCode::InvalidPriceCalculation);
    }
    if tokens_out > staged.real_token_reserves {
        return Err(ErrorCode::InsufficientTokenReserves);
    }

    let ghost pre_trade = staged;

    staged.virtual_sol_reserves = match staged.virtual_sol_reserves.checked_add(sol_for_tokens) {
        Some(v) => v,
        None => return Err(ErrorCode::MathOverflow),
    };
    staged.virtual_token_reserves = match staged.virtual_token_reserves.checked_sub(tokens_out) {
        Some(v) => v,
        None => return Err(ErrorCode::MathUnderflow),
    };
    staged.real_sol_reserves = match staged.real_sol_reserves.checked_add(sol_for_tokens) {
        Some(v) => v,
        None => return Err(ErrorCode::MathOverflow),
    };
    staged.real_token_reserves = match staged.real_token_reserves.checked_sub(tokens_out) {
        Some(v) => v,
        None => return Err(ErrorCode::MathUnderflow),
    };

    proof {
        lemma_product_truncation(
            pre_trade.virtual_token_reserves as int,
            pre_trade.virtual_sol_reserves as int,
            sol_for_tokens as int,
        );
    }

    *curve = staged;
    Ok(
        BuyOutcome {
            sol_for_tokens,
            platform_fee,
            creator_fee,
            tokens_out,
        },
    )
}

} // verus!
