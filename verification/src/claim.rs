//! The claim protocol: once trading is live, each subscriber draws their
//! pro-rata share of the asset that was set aside at the phase transition.

use vstd::prelude::*;

use crate::errors::ErrorCode;
use crate::state::{AccountId, TokenBondingCurve, UserAlphaDeposit};

verus! {

/// A pro-rata share never exceeds the whole it is carved from.
pub proof fn lemma_share_le_total(d: int, total_token: int, total_sol: int)
    requires
        0 <= d <= total_sol,
        0 < total_sol,
        0 <= total_token,
    ensures
        0 <= (d * total_token) / total_sol <= total_token,
{
    vstd::arithmetic::mul::lemma_mul_nonnegative(d, total_token);
    vstd::arithmetic::div_mod::lemma_div_pos_is_pos(d * total_token, total_sol);
    vstd::arithmetic::mul::lemma_mul_inequality(d, total_sol, total_token);
    vstd::arithmetic::div_mod::lemma_div_is_ordered(
        d * total_token,
        total_sol * total_token,
        total_sol,
    );
    vstd::arithmetic::div_mod::lemma_div_multiples_vanish(total_token, total_sol);
}

/// What a claim does: after ownership, asset, phase and emptiness checks,
/// the participant is owed `deposit * total_alpha_token / total_alpha_sol`
/// (integer division, truncating in the pool's favor), the record is marked
/// claimed, and the curve's reserves are left alone — the pool-side
/// adjustment already happened once, at the phase transition.
pub open spec fn claim_result(
    c: TokenBondingCurve,
    d: UserAlphaDeposit,
    claimer: AccountId,
    mint: AccountId,
) -> Result<(UserAlphaDeposit, u64), ErrorCode> {
    if d.user != claimer {
        Err(ErrorCode::InvalidClaimer)
    } else if d.mint != mint {
        Err(ErrorCode::InvalidMint)
    } else if d.claimed {
        Err(ErrorCode::AlreadyClaimed)
    } else if !c.spec_trading_live() {
        Err(ErrorCode::TradingNotLive)
    } else if d.sol_amount == 0 {
        Err(ErrorCode::NoDepositFound)
    } else if c.total_alpha_sol == 0 {
        Err(ErrorCode::ZeroAlphaDeposits)
    } else if c.total_alpha_token == 0 {
        Err(ErrorCode::NoTokensOwed)
    } else {
        let owed = (d.sol_amount * c.total_alpha_token) / (c.total_alpha_sol as int);
        if owed == 0 {
            Err(ErrorCode::NoTokensOwed)
        } else if owed > c.real_token_reserves {
            Err(ErrorCode::InsufficientTokenReserves)
        } else {
            Ok((UserAlphaDeposit { tokens_owed: owed as u64, claimed: true, ..d }, owed as u64))
        }
    }
}

/// Pay out the claimer's share of the subscription allocation.
///
/// The curve is read, never written: a claim only disburses what the phase
/// transition pre-allocated.  The participant's recorded deposit is one of
/// the summands of the curve's subscribed total, so it never exceeds it;
/// the deposit operation maintains this and the precondition records it.
/// On success the returned amount — exactly
/// `deposit * total_alpha_token / total_alpha_sol` — must be moved from the
/// pool's custody to the claimer, and the record is irreversibly marked
/// claimed; a second claim on the same record fails with `AlreadyClaimed`
/// and moves nothing.  On failure the record is untouched and `claim_result`
/// pins down exactly which error comes back.
pub fn claim_alpha(
    curve: &TokenBondingCurve,
    deposit: &mut UserAlphaDeposit,
    claimer: AccountId,
    mint: AccountId,
) -> (r: Result<u64, ErrorCode>)
    requires
        old(deposit).sol_amount <= curve.total_alpha_sol,
    ensures
        match r {
            Ok(amount) => {
                &&& claim_result(*curve, *old(deposit), claimer, mint) == Ok::<
                    (UserAlphaDeposit, u64),
                    ErrorCode,
                >((*final(deposit), amount))
                &&& !old(deposit).claimed
                &&& final(deposit).claimed
                &&& amount == (old(deposit).sol_amount * curve.total_alpha_token)
                    / (curve.total_alpha_sol as int)
                &&& amount <= curve.total_alpha_token
                &&& amount <= curve.real_token_reserves
            },
            Err(e) => {
                &&& *final(deposit) == *old(deposit)
                &&& claim_result(*curve, *old(deposit), claimer, mint) == Err::<
                    (UserAlphaDeposit, u64),
                    ErrorCode,
                >(e)
            },
        },
        old(deposit).user == claimer && old(deposit).mint == mint && old(deposit).claimed ==> r
            == Err::<u64, ErrorCode>(ErrorCode::AlreadyClaimed),
{
    if deposit.user != claimer {
        return Err(ErrorCode::InvalidClaimer);
    }
    if deposit.mint != mint {
        return Err(ErrorCode::InvalidMint);
    }
    if deposit.claimed {
        return Err(ErrorCode::AlreadyClaimed);
    }
    if !curve.trading_live() {
        return Err(ErrorCode::TradingNotLive);
    }
    if deposit.sol_amount == 0 {
        return Err(ErrorCode::NoDepositFound);
    }
    if curve.total_alpha_sol == 0 {
        return Err(ErrorCode::ZeroAlphaDeposits);
    }
    if curve.total_alpha_token == 0 {
        return Err(ErrorCode::NoTokensOwed);
    }

    proof {
        assert((deposit.sol_amount as int) * (curve.total_alpha_token as int) <= u64::MAX as int
            * u64::MAX as int) by (nonlinear_arith)
            requires
                deposit.sol_amount <= u64::MAX,
                curve.total_alpha_token <= u64::MAX,
        ;
        lemma_share_le_total(
            deposit.sol_amount as int,
            curve.total_alpha_token as int,
            curve.total_alpha_sol as int,
        );
    }
    let numerator: u128 = (deposit.sol_amount as u128) * (curve.total_alpha_token as u128);
    let tokens_to_claim: u128 = numerator / (curve.total_alpha_sol as u128);
    let amount: u64 = tokens_to_claim as u64;

    if amount == 0 {
        return Err(ErrorCode::NoTokensOwed);
    }
    if amount > curve.real_token_reserves {
        return Err(ErrorCode::InsufficientTokenReserves);
    }

    deposit.claimed = true;
    deposit.tokens_owed = amount;
    Ok(amount)
}

} // verus!
