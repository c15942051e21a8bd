//! The subscription deposit protocol: while the window is open, a
//! participant locks in currency for a pro-rata allocation at launch.

use vstd::prelude::*;

use crate::errors::ErrorCode;
use crate::state::{AccountId, TokenBondingCurve, UserAlphaDeposit};

verus! {

/// What a deposit does: while the deadline has not passed and trading has
/// not begun, a positive amount accumulates into the participant's record
/// and into the curve's running subscribed total, and the record is stamped
/// with its owner and asset.
pub open spec fn deposit_result(
    c: TokenBondingCurve,
    d: UserAlphaDeposit,
    user: AccountId,
    sol_amount: u64,
    current_time: i64,
) -> Result<(TokenBondingCurve, UserAlphaDeposit), ErrorCode> {
    if current_time >= c.alpha_phase_end_time {
        Err(ErrorCode::AlphaPhaseEnded)
    } else if c.spec_trading_live() {
        Err(ErrorCode::TradingAlreadyLive)
    } else if sol_amount == 0 {
        Err(ErrorCode::InsufficientFunds)
    } else if d.sol_amount + sol_amount > u64::MAX {
        Err(ErrorCode::MathOverflow)
    } else if c.total_alpha_sol + sol_amount > u64::MAX {
        Err(ErrorCode::MathOverflow)
    } else {
        Ok(
            (
                TokenBondingCurve { total_alpha_sol: (c.total_alpha_sol + sol_amount) as u64, ..c },
                UserAlphaDeposit {
                    user,
                    mint: c.token_mint,
                    sol_amount: (d.sol_amount + sol_amount) as u64,
                    claimed: false,
                    ..d
                },
            ),
        )
    }
}

/// Lock `sol_amount` currency into the subscription window.
///
/// The caller hands in the participant's record for this asset, fresh and
/// zeroed on their first deposit.  On success the deposited amount has been
/// added to the record and to the curve's subscribed total, and the caller's
/// ledger layer must move the currency into the pool's custody; on failure
/// both records are untouched and `deposit_result` pins down exactly which
/// error comes back.
pub fn deposit_alpha(
    curve: &mut TokenBondingCurve,
    deposit: &mut UserAlphaDeposit,
    user: AccountId,
    sol_amount: u64,
    current_time: i64,
) -> (r: Result<(), ErrorCode>)
    requires
        old(curve).wf(),
    ensures
        final(curve).wf(),
        final(curve).phase == old(curve).phase,
        match r {
            Ok(_) => {
                &&& deposit_result(*old(curve), *old(deposit), user, sol_amount, current_time)
                    == Ok::<(TokenBondingCurve, UserAlphaDeposit), ErrorCode>(
                    (*final(curve), *final(deposit)),
                )
                &&& old(deposit).sol_amount <= old(curve).total_alpha_sol
                    ==> final(deposit).sol_amount <= final(curve).total_alpha_sol
            },
            Err(e) => {
                &&& *final(curve) == *old(curve)
                &&& *final(deposit) == *old(deposit)
                &&& deposit_result(*old(curve), *old(deposit), user, sol_amount, current_time)
                    == Err::<(TokenBondingCurve, UserAlphaDeposit), ErrorCode>(e)
            },
        },
{
    if current_time >= curve.alpha_phase_end_time {
        return Err(ErrorCode::AlphaPhaseEnded);
    }
    if curve.trading_live() {
        return Err(ErrorCode::TradingAlreadyLive);
    }
    if sol_amount == 0 {
        return Err(ErrorCode::InsufficientFunds);
    }
    let new_user_total: u64 = match deposit.sol_amount.checked_add(sol_amount) {
        Some(v) => v,
        None => return Err(ErrorCode::MathOverflow),
    };
    let new_curve_total: u64 = match curve.total_alpha_sol.checked_add(sol_amount) {
        Some(v) => v,
        None => return Err(ErrorCode::MathOverflow),
    };
    deposit.user = user;
    deposit.mint = curve.token_mint;
    deposit.sol_amount = new_user_total;
    deposit.claimed = false;
    curve.total_alpha_sol = new_curve_total;
    Ok(())
}

} // verus!
