//! Laws the engine's arithmetic obeys, stated over the same spec functions
//! its contracts use.

use vstd::prelude::*;
use vstd::arithmetic::div_mod::{
    lemma_div_is_ordered, lemma_div_multiples_vanish, lemma_div_pos_is_pos,
    lemma_fundamental_div_mod, lemma_fundamental_div_mod_converse,
    lemma_mod_division_less_than_divisor,
};
use vstd::arithmetic::mul::{
    lemma_mul_is_commutative, lemma_mul_is_distributive_add,
    lemma_mul_is_distributive_add_other_way, lemma_mul_inequality, lemma_mul_nonnegative,
};

use crate::claim::claim_result;
use crate::errors::ErrorCode;
use crate::maths::fee_value;
use crate::state::{AccountId, TokenBondingCurve, UserAlphaDeposit};

verus! {

/// Truncating division loses at most the final rounding step: dividing two
/// summands separately never beats dividing their sum.
proof fn lemma_div_sum_le(x: int, y: int, d: int)
    requires
        0 <= x,
        0 <= y,
        0 < d,
    ensures
        x / d + y / d <= (x + y) / d,
{
    lemma_fundamental_div_mod(x, d);
    lemma_fundamental_div_mod(y, d);
    lemma_mod_division_less_than_divisor(x, d);
    lemma_mod_division_less_than_divisor(y, d);
    let q = x / d + y / d;
    let r = x % d + y % d;
    lemma_mul_is_distributive_add(d, x / d, y / d);
    lemma_mul_is_commutative(d, q);
    if r < d {
        lemma_fundamental_div_mod_converse(x + y, d, q, r);
    } else {
        lemma_mul_is_distributive_add(d, q, 1);
        lemma_mul_is_commutative(d, q + 1);
        lemma_fundamental_div_mod_converse(x + y, d, q + 1, r - d);
    }
}

/// Fee additivity: as long as the two rates together stay within the whole,
/// the two truncating fee splits never exceed the gross amount they are
/// carved from, and neither is negative.
pub proof fn lemma_fee_additivity(gross: int, platform_bps: int, creator_bps: int)
    requires
        0 <= gross,
        0 <= platform_bps,
        0 <= creator_bps,
        platform_bps + creator_bps <= 10000,
    ensures
        0 <= fee_value(gross, platform_bps),
        0 <= fee_value(gross, creator_bps),
        fee_value(gross, platform_bps) + fee_value(gross, creator_bps) <= gross,
{
    lemma_mul_nonnegative(gross, platform_bps);
    lemma_mul_nonnegative(gross, creator_bps);
    lemma_div_pos_is_pos(gross * platform_bps, 10000);
    lemma_div_pos_is_pos(gross * creator_bps, 10000);
    lemma_div_sum_le(gross * platform_bps, gross * creator_bps, 10000);
    lemma_mul_is_distributive_add(gross, platform_bps, creator_bps);
    lemma_mul_inequality(platform_bps + creator_bps, 10000, gross);
    lemma_mul_is_commutative(platform_bps + creator_bps, gross);
    lemma_mul_is_commutative(10000, gross);
    lemma_div_is_ordered(gross * (platform_bps + creator_bps), gross * 10000, 10000);
    lemma_mul_is_commutative(gross, 10000);
    lemma_div_multiples_vanish(gross, 10000);
}

/// Fee truncation: each fee split is the exact rational share rounded down,
/// short of it by less than one unit; it never rounds up.
pub proof fn lemma_fee_truncation(gross: int, bps: int)
    requires
        0 <= gross,
        0 <= bps,
    ensures
        10000 * fee_value(gross, bps) <= gross * bps,
        gross * bps < 10000 * (fee_value(gross, bps) + 1),
{
    lemma_fundamental_div_mod(gross * bps, 10000);
    lemma_mod_division_less_than_divisor(gross * bps, 10000);
    lemma_mul_is_distributive_add(10000, fee_value(gross, bps), 1);
}

/// Claim exclusivity: a claim that succeeded leaves the record in a state on
/// which the same claim fails with `AlreadyClaimed` — a second payout can
/// never happen.
pub proof fn lemma_claim_exclusive(
    c: TokenBondingCurve,
    d: UserAlphaDeposit,
    claimer: AccountId,
    mint: AccountId,
    d_after: UserAlphaDeposit,
    amount: u64,
)
    requires
        claim_result(c, d, claimer, mint) == Ok::<(UserAlphaDeposit, u64), ErrorCode>(
            (d_after, amount),
        ),
    ensures
        claim_result(c, d_after, claimer, mint) == Err::<(UserAlphaDeposit, u64), ErrorCode>(
            ErrorCode::AlreadyClaimed,
        ),
{
}

/// The deposits of the subscribers, taken in any fixed order.
pub open spec fn sum_deposits(deposits: Seq<int>) -> int
    decreases deposits.len(),
{
    if deposits.len() == 0 {
        0
    } else {
        deposits[0] + sum_deposits(deposits.drop_first())
    }
}

/// The pro-rata shares the claim protocol pays those subscribers, summed in
/// the same order.
pub open spec fn sum_shares(deposits: Seq<int>, total_token: int, total_sol: int) -> int
    decreases deposits.len(),
{
    if deposits.len() == 0 {
        0
    } else {
        (deposits[0] * total_token) / total_sol + sum_shares(
            deposits.drop_first(),
            total_token,
            total_sol,
        )
    }
}

proof fn lemma_sum_deposits_nonneg(deposits: Seq<int>)
    requires
        forall|i: int| 0 <= i < deposits.len() ==> 0 <= #[trigger] deposits[i],
    ensures
        0 <= sum_deposits(deposits),
    decreases deposits.len(),
{
    if deposits.len() > 0 {
        lemma_sum_deposits_nonneg(deposits.drop_first());
    }
}

proof fn lemma_sum_shares_le(deposits: Seq<int>, total_token: int, total_sol: int)
    requires
        0 < total_sol,
        0 <= total_token,
        forall|i: int| 0 <= i < deposits.len() ==> 0 <= #[trigger] deposits[i],
    ensures
        sum_shares(deposits, total_token, total_sol) <= (sum_deposits(deposits) * total_token)
            / total_sol,
    decreases deposits.len(),
{
    if deposits.len() == 0 {
        assert(sum_deposits(deposits) * total_token == 0)
            by (nonlinear_arith)
            requires
                sum_deposits(deposits) == 0,
        ;
    } else {
        let rest = deposits.drop_first();
        lemma_sum_shares_le(rest, total_token, total_sol);
        lemma_sum_deposits_nonneg(rest);
        lemma_mul_nonnegative(deposits[0], total_token);
        lemma_mul_nonnegative(sum_deposits(rest), total_token);
        lemma_div_sum_le(deposits[0] * total_token, sum_deposits(rest) * total_token, total_sol);
        lemma_mul_is_distributive_add_other_way(total_token, deposits[0], sum_deposits(rest));
    }
}

/// Proportional allocation: when the recorded deposits sum to the curve's
/// subscribed currency total, the pro-rata shares the claim protocol pays —
/// `deposit * total_token / total_sol` each, rounded down — sum to no more
/// than the asset total that was set aside.
pub proof fn lemma_proportional_allocation(deposits: Seq<int>, total_token: int, total_sol: int)
    requires
        0 < total_sol,
        0 <= total_token,
        forall|i: int| 0 <= i < deposits.len() ==> 0 <= #[trigger] deposits[i],
        sum_deposits(deposits) == total_sol,
    ensures
        sum_shares(deposits, total_token, total_sol) <= total_token,
{
    lemma_sum_shares_le(deposits, total_token, total_sol);
    lemma_mul_is_commutative(total_sol, total_token);
    lemma_div_multiples_vanish(total_token, total_sol);
}

} // verus!
