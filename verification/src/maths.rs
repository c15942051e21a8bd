//! The pricing engine: the constant-product formula over virtual reserves.
//!
//! Both quotes compute the invariant `k = virtual_sol * virtual_token` in
//! 128-bit arithmetic, add the input to its side of the pool, divide to find
//! the shrunken opposite side (integer division, truncating toward zero), and
//! return the difference as the output.

use vstd::prelude::*;

use crate::errors::ErrorCode;

verus! {

/// Asset released by the constant-product formula when `amount_in` currency
/// units join reserves of `virtual_sol` currency and `virtual_token` asset.
pub open spec fn tokens_out_value(amount_in: int, virtual_sol: int, virtual_token: int) -> int {
    virtual_token - (virtual_sol * virtual_token) / (virtual_sol + amount_in)
}

/// Currency released by the constant-product formula when `amount_in` asset
/// units join reserves of `virtual_sol` currency and `virtual_token` asset.
pub open spec fn sol_out_value(amount_in: int, virtual_sol: int, virtual_token: int) -> int {
    virtual_sol - (virtual_sol * virtual_token) / (virtual_token + amount_in)
}

/// The truncating fee split: `gross * bps / 10000`, rounded toward zero.
pub open spec fn fee_value(gross: int, bps: int) -> int {
    (gross * bps) / 10000
}

/// How a trade moves the reserve product.  The grown side times the
/// truncated quotient never exceeds the old product, and misses it by less
/// than one unit of the grown side.
pub proof fn lemma_product_truncation(reserve_out: int, reserve_in: int, amount_in: int)
    requires
        0 <= reserve_out,
        0 <= reserve_in,
        0 <= amount_in,
        reserve_in + amount_in > 0,
    ensures
        (reserve_in + amount_in) * ((reserve_in * reserve_out) / (reserve_in + amount_in))
            <= reserve_in * reserve_out,
        (reserve_in + amount_in) * ((reserve_in * reserve_out) / (reserve_in + amount_in)) + (
        reserve_in + amount_in) > reserve_in * reserve_out,
{
    let k = reserve_in * reserve_out;
    let grown = reserve_in + amount_in;
    vstd::arithmetic::mul::lemma_mul_nonnegative(reserve_in, reserve_out);
    vstd::arithmetic::div_mod::lemma_fundamental_div_mod(k, grown);
    vstd::arithmetic::div_mod::lemma_mod_division_less_than_divisor(k, grown);
    vstd::arithmetic::mul::lemma_mul_is_commutative(grown, k / grown);
}

/// The quotient shrinks below the undiminished side of the pool, so both
/// quotes stay between zero and the reserve they pay out of.
proof fn lemma_shrunken_side_bounds(reserve_out: int, reserve_in: int, amount_in: int)
    requires
        0 <= reserve_out,
        0 <= reserve_in,
        0 <= amount_in,
        reserve_in + amount_in > 0,
    ensures
        0 <= (reserve_in * reserve_out) / (reserve_in + amount_in) <= reserve_out,
{
    let k = reserve_in * reserve_out;
    let grown = reserve_in + amount_in;
    vstd::arithmetic::mul::lemma_mul_nonnegative(reserve_in, reserve_out);
    vstd::arithmetic::div_mod::lemma_div_pos_is_pos(k, grown);
    vstd::arithmetic::mul::lemma_mul_inequality(reserve_in, grown, reserve_out);
    vstd::arithmetic::div_mod::lemma_div_is_ordered(k, grown * reserve_out, grown);
    vstd::arithmetic::div_mod::lemma_div_multiples_vanish(reserve_out, grown);
}

/// A quote pays out something whenever something was paid in: the output is
/// zero only on zero input (as long as the paying side has anything left).
pub proof fn lemma_quote_positive(reserve_out: int, reserve_in: int, amount_in: int)
    requires
        1 <= reserve_out,
        0 <= reserve_in,
        1 <= amount_in,
    ensures
        (reserve_in * reserve_out) / (reserve_in + amount_in) < reserve_out,
{
    let grown = reserve_in + amount_in;
    vstd::arithmetic::mul::lemma_mul_strict_inequality(reserve_in, grown, reserve_out);
    vstd::arithmetic::mul::lemma_mul_is_commutative(grown, reserve_out);
    vstd::arithmetic::div_mod::lemma_multiply_divide_lt(
        reserve_in * reserve_out,
        grown,
        reserve_out,
    );
}

/// More input never buys less: the quotient shrinks as the paying side
/// grows, so the quoted output is monotone in the input.
pub proof fn lemma_quote_monotone(reserve_out: int, reserve_in: int, amount_a: int, amount_b: int)
    requires
        0 <= reserve_out,
        0 <= reserve_in,
        0 <= amount_a <= amount_b,
        0 < reserve_in + amount_a,
    ensures
        (reserve_in * reserve_out) / (reserve_in + amount_b) <= (reserve_in * reserve_out) / (
        reserve_in + amount_a),
{
    vstd::arithmetic::mul::lemma_mul_nonnegative(reserve_in, reserve_out);
    vstd::arithmetic::div_mod::lemma_div_is_ordered_by_denominator(
        reserve_in * reserve_out,
        reserve_in + amount_a,
        reserve_in + amount_b,
    );
}

/// Quote the asset paid out for `sol_amount_in` currency paid in.
///
/// Succeeds with exactly `tokens_out_value` unless both the currency reserve
/// and the input are zero, where the dividing step has no quotient.
pub fn calculate_tokens_out(
    sol_amount_in: u64,
    virtual_sol_reserves: u64,
    virtual_token_reserves: u64,
) -> (r: Result<u64, ErrorCode>)
    ensures
        virtual_sol_reserves + sol_amount_in == 0 ==> r == Err::<u64, ErrorCode>(
            ErrorCode::MathOverflow,
        ),
        virtual_sol_reserves + sol_amount_in > 0 ==> {
            let out = tokens_out_value(
                sol_amount_in as int,
                virtual_sol_reserves as int,
                virtual_token_reserves as int,
            );
            &&& r matches Ok(v) && v == out
            &&& 0 <= out <= virtual_token_reserves
        },
{
    proof {
        assert((virtual_sol_reserves as int) * (virtual_token_reserves as int) <= u64::MAX as int
            * u64::MAX as int) by (nonlinear_arith)
            requires
                virtual_sol_reserves <= u64::MAX,
                virtual_token_reserves <= u64::MAX,
        ;
    }
    let k: u128 = (virtual_sol_reserves as u128) * (virtual_token_reserves as u128);
    let new_virtual_sol: u128 = virtual_sol_reserves as u128 + sol_amount_in as u128;
    if new_virtual_sol == 0 {
        return Err(ErrorCode::MathOverflow);
    }
    let new_virtual_tokens: u128 = k / new_virtual_sol;
    proof {
        lemma_shrunken_side_bounds(
            virtual_token_reserves as int,
            virtual_sol_reserves as int,
            sol_amount_in as int,
        );
    }
    let tokens_out: u128 = virtual_token_reserves as u128 - new_virtual_tokens;
    Ok(tokens_out as u64)
}

/// Quote the currency paid out for `token_amount_in` asset paid in.
///
/// Succeeds with exactly `sol_out_value` unless both the asset reserve and
/// the input are zero, where the dividing step has no quotient.
pub fn calculate_sol_out(
    token_amount_in: u64,
    virtual_sol_reserves: u64,
    virtual_token_reserves: u64,
) -> (r: Result<u64, ErrorCode>)
    ensures
        virtual_token_reserves + token_amount_in == 0 ==> r == Err::<u64, ErrorCode>(
            ErrorCode::MathOverflow,
        ),
        virtual_token_reserves + token_amount_in > 0 ==> {
            let out = sol_out_value(
                token_amount_in as int,
                virtual_sol_reserves as int,
                virtual_token_reserves as int,
            );
            &&& r matches Ok(v) && v == out
            &&& 0 <= out <= virtual_sol_reserves
        },
{
    proof {
        assert((virtual_sol_reserves as int) * (virtual_token_reserves as int) <= u64::MAX as int
            * u64::MAX as int) by (nonlinear_arith)
            requires
                virtual_sol_reserves <= u64::MAX,
                virtual_token_reserves <= u64::MAX,
        ;
    }
    let k: u128 = (virtual_sol_reserves as u128) * (virtual_token_reserves as u128);
    let new_virtual_tokens: u128 = virtual_token_reserves as u128 + token_amount_in as u128;
    if new_virtual_tokens == 0 {
        return Err(ErrorCode::MathOverflow);
    }
    let new_virtual_sol: u128 = k / new_virtual_tokens;
    proof {
        vstd::arithmetic::mul::lemma_mul_is_commutative(
            virtual_sol_reserves as int,
            virtual_token_reserves as int,
        );
        lemma_shrunken_side_bounds(
            virtual_sol_reserves as int,
            virtual_token_reserves as int,
            token_amount_in as int,
        );
    }
    let sol_out: u128 = virtual_sol_reserves as u128 - new_virtual_sol;
    Ok(sol_out as u64)
}

} // verus!
