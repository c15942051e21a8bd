//! The pricing quotes on concrete reserves.

use memelab_dex::errors::ErrorCode;
use memelab_dex::maths::{calculate_sol_out, calculate_tokens_out};

#[test]
fn tokens_out_small_numbers() {
    // k = 100 * 1000; new currency side 110; 100000 / 110 = 909; out = 91.
    assert_eq!(calculate_tokens_out(10, 100, 1000), Ok(91));
}

#[test]
fn sol_out_small_numbers() {
    // k = 100 * 1000; new asset side 1010; 100000 / 1010 = 99; out = 1.
    assert_eq!(calculate_sol_out(10, 100, 1000), Ok(1));
}

#[test]
fn tokens_out_zero_input_is_zero() {
    assert_eq!(calculate_tokens_out(0, 100, 1000), Ok(0));
}

#[test]
fn sol_out_zero_input_is_zero() {
    assert_eq!(calculate_sol_out(0, 100, 1000), Ok(0));
}

#[test]
fn tokens_out_empty_pool_rejected() {
    // Currency reserve and input both zero: the dividing step has no quotient.
    assert_eq!(calculate_tokens_out(0, 0, 1000), Err(ErrorCode::MathOverflow));
}

#[test]
fn sol_out_empty_pool_rejected() {
    assert_eq!(calculate_sol_out(0, 1000, 0), Err(ErrorCode::MathOverflow));
}

#[test]
fn tokens_out_matches_reference_formula() {
    let (amount, vsol, vtok) = (1_000_000_000u64, 30_000_000_000u64, 1_000_000_000_000_000u64);
    let k = vsol as u128 * vtok as u128;
    let expected = vtok - (k / (vsol as u128 + amount as u128)) as u64;
    assert_eq!(calculate_tokens_out(amount, vsol, vtok), Ok(expected));
}

#[test]
fn tokens_out_monotone_in_input() {
    let mut last = 0u64;
    for amount in [1u64, 10, 100, 1_000, 10_000, 100_000] {
        let out = calculate_tokens_out(amount, 10_000, 50_000).unwrap();
        assert!(out >= last);
        last = out;
    }
}

#[test]
fn quotes_survive_extreme_reserves() {
    // The invariant of two full 64-bit reserves still fits the 128-bit step.
    let out = calculate_tokens_out(u64::MAX, u64::MAX, u64::MAX).unwrap();
    assert!(out <= u64::MAX);
    let out = calculate_sol_out(u64::MAX, u64::MAX, u64::MAX).unwrap();
    assert!(out <= u64::MAX);
}
