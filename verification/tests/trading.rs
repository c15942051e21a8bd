//! Buys and sells on a live curve: the worked example, the fee split, and
//! every rejection the two protocols can answer with.

use memelab_dex::buy::buy_tokens;
use memelab_dex::errors::ErrorCode;
use memelab_dex::sell::sell_tokens;
use memelab_dex::state::{AccountId, Phase, PlatformConfig, TokenBondingCurve};

fn acct(tag: u64) -> AccountId {
    AccountId { w0: tag, w1: 0, w2: 0, w3: 0 }
}

fn live_curve() -> TokenBondingCurve {
    TokenBondingCurve {
        token_mint: acct(1),
        creator: acct(2),
        virtual_sol_reserves: 30_000_000_000,
        virtual_token_reserves: 1_000_000_000_000_000,
        real_sol_reserves: 0,
        real_token_reserves: 1_000_000_000_000_000,
        alpha_phase_end_time: 100,
        total_alpha_sol: 0,
        total_alpha_token: 0,
        real_token_supply: 1_000_000_000_000_000,
        created_at: 0,
        creator_fee_bps: 100,
        phase: Phase::Live,
    }
}

fn config() -> PlatformConfig {
    PlatformConfig {
        platform_authority: acct(3),
        platform_fee_wallet: acct(4),
        platform_fee_bps: 100,
        platform_token_creation_fee: 0,
        total_tokens_created: 1,
    }
}

#[test]
fn buy_worked_example() {
    // 30 currency-billions and 1e15 asset-units seeded; a gross buy of 1e9
    // at 100 bps each way pays 1e7 to each fee taker and 98e7 into the pool.
    let mut curve = live_curve();
    let out = buy_tokens(&mut curve, &config(), acct(2), 1_000_000_000, 101).unwrap();
    assert_eq!(out.platform_fee, 10_000_000);
    assert_eq!(out.creator_fee, 10_000_000);
    assert_eq!(out.sol_for_tokens, 980_000_000);
    let expected =
        1_000_000_000_000_000u64 - (30_000_000_000u128 * 1_000_000_000_000_000u128 / 30_980_000_000u128) as u64;
    assert_eq!(out.tokens_out, expected);
    assert_eq!(curve.virtual_sol_reserves, 30_980_000_000);
    assert_eq!(curve.real_sol_reserves, 980_000_000);
    assert_eq!(curve.virtual_token_reserves, 1_000_000_000_000_000 - expected);
    assert_eq!(curve.real_token_reserves, 1_000_000_000_000_000 - expected);
}

#[test]
fn round_trip_returns_strictly_less() {
    // Selling the exact output of a buy straight back yields strictly less
    // than the buy's net input: the spread plus the sell-side fee.  The pool
    // holds some earlier proceeds: the reverse quote can exceed the buy's
    // net by the final rounding step, and custody must cover the gross.
    let mut curve = live_curve();
    curve.real_sol_reserves = 1_000_000_000;
    let bought = buy_tokens(&mut curve, &config(), acct(2), 1_000_000_000, 101).unwrap();
    let sold = sell_tokens(&mut curve, &config(), acct(2), bought.tokens_out, 0).unwrap();
    assert!(sold.sol_out_net < bought.sol_for_tokens);
    assert_eq!(
        sold.sol_out_net + sold.platform_fee + sold.creator_fee,
        sold.sol_out_gross
    );
}

#[test]
fn reserve_product_never_grows() {
    let mut curve = live_curve();
    let mut product =
        curve.virtual_sol_reserves as u128 * curve.virtual_token_reserves as u128;
    for (kind, amount) in [(0u8, 5_000_000_000u64), (1, 700_000_000_000), (0, 123_456_789), (1, 1)] {
        if kind == 0 {
            buy_tokens(&mut curve, &config(), acct(2), amount, 101).unwrap();
        } else {
            sell_tokens(&mut curve, &config(), acct(2), amount, 0).unwrap();
        }
        let next = curve.virtual_sol_reserves as u128 * curve.virtual_token_reserves as u128;
        assert!(next <= product);
        // Truncation costs less than one unit of the side that grew.
        let tolerance = if kind == 0 {
            curve.virtual_sol_reserves as u128
        } else {
            curve.virtual_token_reserves as u128
        };
        assert!(next + tolerance > product);
        product = next;
    }
}

#[test]
fn buy_never_pays_more_asset_than_the_pool_holds() {
    // The quote asks for far more asset than custody holds: rejected, and
    // the curve is exactly as it was.
    let mut curve = live_curve();
    curve.real_token_reserves = 1_000;
    curve.real_token_supply = 1_000;
    let before = curve;
    assert_eq!(
        buy_tokens(&mut curve, &config(), acct(2), 1_000_000_000, 101),
        Err(ErrorCode::InsufficientTokenReserves)
    );
    assert_eq!(curve, before);
}

#[test]
fn fee_split_truncates_and_fits() {
    let mut curve = live_curve();
    let out = buy_tokens(&mut curve, &config(), acct(2), 9_999, 101).unwrap();
    // 9999 * 100 / 10000 truncates 99.99 down to 99 on both splits.
    assert_eq!(out.platform_fee, 99);
    assert_eq!(out.creator_fee, 99);
    assert!(out.platform_fee + out.creator_fee <= 9_999);
    assert_eq!(out.sol_for_tokens, 9_999 - 198);
}

#[test]
fn buy_rejects_wrong_creator_wallet() {
    let mut curve = live_curve();
    assert_eq!(
        buy_tokens(&mut curve, &config(), acct(9), 1_000, 101),
        Err(ErrorCode::InvalidCreatorWallet)
    );
}

#[test]
fn buy_rejects_zero_amount() {
    let mut curve = live_curve();
    assert_eq!(
        buy_tokens(&mut curve, &config(), acct(2), 0, 101),
        Err(ErrorCode::InvalidAmount)
    );
}

#[test]
fn buy_rejects_before_deadline() {
    let mut curve = live_curve();
    curve.phase = Phase::Subscription;
    let before = curve;
    assert_eq!(
        buy_tokens(&mut curve, &config(), acct(2), 1_000, 99),
        Err(ErrorCode::AlphaPhaseNotEnded)
    );
    assert_eq!(curve, before);
}

#[test]
fn buy_rejects_fee_multiplication_overflow() {
    let mut curve = live_curve();
    assert_eq!(
        buy_tokens(&mut curve, &config(), acct(2), u64::MAX, 101),
        Err(ErrorCode::MathOverflow)
    );
}

#[test]
fn buy_rejects_zero_quote() {
    let mut curve = live_curve();
    curve.virtual_token_reserves = 0;
    assert_eq!(
        buy_tokens(&mut curve, &config(), acct(2), 1_000, 101),
        Err(ErrorCode::InvalidPriceCalculation)
    );
}

#[test]
fn sell_requires_live_trading() {
    let mut curve = live_curve();
    curve.phase = Phase::Subscription;
    // Unlike a buy, a sale past the deadline still refuses: it never
    // triggers the transition.
    assert_eq!(
        sell_tokens(&mut curve, &config(), acct(2), 1_000, 0),
        Err(ErrorCode::TradingNotLive)
    );
}

#[test]
fn sell_rejects_wrong_creator_wallet() {
    let mut curve = live_curve();
    assert_eq!(
        sell_tokens(&mut curve, &config(), acct(9), 1_000, 0),
        Err(ErrorCode::InvalidCreatorWallet)
    );
}

#[test]
fn sell_rejects_zero_amount() {
    let mut curve = live_curve();
    assert_eq!(
        sell_tokens(&mut curve, &config(), acct(2), 0, 0),
        Err(ErrorCode::InvalidAmount)
    );
}

#[test]
fn sell_rejects_when_pool_cannot_cover() {
    let mut curve = live_curve();
    curve.virtual_sol_reserves = 1_000;
    curve.virtual_token_reserves = 1_000;
    curve.real_sol_reserves = 100;
    curve.real_token_reserves = 1_000;
    curve.real_token_supply = 10_000;
    // Gross quote is 500, but the pool physically holds 100.
    assert_eq!(
        sell_tokens(&mut curve, &config(), acct(2), 1_000, 0),
        Err(ErrorCode::InsufficientSolReserves)
    );
}

#[test]
fn sell_honours_slippage_floor() {
    let mut curve = live_curve();
    buy_tokens(&mut curve, &config(), acct(2), 1_000_000_000, 101).unwrap();
    let before = curve;
    assert_eq!(
        sell_tokens(&mut curve, &config(), acct(2), 1_000_000, u64::MAX),
        Err(ErrorCode::SlippageExceeded)
    );
    assert_eq!(curve, before);
}

#[test]
fn sell_fees_come_out_of_gross_output() {
    let mut curve = live_curve();
    buy_tokens(&mut curve, &config(), acct(2), 1_000_000_000, 101).unwrap();
    let sold = sell_tokens(&mut curve, &config(), acct(2), 10_000_000_000, 0).unwrap();
    assert_eq!(sold.platform_fee, sold.sol_out_gross * 100 / 10000);
    assert_eq!(sold.creator_fee, sold.sol_out_gross * 100 / 10000);
    assert_eq!(
        sold.sol_out_net,
        sold.sol_out_gross - sold.platform_fee - sold.creator_fee
    );
}
