//! Platform configuration and asset launch.

use memelab_dex::create::{
    create_token, CREATOR_FEE_BPS, INITIAL_VIRTUAL_SOL_RESERVES, INITIAL_VIRTUAL_TOKEN_RESERVES,
    TOTAL_SUPPLY,
};
use memelab_dex::errors::ErrorCode;
use memelab_dex::platform::initialize_platform;
use memelab_dex::state::{AccountId, Phase};

fn acct(tag: u64) -> AccountId {
    AccountId { w0: tag, w1: 0, w2: 0, w3: 0 }
}

#[test]
fn initialize_accepts_fee_at_ceiling() {
    let config = initialize_platform(acct(1), acct(2), 1_000, 77).unwrap();
    assert_eq!(config.platform_authority, acct(1));
    assert_eq!(config.platform_fee_wallet, acct(2));
    assert_eq!(config.platform_fee_bps, 1_000);
    assert_eq!(config.platform_token_creation_fee, 77);
    assert_eq!(config.total_tokens_created, 0);
}

#[test]
fn initialize_rejects_fee_above_ceiling() {
    assert_eq!(
        initialize_platform(acct(1), acct(2), 1_001, 0),
        Err(ErrorCode::FeeTooHigh)
    );
}

#[test]
fn create_seeds_a_subscription_curve() {
    let mut config = initialize_platform(acct(1), acct(2), 100, 0).unwrap();
    let curve = create_token(
        &mut config,
        acct(5),
        acct(6),
        "Example",
        "EXM",
        "https://example.invalid/meta.json",
        3_600,
        1_000,
    )
    .unwrap();
    assert_eq!(curve.token_mint, acct(6));
    assert_eq!(curve.creator, acct(5));
    assert_eq!(curve.virtual_sol_reserves, INITIAL_VIRTUAL_SOL_RESERVES);
    assert_eq!(curve.virtual_token_reserves, INITIAL_VIRTUAL_TOKEN_RESERVES);
    assert_eq!(curve.real_sol_reserves, 0);
    assert_eq!(curve.real_token_reserves, TOTAL_SUPPLY);
    assert_eq!(curve.real_token_supply, TOTAL_SUPPLY);
    assert_eq!(curve.alpha_phase_end_time, 4_600);
    assert_eq!(curve.created_at, 1_000);
    assert_eq!(curve.creator_fee_bps, CREATOR_FEE_BPS);
    assert_eq!(curve.total_alpha_sol, 0);
    assert_eq!(curve.total_alpha_token, 0);
    assert_eq!(curve.phase, Phase::Subscription);
    assert!(!curve.trading_live());
    assert_eq!(config.total_tokens_created, 1);
}

#[test]
fn create_counts_each_launch() {
    let mut config = initialize_platform(acct(1), acct(2), 100, 0).unwrap();
    for i in 1..=3u64 {
        create_token(&mut config, acct(5), acct(6), "A", "B", "c", 60, 0).unwrap();
        assert_eq!(config.total_tokens_created, i);
    }
}

#[test]
fn create_rejects_long_name() {
    let mut config = initialize_platform(acct(1), acct(2), 100, 0).unwrap();
    let name = "x".repeat(33);
    assert_eq!(
        create_token(&mut config, acct(5), acct(6), &name, "B", "c", 60, 0),
        Err(ErrorCode::NameTooLong)
    );
    assert_eq!(config.total_tokens_created, 0);
}

#[test]
fn create_rejects_long_symbol() {
    let mut config = initialize_platform(acct(1), acct(2), 100, 0).unwrap();
    assert_eq!(
        create_token(&mut config, acct(5), acct(6), "A", "ELEVENCHARS", "c", 60, 0),
        Err(ErrorCode::SymbolTooLong)
    );
}

#[test]
fn create_rejects_long_uri() {
    let mut config = initialize_platform(acct(1), acct(2), 100, 0).unwrap();
    let uri = "u".repeat(201);
    assert_eq!(
        create_token(&mut config, acct(5), acct(6), "A", "B", &uri, 60, 0),
        Err(ErrorCode::UriTooLong)
    );
}

#[test]
fn create_measures_names_in_bytes() {
    let mut config = initialize_platform(acct(1), acct(2), 100, 0).unwrap();
    // Eleven characters of three bytes each: over the 32-byte ceiling.
    let name = "\u{20AC}".repeat(11);
    assert_eq!(name.chars().count(), 11);
    assert_eq!(
        create_token(&mut config, acct(5), acct(6), &name, "B", "c", 60, 0),
        Err(ErrorCode::NameTooLong)
    );
}

#[test]
fn create_rejects_empty_window() {
    let mut config = initialize_platform(acct(1), acct(2), 100, 0).unwrap();
    assert_eq!(
        create_token(&mut config, acct(5), acct(6), "A", "B", "c", 0, 0),
        Err(ErrorCode::InvalidAmount)
    );
    assert_eq!(
        create_token(&mut config, acct(5), acct(6), "A", "B", "c", -5, 0),
        Err(ErrorCode::InvalidAmount)
    );
}

#[test]
fn create_rejects_unrepresentable_deadline() {
    let mut config = initialize_platform(acct(1), acct(2), 100, 0).unwrap();
    assert_eq!(
        create_token(&mut config, acct(5), acct(6), "A", "B", "c", 1, i64::MAX),
        Err(ErrorCode::Overflow)
    );
}
