//! The records the engine owns: the platform configuration, one bonding
//! curve per asset, and one subscription record per (participant, asset).

use vstd::prelude::*;

verus! {

/// Fee rates are expressed in basis points; 10000 of them make the whole.
pub const BPS_DENOMINATOR: u64 = 10000;

/// Ceiling on the platform and creator fee rates: 10%.
pub const MAX_FEE_BPS: u16 = 1000;

/// An account identity: 32 opaque bytes held as four 64-bit words.
///
/// The engine never looks inside an identity; it only compares identities
/// for equality and hands them back to its caller's settlement layer.
#[derive(Clone, Copy, Debug, PartialEq, Eq, Hash, Structural)]
pub struct AccountId {
    pub w0: u64,
    pub w1: u64,
    pub w2: u64,
    pub w3: u64,
}

/// The lifecycle of one bonding curve.
///
/// A curve starts in `Subscription` and moves to `Live` exactly once, on the
/// first buy at or after the subscription deadline; no operation moves it
/// back.  `Complete` is a reserved terminal state for future sale-completion
/// semantics: no operation here produces it, and a curve in it trades as a
/// live one.
#[derive(Clone, Copy, Debug, PartialEq, Eq, Structural)]
pub enum Phase {
    Subscription,
    Live,
    Complete,
}

impl Phase {
    /// Whether open trading has begun (irreversibly).
    pub open spec fn spec_is_live(self) -> bool {
        self != Phase::Subscription
    }

    /// Exec view of `spec_is_live`.
    #[verifier::when_used_as_spec(spec_is_live)]
    pub fn is_live(self) -> (r: bool)
        ensures
            r == self.spec_is_live(),
    {
        match self {
            Phase::Subscription => false,
            Phase::Live => true,
            Phase::Complete => true,
        }
    }

    /// The one-way order on phases: `Subscription`, then `Live`, then
    /// `Complete`.
    pub open spec fn le(self, other: Phase) -> bool {
        match self {
            Phase::Subscription => true,
            Phase::Live => other != Phase::Subscription,
            Phase::Complete => other == Phase::Complete,
        }
    }
}

/// Platform-wide configuration, created once by the administrator.
#[derive(Clone, Copy, Debug, PartialEq, Eq, Structural)]
pub struct PlatformConfig {
    /// The administrator who created the configuration.
    pub platform_authority: AccountId,
    /// Recipient of the platform's share of every trade.
    pub platform_fee_wallet: AccountId,
    /// Platform fee rate on every trade, in basis points (at most 1000).
    pub platform_fee_bps: u16,
    /// Flat charge for creating an asset.
    pub platform_token_creation_fee: u64,
    /// How many assets have been created under this configuration.
    pub total_tokens_created: u64,
}

impl PlatformConfig {
    /// The configuration invariant: the fee rate respects its ceiling.
    pub open spec fn wf(self) -> bool {
        self.platform_fee_bps <= MAX_FEE_BPS
    }
}

/// The authoritative state of one asset's pool.
#[derive(Clone, Copy, Debug, PartialEq, Eq, Structural)]
pub struct TokenBondingCurve {
    /// The asset this curve trades.
    pub token_mint: AccountId,
    /// The creator who launched the asset; receives the creator fee.
    pub creator: AccountId,
    /// Virtual currency reserve: the pricing formula's working set, seeded
    /// away from zero and never physically held.
    pub virtual_sol_reserves: u64,
    /// Virtual asset reserve, the formula's other side.
    pub virtual_token_reserves: u64,
    /// Currency actually held in the pool's custody.
    pub real_sol_reserves: u64,
    /// Asset actually held in the pool's custody.
    pub real_token_reserves: u64,
    /// Absolute deadline of the subscription window.
    pub alpha_phase_end_time: i64,
    /// Currency locked in by all subscribers, accumulated deposit by deposit.
    pub total_alpha_sol: u64,
    /// Asset set aside for subscribers; written once, when trading goes live.
    pub total_alpha_token: u64,
    /// Total minted supply of the asset.
    pub real_token_supply: u64,
    /// When the curve was created.
    pub created_at: i64,
    /// Creator fee rate on every trade, in basis points (at most 1000).
    pub creator_fee_bps: u16,
    /// Where the curve stands in its lifecycle.
    pub phase: Phase,
}

impl TokenBondingCurve {
    /// The curve invariant: the creator fee respects its ceiling, and the
    /// pool never holds more asset than was minted.
    pub open spec fn wf(self) -> bool {
        &&& self.creator_fee_bps <= MAX_FEE_BPS
        &&& self.real_token_reserves <= self.real_token_supply
    }

    /// Whether open trading has begun on this curve.
    pub open spec fn spec_trading_live(&self) -> bool {
        self.phase.spec_is_live()
    }

    /// Exec view of `spec_trading_live`.
    #[verifier::when_used_as_spec(spec_trading_live)]
    pub fn trading_live(&self) -> (r: bool)
        ensures
            r == self.spec_trading_live(),
    {
        self.phase.is_live()
    }
}

/// One participant's stake in one asset's subscription window.
#[derive(Clone, Copy, Debug, PartialEq, Eq, Structural)]
pub struct UserAlphaDeposit {
    /// The participant the record belongs to.
    pub user: AccountId,
    /// The asset the deposit was made for.
    pub mint: AccountId,
    /// Currency the participant has locked in, across all their deposits.
    pub sol_amount: u64,
    /// Asset owed to the participant; written once, at claim time.
    pub tokens_owed: u64,
    /// Whether the allocation has been paid out.
    pub claimed: bool,
}

} // verus!
