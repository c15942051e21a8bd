use vstd::prelude::*;

verus! {

/// Failure conditions raised by the engine.
///
/// Every operation is all-or-nothing: when it returns one of these, no record
/// it was handed has been changed.
#[derive(Clone, Copy, Debug, PartialEq, Eq, Structural)]
pub enum ErrorCode {
    /// A configured fee rate is above the 1000 basis-point ceiling.
    FeeTooHigh,
    /// An asset name is longer than 32 bytes.
    NameTooLong,
    /// An asset symbol is longer than 10 bytes.
    SymbolTooLong,
    /// An asset metadata locator is longer than 200 bytes.
    UriTooLong,
    /// The subscription deadline cannot be represented.
    Overflow,
    /// The curve is still in its subscription phase.
    TradingNotLive,
    /// A sale would return less than the seller's stated minimum.
    SlippageExceeded,
    /// A deposit of zero currency was requested.
    InsufficientFunds,
    /// An addition or multiplication does not fit its integer type.
    MathOverflow,
    /// A subtraction would fall below zero.
    MathUnderflow,
    /// A trade of zero input was requested.
    InvalidAmount,
    /// A trade or claim asks for more asset than the pool holds.
    InsufficientTokenReserves,
    /// A sale asks for more currency than the pool holds.
    InsufficientSolReserves,
    /// The subscription window has already closed.
    AlphaPhaseEnded,
    /// The subscription window has not closed yet.
    AlphaPhaseNotEnded,
    /// The participant has already claimed this allocation.
    AlreadyClaimed,
    /// The participant never deposited for this asset.
    NoDepositFound,
    /// The curve has already left its subscription phase.
    TradingAlreadyLive,
    /// The supplied creator wallet is not the curve's creator.
    InvalidCreatorWallet,
    /// The allocation computed for the participant is zero.
    NoTokensOwed,
    /// Nothing was ever subscribed on this curve.
    ZeroAlphaDeposits,
    /// The supplied claimer is not the record's owner.
    InvalidClaimer,
    /// The supplied asset does not match the record's asset.
    InvalidMint,
    /// The quoted trade output is zero.
    InvalidPriceCalculation,
}

} // verus!
