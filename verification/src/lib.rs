//! A constant-product bonding-curve trading engine with a time-boxed,
//! proportional-allocation subscription phase.
//!
//! The engine prices trades of a fungible asset against a native settlement
//! currency with the constant-product formula over virtual reserves, splits a
//! platform fee and a creator fee out of every trade, and runs a two-phase
//! lifecycle per asset: a subscription window in which participants lock in
//! currency for a pro-rata allocation, followed by open trading.  All monetary
//! arithmetic is integer arithmetic with explicit overflow, underflow and
//! division checks; every rounding step truncates.
//!
//! The engine itself moves no funds: each operation validates its inputs,
//! updates the records it owns, and returns the transfer amounts that the
//! caller's settlement layer must carry out.

pub mod buy;
pub mod claim;
pub mod create;
pub mod deposit;
pub mod errors;
pub mod laws;
pub mod maths;
pub mod platform;
pub mod sell;
pub mod state;
