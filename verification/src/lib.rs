//! Strategy-and-resilience engine for a DEX/CEX arbitrage and market-making
//! bot.
//!
//! The crate holds the verified core: multi-timeframe volatility tracking,
//! arbitrage detection and validation, market-making signal generation, and
//! the resilience layer (circuit breaker, retry backoff, error recovery).
//! Monetary values, percentages and ratios are fixed-point integers in
//! micro-units (one unit is 1,000,000 micros), so every computation is exact
//! integer arithmetic.

pub mod addresses;
pub mod arbitrage;
pub mod circuit_breaker;
pub mod config;
pub mod errors;
pub mod execution;
pub mod externals;
pub mod fixed;
pub mod market_making;
pub mod math;
pub mod orchestrator;
pub mod pools;
pub mod recovery;
pub mod retry;
pub mod text;
pub mod validation;
pub mod volatility;
