//! The closed error taxonomy and its classification.

use vstd::prelude::*;
use crate::addresses::Address;

verus! {

/// Every failure the engine can observe, as a closed set of variants.
/// Underlying causes are carried as plain message strings.
#[derive(Clone, Debug)]
pub enum BotError {
    /// Transient network failure, carrying how many attempts were made.
    Network { message: String, retry_count: u32 },
    /// Semantic failure interpreting an on-chain call.
    Contract { contract: Address, message: String },
    /// A price outside the accepted domain, in micro-dollars.
    PriceValidation { price: u64, reason: String },
    /// Reserves below the configured floors.
    InsufficientLiquidity { pool: String, details: String },
    /// Malformed upstream data.
    DataParsing { context: String },
    /// Self-imposed backpressure while the circuit breaker is open.
    CircuitBreakerOpen { reason: String, cooldown_remaining_ms: u64 },
}

pub type BotResult<T> = Result<T, BotError>;

/// The six recovery classifications, one per error variant.
#[derive(Clone, Copy, PartialEq, Eq, Structural, Debug)]
pub enum ErrorClass {
    NetworkTimeout,
    InvalidPrice,
    ContractError,
    LowLiquidity,
    ParseError,
    CircuitBreaker,
}

/// Classification is determined by the variant alone.
pub open spec fn spec_classify(e: &BotError) -> ErrorClass {
    match e {
        BotError::Network { .. } => ErrorClass::NetworkTimeout,
        BotError::PriceValidation { .. } => ErrorClass::InvalidPrice,
        BotError::Contract { .. } => ErrorClass::ContractError,
        BotError::InsufficientLiquidity { .. } => ErrorClass::LowLiquidity,
        BotError::DataParsing { .. } => ErrorClass::ParseError,
        BotError::CircuitBreakerOpen { .. } => ErrorClass::CircuitBreaker,
    }
}

/// Maps an error to its recovery classification.
pub fn classify_error(e: &BotError) -> (c: ErrorClass)
    ensures
        c == spec_classify(e),
{
    match e {
        BotError::Network { .. } => ErrorClass::NetworkTimeout,
        BotError::PriceValidation { .. } => ErrorClass::InvalidPrice,
        BotError::Contract { .. } => ErrorClass::ContractError,
        BotError::InsufficientLiquidity { .. } => ErrorClass::LowLiquidity,
        BotError::DataParsing { .. } => ErrorClass::ParseError,
        BotError::CircuitBreakerOpen { .. } => ErrorClass::CircuitBreaker,
    }
}

/// The classification's wire name, as the recovery table keys it.
pub fn class_name(c: ErrorClass) -> (s: &'static str)
    ensures
        c == ErrorClass::NetworkTimeout ==> s@ == "network_timeout"@,
        c == ErrorClass::InvalidPrice ==> s@ == "invalid_price"@,
        c == ErrorClass::ContractError ==> s@ == "contract_error"@,
        c == ErrorClass::LowLiquidity ==> s@ == "low_liquidity"@,
        c == ErrorClass::ParseError ==> s@ == "parse_error"@,
        c == ErrorClass::CircuitBreaker ==> s@ == "circuit_breaker"@,
{
    match c {
        ErrorClass::NetworkTimeout => "network_timeout",
        ErrorClass::InvalidPrice => "invalid_price",
        ErrorClass::ContractError => "contract_error",
        ErrorClass::LowLiquidity => "low_liquidity",
        ErrorClass::ParseError => "parse_error",
        ErrorClass::CircuitBreaker => "circuit_breaker",
    }
}

} // verus!
