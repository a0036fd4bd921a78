//! Classification-driven error recovery.
//!
//! A static table maps each error classification to a strategy; a
//! per-classification occurrence counter decides when a retry strategy is
//! exhausted and escalates instead.

use vstd::prelude::*;
use crate::errors::{BotError, ErrorClass, spec_classify, classify_error};

verus! {

/// Log severity, mirroring the tiers of the tracing facade.
#[derive(Clone, Copy, PartialEq, Eq, Structural, Debug)]
pub enum LogLevel {
    Error,
    Warn,
    Info,
    Debug,
    Trace,
}

/// Configured response to a classification.
#[derive(Clone, Debug)]
pub enum RecoveryStrategy {
    Retry { max_attempts: u32, delay_ms: u64 },
    Fallback { alternative_source: String },
    Skip { log_level: LogLevel },
    Shutdown { reason: String },
}

/// Dispatched response to one observed error.
#[derive(Clone, Debug)]
pub enum RecoveryAction {
    Retry { delay_ms: u64 },
    Fallback { source: String },
    Skip { log_level: LogLevel },
    Escalate,
    Shutdown { reason: String },
}

/// Occurrences seen so far, one saturating counter per classification.
#[derive(Clone, Copy, PartialEq, Eq, Structural, Debug)]
pub struct ErrorCounts {
    pub network_timeout: u32,
    pub invalid_price: u32,
    pub contract_error: u32,
    pub low_liquidity: u32,
    pub parse_error: u32,
    pub circuit_breaker: u32,
}

pub open spec fn spec_count_of(c: ErrorCounts, class: ErrorClass) -> u32 {
    match class {
        ErrorClass::NetworkTimeout => c.network_timeout,
        ErrorClass::InvalidPrice => c.invalid_price,
        ErrorClass::ContractError => c.contract_error,
        ErrorClass::LowLiquidity => c.low_liquidity,
        ErrorClass::ParseError => c.parse_error,
        ErrorClass::CircuitBreaker => c.circuit_breaker,
    }
}

pub open spec fn spec_bump(n: u32) -> u32 {
    if n == u32::MAX {
        n
    } else {
        (n + 1) as u32
    }
}

/// Counts after one more observation of `class`.
pub open spec fn spec_bumped(c: ErrorCounts, class: ErrorClass) -> ErrorCounts {
    match class {
        ErrorClass::NetworkTimeout => ErrorCounts {
            network_timeout: spec_bump(c.network_timeout),
            ..c
        },
        ErrorClass::InvalidPrice => ErrorCounts { invalid_price: spec_bump(c.invalid_price), ..c },
        ErrorClass::ContractError => ErrorCounts {
            contract_error: spec_bump(c.contract_error),
            ..c
        },
        ErrorClass::LowLiquidity => ErrorCounts { low_liquidity: spec_bump(c.low_liquidity), ..c },
        ErrorClass::ParseError => ErrorCounts { parse_error: spec_bump(c.parse_error), ..c },
        ErrorClass::CircuitBreaker => ErrorCounts {
            circuit_breaker: spec_bump(c.circuit_breaker),
            ..c
        },
    }
}

/// The recovery table and its occurrence counters.
pub struct ErrorRecovery {
    counts: ErrorCounts,
}

impl ErrorRecovery {
    /// Occurrence counters seen so far.
    pub closed spec fn counts(&self) -> ErrorCounts {
        self.counts
    }

    pub fn new() -> (r: Self)
        ensures
            r.counts() == (ErrorCounts {
                network_timeout: 0,
                invalid_price: 0,
                contract_error: 0,
                low_liquidity: 0,
                parse_error: 0,
                circuit_breaker: 0,
            }),
    {
        ErrorRecovery {
            counts: ErrorCounts {
                network_timeout: 0,
                invalid_price: 0,
                contract_error: 0,
                low_liquidity: 0,
                parse_error: 0,
                circuit_breaker: 0,
            },
        }
    }

    /// The static table: network timeouts retry five times at one second,
    /// invalid prices are skipped with a warning, contract errors fall back
    /// to the backup pool, and every other classification escalates.
    /// Counts the observation, then dispatches; a retry strategy whose
    /// occurrence count has passed its attempt budget escalates instead.
    pub fn handle_error(&mut self, error: &BotError) -> (action: RecoveryAction)
        ensures
            final(self).counts() == spec_bumped(old(self).counts(), spec_classify(error)),
            ({
                let class = spec_classify(error);
                let seen = spec_count_of(final(self).counts(), class);
                match class {
                    ErrorClass::NetworkTimeout => if seen <= 5 {
                        action matches RecoveryAction::Retry { delay_ms } && delay_ms == 1000
                    } else {
                        action is Escalate
                    },
                    ErrorClass::InvalidPrice => action matches RecoveryAction::Skip { log_level }
                        && log_level == LogLevel::Warn,
                    ErrorClass::ContractError => action matches RecoveryAction::Fallback { source }
                        && source@ == "backup_pool"@,
                    _ => action is Escalate,
                }
            }),
    {
        let class = classify_error(error);
        let seen: u32 = match class {
            ErrorClass::NetworkTimeout => {
                self.counts.network_timeout = bump(self.counts.network_timeout);
                self.counts.network_timeout
            },
            ErrorClass::InvalidPrice => {
                self.counts.invalid_price = bump(self.counts.invalid_price);
                self.counts.invalid_price
            },
            ErrorClass::ContractError => {
                self.counts.contract_error = bump(self.counts.contract_error);
                self.counts.contract_error
            },
            ErrorClass::LowLiquidity => {
                self.counts.low_liquidity = bump(self.counts.low_liquidity);
                self.counts.low_liquidity
            },
            ErrorClass::ParseError => {
                self.counts.parse_error = bump(self.counts.parse_error);
                self.counts.parse_error
            },
            ErrorClass::CircuitBreaker => {
                self.counts.circuit_breaker = bump(self.counts.circuit_breaker);
                self.counts.circuit_breaker
            },
        };
        match class {
            ErrorClass::NetworkTimeout => {
                if seen <= 5 {
                    RecoveryAction::Retry { delay_ms: 1000 }
                } else {
                    RecoveryAction::Escalate
                }
            },
            ErrorClass::InvalidPrice => RecoveryAction::Skip { log_level: LogLevel::Warn },
            ErrorClass::ContractError => RecoveryAction::Fallback {
                source: "backup_pool".to_owned(),
            },
            _ => RecoveryAction::Escalate,
        }
    }

    /// Total observations across all classifications, for health warnings.
    pub fn total_errors(&self) -> (t: u64)
        ensures
            t == self.counts().network_timeout + self.counts().invalid_price
                + self.counts().contract_error + self.counts().low_liquidity
                + self.counts().parse_error + self.counts().circuit_breaker,
    {
        self.counts.network_timeout as u64 + self.counts.invalid_price as u64
            + self.counts.contract_error as u64 + self.counts.low_liquidity as u64
            + self.counts.parse_error as u64 + self.counts.circuit_breaker as u64
    }
}

fn bump(n: u32) -> (r: u32)
    ensures
        r == spec_bump(n),
{
    if n == u32::MAX {
        n
    } else {
        n + 1
    }
}

} // verus!
