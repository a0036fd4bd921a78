//! Process-wide configuration, fixed after startup.
//!
//! All monetary and ratio fields are micro-unit fixed-point values. The
//! raw overrides (environment text, command line) are read and parsed at
//! the process edge; this module only applies defaults and clamps.

use vstd::prelude::*;

verus! {

pub const MIN_TRADE_SIZE_ETH: u64 = 10_000;  // 0.01 ETH

pub const MAX_TRADE_SIZE_ETH: u64 = 10_000_000;  // 10 ETH

pub const MIN_PROFIT_USD: u64 = 100_000;  // $0.10

pub const MAX_SLIPPAGE_BPS: u32 = 100;  // 1%

pub const PRICE_STALENESS_SECONDS: u64 = 10;

/// 10%: largest accepted DEX/CEX divergence, micro-percent.
pub const MAX_PRICE_DEVIATION_PCT_MICROS: u64 = 10_000_000;

pub const DEFAULT_SPREAD_BPS: u32 = 30;  // 0.3%

pub const MIN_SPREAD_BPS: u32 = 10;  // 0.1%

pub const MAX_SPREAD_BPS: u32 = 200;  // 2%

pub const DEFAULT_GAS_PRICE_GWEI: u32 = 50;

pub const MAX_GAS_PRICE_GWEI: u32 = 200;

pub const EXECUTION_TIMEOUT_SECS: u64 = 30;

/// Largest configurable position, in micro-ETH (1000 ETH): keeps the
/// position arithmetic inside the fixed-point range.
pub const MAX_POSITION_CAP_ETH: u64 = 1_000_000_000;

/// Largest configurable volatility threshold, micro-percent.
pub const VOLATILITY_THRESHOLD_CAP: u64 = 1_000_000_000_000;

/// Largest configurable volatility spread multiplier, micro-units (100x).
pub const VOLATILITY_MULTIPLIER_CAP: u64 = 100_000_000;

pub open spec fn spec_clamp_u64(v: int, lo: int, hi: int) -> int {
    if v < lo {
        lo
    } else if v > hi {
        hi
    } else {
        v
    }
}

pub open spec fn spec_clamp_u32(v: int, lo: int, hi: int) -> int {
    spec_clamp_u64(v, lo, hi)
}

#[derive(Clone, Debug)]
pub struct Config {
    pub trade_size_eth: u64,
    pub min_profit_usd: u64,
    pub max_consecutive_errors: u32,
    pub circuit_breaker_cooldown_secs: u64,
    pub enable_safety_checks: bool,
    pub enable_market_making: bool,
    pub base_spread_bps: u32,
    pub max_position_size_eth: u64,
    pub inventory_target_ratio: u64,
    pub rebalance_threshold: u64,
    pub enable_trade_execution: bool,
    pub network: String,
    pub execution_network: String,
    pub max_gas_price_gwei: u32,
    pub slippage_tolerance_bps: u32,
    pub volatility_threshold: u64,
    pub volatility_spread_multiplier: u64,
}

impl Config {
    /// Every field inside the bounds that the strategy arithmetic needs.
    pub open spec fn wf(&self) -> bool {
        &&& MIN_TRADE_SIZE_ETH <= self.trade_size_eth <= MAX_TRADE_SIZE_ETH
        &&& MIN_PROFIT_USD <= self.min_profit_usd
        &&& 1 <= self.max_consecutive_errors
        &&& self.circuit_breaker_cooldown_secs <= 0xffff_ffff
        &&& MIN_SPREAD_BPS <= self.base_spread_bps <= MAX_SPREAD_BPS
        &&& 0 < self.max_position_size_eth <= MAX_POSITION_CAP_ETH
        &&& self.inventory_target_ratio <= 1_000_000
        &&& self.rebalance_threshold <= 1_000_000
        &&& self.max_gas_price_gwei <= MAX_GAS_PRICE_GWEI
        &&& self.slippage_tolerance_bps <= MAX_SLIPPAGE_BPS
        &&& self.volatility_threshold <= VOLATILITY_THRESHOLD_CAP
        &&& self.volatility_spread_multiplier <= VOLATILITY_MULTIPLIER_CAP
    }

    /// Builds the configuration from optional overrides, applying the
    /// defaults and clamps; an absent or out-of-range override falls back
    /// exactly as the ensures state.
    pub fn from_overrides(
        trade_size_eth: Option<u64>,
        min_profit_usd: Option<u64>,
        enable_safety_checks: Option<bool>,
        enable_market_making: Option<bool>,
        base_spread_bps: Option<u32>,
        max_position_size_eth: Option<u64>,
        inventory_target_ratio: Option<u64>,
        rebalance_threshold: Option<u64>,
        enable_trade_execution: Option<bool>,
        network: Option<String>,
        execution_network: Option<String>,
        max_gas_price_gwei: Option<u32>,
        slippage_tolerance_bps: Option<u32>,
        volatility_threshold: Option<u64>,
        volatility_spread_multiplier: Option<u64>,
    ) -> (c: Config)
        ensures
            c.wf(),
            c.trade_size_eth == spec_clamp_u64(
                match trade_size_eth {
                    Some(v) => v as int,
                    None => 100_000,
                },
                MIN_TRADE_SIZE_ETH as int,
                MAX_TRADE_SIZE_ETH as int,
            ),
            c.min_profit_usd == ({
                let v = match min_profit_usd {
                    Some(v) => v as int,
                    None => 500_000,
                };
                if v < MIN_PROFIT_USD {
                    MIN_PROFIT_USD as int
                } else {
                    v
                }
            }),
            c.max_consecutive_errors == 5,
            c.circuit_breaker_cooldown_secs == 300,
            c.enable_safety_checks == (match enable_safety_checks {
                Some(b) => b,
                None => true,
            }),
            c.enable_market_making == (match enable_market_making {
                Some(b) => b,
                None => true,
            }),
            c.base_spread_bps == spec_clamp_u32(
                match base_spread_bps {
                    Some(v) => v as int,
                    None => DEFAULT_SPREAD_BPS as int,
                },
                MIN_SPREAD_BPS as int,
                MAX_SPREAD_BPS as int,
            ),
            c.max_position_size_eth == spec_clamp_u64(
                match max_position_size_eth {
                    Some(v) => v as int,
                    None => 5_000_000,
                },
                1,
                MAX_POSITION_CAP_ETH as int,
            ),
            c.inventory_target_ratio == spec_clamp_u64(
                match inventory_target_ratio {
                    Some(v) => v as int,
                    None => 500_000,
                },
                0,
                1_000_000,
            ),
            c.rebalance_threshold == spec_clamp_u64(
                match rebalance_threshold {
                    Some(v) => v as int,
                    None => 100_000,
                },
                0,
                1_000_000,
            ),
            c.enable_trade_execution == (match enable_trade_execution {
                Some(b) => b,
                None => false,
            }),
            network matches Some(n) ==> c.network@ == n@,
            network is None ==> c.network@ == "mainnet"@,
            execution_network matches Some(n) ==> c.execution_network@ == n@,
            execution_network is None ==> c.execution_network@ == "sepolia"@,
            c.max_gas_price_gwei == ({
                let v = match max_gas_price_gwei {
                    Some(v) => v as int,
                    None => DEFAULT_GAS_PRICE_GWEI as int,
                };
                if v > MAX_GAS_PRICE_GWEI {
                    MAX_GAS_PRICE_GWEI as int
                } else {
                    v
                }
            }),
            c.slippage_tolerance_bps == ({
                let v = match slippage_tolerance_bps {
                    Some(v) => v as int,
                    None => 50,
                };
                if v > MAX_SLIPPAGE_BPS {
                    MAX_SLIPPAGE_BPS as int
                } else {
                    v
                }
            }),
            c.volatility_threshold == spec_clamp_u64(
                match volatility_threshold {
                    Some(v) => v as int,
                    None => 5_000_000,
                },
                0,
                VOLATILITY_THRESHOLD_CAP as int,
            ),
            c.volatility_spread_multiplier == spec_clamp_u64(
                match volatility_spread_multiplier {
                    Some(v) => v as int,
                    None => 2_000_000,
                },
                0,
                VOLATILITY_MULTIPLIER_CAP as int,
            ),
    {
        let trade_size = clamp_u64(
            match trade_size_eth {
                Some(v) => v,
                None => 100_000,
            },
            MIN_TRADE_SIZE_ETH,
            MAX_TRADE_SIZE_ETH,
        );
        let min_profit = {
            let v = match min_profit_usd {
                Some(v) => v,
                None => 500_000,
            };
            if v < MIN_PROFIT_USD {
                MIN_PROFIT_USD
            } else {
                v
            }
        };
        Config {
            trade_size_eth: trade_size,
            min_profit_usd: min_profit,
            max_consecutive_errors: 5,
            circuit_breaker_cooldown_secs: 300,
            enable_safety_checks: match enable_safety_checks {
                Some(b) => b,
                None => true,
            },
            enable_market_making: match enable_market_making {
                Some(b) => b,
                None => true,
            },
            base_spread_bps: clamp_u32(
                match base_spread_bps {
                    Some(v) => v,
                    None => DEFAULT_SPREAD_BPS,
                },
                MIN_SPREAD_BPS,
                MAX_SPREAD_BPS,
            ),
            max_position_size_eth: clamp_u64(
                match max_position_size_eth {
                    Some(v) => v,
                    None => 5_000_000,
                },
                1,
                MAX_POSITION_CAP_ETH,
            ),
            inventory_target_ratio: clamp_u64(
                match inventory_target_ratio {
                    Some(v) => v,
                    None => 500_000,
                },
                0,
                1_000_000,
            ),
            rebalance_threshold: clamp_u64(
                match rebalance_threshold {
                    Some(v) => v,
                    None => 100_000,
                },
                0,
                1_000_000,
            ),
            enable_trade_execution: match enable_trade_execution {
                Some(b) => b,
                None => false,
            },
            network: match network {
                Some(n) => n,
                None => mainnet_name(),
            },
            execution_network: match execution_network {
                Some(n) => n,
                None => sepolia_name(),
            },
            max_gas_price_gwei: {
                let v = match max_gas_price_gwei {
                    Some(v) => v,
                    None => DEFAULT_GAS_PRICE_GWEI,
                };
                if v > MAX_GAS_PRICE_GWEI {
                    MAX_GAS_PRICE_GWEI
                } else {
                    v
                }
            },
            slippage_tolerance_bps: {
                let v = match slippage_tolerance_bps {
                    Some(v) => v,
                    None => 50,
                };
                if v > MAX_SLIPPAGE_BPS {
                    MAX_SLIPPAGE_BPS
                } else {
                    v
                }
            },
            volatility_threshold: clamp_u64(
                match volatility_threshold {
                    Some(v) => v,
                    None => 5_000_000,
                },
                0,
                VOLATILITY_THRESHOLD_CAP,
            ),
            volatility_spread_multiplier: clamp_u64(
                match volatility_spread_multiplier {
                    Some(v) => v,
                    None => 2_000_000,
                },
                0,
                VOLATILITY_MULTIPLIER_CAP,
            ),
        }
    }
}

fn clamp_u64(v: u64, lo: u64, hi: u64) -> (r: u64)
    requires
        lo <= hi,
    ensures
        r == spec_clamp_u64(v as int, lo as int, hi as int),
{
    if v < lo {
        lo
    } else if v > hi {
        hi
    } else {
        v
    }
}

fn clamp_u32(v: u32, lo: u32, hi: u32) -> (r: u32)
    requires
        lo <= hi,
    ensures
        r == spec_clamp_u32(v as int, lo as int, hi as int),
{
    if v < lo {
        lo
    } else if v > hi {
        hi
    } else {
        v
    }
}

fn mainnet_name() -> (s: String)
    ensures
        s@ == "mainnet"@,
{
    "mainnet".to_owned()
}

fn sepolia_name() -> (s: String)
    ensures
        s@ == "sepolia"@,
{
    "sepolia".to_owned()
}

} // verus!
