//! Simulated trade execution.
//!
//! The simulation draws a success outcome whose odds fall with volatility,
//! models slippage the same way, and builds the execution record; the
//! caller supplies the fresh identifier and the measured elapsed time.

use vstd::prelude::*;
use crate::arbitrage::ArbitrageOpportunity;
use crate::externals;
use crate::volatility::{VolatilityImpact, VolatilityMetrics};

verus! {

#[derive(Clone, Copy, PartialEq, Eq, Structural, Debug)]
pub enum TradeType {
    BuyDexSellCex,
    BuyCexSellDex,
}

#[derive(Clone, Copy, PartialEq, Eq, Structural, Debug)]
pub enum ExecutionStatus {
    Simulated,
    Success,
    Failed,
}

/// Record of one simulated or attempted execution.
#[derive(Clone, Debug)]
pub struct TradeExecution {
    pub id: String,
    pub opportunity_id: String,
    pub timestamp_ms: u64,
    pub network: String,
    pub trade_type: TradeType,
    pub status: ExecutionStatus,
    pub tx_hash: Option<String>,
    pub gas_used: Option<u64>,
    pub gas_price_gwei_micros: Option<u64>,
    pub execution_time_ms: u64,
    pub expected_profit_usd: i64,
    pub actual_profit_usd: Option<i64>,
    pub slippage_bps: Option<u32>,
    pub error_message: Option<String>,
}

/// Buying on the DEX pays off when its price is below the reference.
pub open spec fn spec_trade_type(dex: int, cex: int) -> TradeType {
    if dex < cex {
        TradeType::BuyDexSellCex
    } else {
        TradeType::BuyCexSellDex
    }
}

/// Added network latency the simulation models, by impact tier.
pub open spec fn spec_simulated_latency_ms(i: VolatilityImpact) -> u64 {
    match i {
        VolatilityImpact::Low => 100,
        VolatilityImpact::Moderate => 150,
        VolatilityImpact::High => 250,
        VolatilityImpact::Extreme => 400,
    }
}

/// Success odds in micro-units, by impact tier: 95%, 85%, 70%, 50%.
pub open spec fn spec_success_rate_micros(i: VolatilityImpact) -> u64 {
    match i {
        VolatilityImpact::Low => 950_000,
        VolatilityImpact::Moderate => 850_000,
        VolatilityImpact::High => 700_000,
        VolatilityImpact::Extreme => 500_000,
    }
}

/// Simulated slippage in whole bps: a 25 bps base plus a volatility
/// surcharge.
pub open spec fn spec_simulated_slippage_bps(i: VolatilityImpact) -> u32 {
    match i {
        VolatilityImpact::Low => 25,
        VolatilityImpact::Moderate => 50,
        VolatilityImpact::High => 100,
        VolatilityImpact::Extreme => 175,
    }
}

/// Profit left after the simulated slippage shaves its share off.
pub open spec fn spec_profit_after_slippage(net: int, slippage_bps: int) -> int {
    net * (1_000_000 - slippage_bps * 100) / 1_000_000
}

/// Latency the simulation would add before answering, for the caller to
/// wait out.
pub fn simulated_latency_ms(metrics: &VolatilityMetrics) -> (l: u64)
    ensures
        l == spec_simulated_latency_ms(metrics.impact_assessment),
{
    match metrics.impact_assessment {
        VolatilityImpact::Low => 100,
        VolatilityImpact::Moderate => 150,
        VolatilityImpact::High => 250,
        VolatilityImpact::Extreme => 400,
    }
}

/// Builds the record of one simulated execution. The success draw is
/// random, so the contract states what holds of both outcomes: a success
/// reports the volatility-scaled slippage and the correspondingly reduced
/// profit with a fresh pseudo transaction hash; a failure reports the
/// fixed failure message and nothing else.
pub fn create_simulated_execution(
    execution_id: String,
    opportunity: &ArbitrageOpportunity,
    volatility_metrics: &VolatilityMetrics,
    elapsed_ms: u64,
) -> (r: TradeExecution)
    requires
        opportunity.net_profit_usd >= 0,
    ensures
        r.id@ == execution_id@,
        r.opportunity_id@ == opportunity.id@,
        r.network@ == "Base Sepolia"@,
        r.trade_type == spec_trade_type(opportunity.dex_price as int, opportunity.cex_price as int),
        r.status == ExecutionStatus::Simulated || r.status == ExecutionStatus::Failed,
        r.gas_used == Some(156_000u64),
        r.gas_price_gwei_micros == Some(120_000u64),
        r.execution_time_ms == elapsed_ms,
        r.expected_profit_usd == opportunity.net_profit_usd,
        r.status == ExecutionStatus::Simulated ==> {
            &&& r.slippage_bps == Some(
                spec_simulated_slippage_bps(volatility_metrics.impact_assessment),
            )
            &&& r.actual_profit_usd matches Some(p) && p == spec_profit_after_slippage(
                opportunity.net_profit_usd as int,
                spec_simulated_slippage_bps(volatility_metrics.impact_assessment) as int,
            )
            &&& r.tx_hash matches Some(h) && h@.len() == 34
            &&& r.error_message is None
        },
        r.status == ExecutionStatus::Failed ==> {
            &&& r.slippage_bps is None
            &&& r.actual_profit_usd is None
            &&& r.tx_hash is None
            &&& r.error_message matches Some(m) && m@ ==
            "Simulated failure due to high volatility"@
        },
{
    let success_rate: u64 = match volatility_metrics.impact_assessment {
        VolatilityImpact::Low => 950_000,
        VolatilityImpact::Moderate => 850_000,
        VolatilityImpact::High => 700_000,
        VolatilityImpact::Extreme => 500_000,
    };
    let draw = externals::random_fraction_micros();
    let is_successful = draw < success_rate;

    let total_slippage_bps: u32 = match volatility_metrics.impact_assessment {
        VolatilityImpact::Low => 25,
        VolatilityImpact::Moderate => 50,
        VolatilityImpact::High => 100,
        VolatilityImpact::Extreme => 175,
    };
    let keep_micros: u64 = 1_000_000 - (total_slippage_bps as u64) * 100;
    proof {
        let ghost n: int = opportunity.net_profit_usd as int;
        assert(opportunity.net_profit_usd as u64 == n);
        assert(0 <= n * (keep_micros as int) <= n * 1_000_000) by (nonlinear_arith)
            requires 0 <= n, keep_micros <= 1_000_000;
        assert(n * (keep_micros as int) / 1_000_000 <= n) by (nonlinear_arith)
            requires 0 <= n * (keep_micros as int) <= n * 1_000_000, 0 <= n;
    }
    let actual_profit: i64 = (((opportunity.net_profit_usd as u64 as u128) * (keep_micros as u128))
        / 1_000_000) as i64;

    TradeExecution {
        id: execution_id,
        opportunity_id: clone_string(&opportunity.id),
        timestamp_ms: externals::current_time_ms(),
        network: base_sepolia_name(),
        trade_type: if opportunity.dex_price < opportunity.cex_price {
            TradeType::BuyDexSellCex
        } else {
            TradeType::BuyCexSellDex
        },
        status: if is_successful {
            ExecutionStatus::Simulated
        } else {
            ExecutionStatus::Failed
        },
        tx_hash: if is_successful {
            Some(externals::fresh_simulated_tx_hash())
        } else {
            None
        },
        gas_used: Some(156_000),
        gas_price_gwei_micros: Some(120_000),
        execution_time_ms: elapsed_ms,
        expected_profit_usd: opportunity.net_profit_usd,
        actual_profit_usd: if is_successful {
            Some(actual_profit)
        } else {
            None
        },
        slippage_bps: if is_successful {
            Some(total_slippage_bps)
        } else {
            None
        },
        error_message: if is_successful {
            None
        } else {
            Some(("Simulated failure due to high volatility").to_owned())
        },
    }
}

/// Builds the record of an execution attempt that failed outright,
/// carrying the reported error message.
pub fn create_failed_execution(
    execution_id: String,
    opportunity: &ArbitrageOpportunity,
    elapsed_ms: u64,
    error: String,
) -> (r: TradeExecution)
    ensures
        r.id@ == execution_id@,
        r.opportunity_id@ == opportunity.id@,
        r.network@ == "Base Sepolia"@,
        r.trade_type == spec_trade_type(opportunity.dex_price as int, opportunity.cex_price as int),
        r.status == ExecutionStatus::Failed,
        r.tx_hash is None,
        r.gas_used is None,
        r.gas_price_gwei_micros is None,
        r.execution_time_ms == elapsed_ms,
        r.expected_profit_usd == opportunity.net_profit_usd,
        r.actual_profit_usd is None,
        r.slippage_bps is None,
        r.error_message matches Some(m) && m@ == error@,
{
    TradeExecution {
        id: execution_id,
        opportunity_id: clone_string(&opportunity.id),
        timestamp_ms: externals::current_time_ms(),
        network: base_sepolia_name(),
        trade_type: if opportunity.dex_price < opportunity.cex_price {
            TradeType::BuyDexSellCex
        } else {
            TradeType::BuyCexSellDex
        },
        status: ExecutionStatus::Failed,
        tx_hash: None,
        gas_used: None,
        gas_price_gwei_micros: None,
        execution_time_ms: elapsed_ms,
        expected_profit_usd: opportunity.net_profit_usd,
        actual_profit_usd: None,
        slippage_bps: None,
        error_message: Some(error),
    }
}

fn base_sepolia_name() -> (s: String)
    ensures
        s@ == "Base Sepolia"@,
{
    "Base Sepolia".to_owned()
}

fn clone_string(s: &String) -> (r: String)
    ensures
        r@ == s@,
{
    s.clone()
}

} // verus!
