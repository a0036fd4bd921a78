//! Arbitrage opportunity detection.
//!
//! A candidate exists once the DEX price diverges from the reference price
//! by at least 0.05%. Profit is the trade size times the absolute price
//! difference, less a fixed simulated gas cost; the return divides the net
//! profit by the position value at the reference price.

use vstd::prelude::*;
use vstd::math::abs;
use vstd::arithmetic::div_mod::lemma_div_is_ordered;
use vstd::arithmetic::mul::lemma_mul_inequality;
use crate::config::{MIN_TRADE_SIZE_ETH, MAX_TRADE_SIZE_ETH};
use crate::validation::ValidationResult;
use crate::volatility::{VolatilityMetrics, in_price_band};
use crate::execution::TradeExecution;
use crate::externals;

verus! {

/// Smallest divergence worth acting on: 0.05%, in micro-percent.
pub const MIN_DIVERGENCE_PCT_MICROS: u64 = 50_000;

/// Fixed simulated gas cost: $0.02, in micro-dollars.
pub const GAS_COST_USD_MICROS: u64 = 20_000;

/// One detected opportunity. Immutable once validated; the two optional
/// attachments are filled later in the same cycle.
#[derive(Clone, Debug)]
pub struct ArbitrageOpportunity {
    pub id: String,
    pub timestamp_ms: u64,
    pub pool: String,
    pub direction: String,
    pub dex_price: u64,
    pub cex_price: u64,
    pub price_diff_pct: u64,
    pub size_eth: u64,
    pub gross_profit_usd: u64,
    pub gas_cost_usd: u64,
    pub net_profit_usd: i64,
    pub roi_pct: i128,
    pub validation_checks: ValidationResult,
    pub volatility_assessment: Option<VolatilityMetrics>,
    pub execution_simulation: Option<TradeExecution>,
}

/// Absolute divergence between the two prices as a percentage of the
/// reference price, in micro-percent, truncated toward zero.
pub open spec fn spec_divergence_pct(dex: int, cex: int) -> int {
    (abs(dex - cex) as int) * 100_000_000 / cex
}

/// Gross profit: trade size times absolute price difference.
pub open spec fn spec_gross_profit(size: int, dex: int, cex: int) -> int {
    size * (abs(dex - cex) as int) / 1_000_000
}

/// Return on the position value, in micro-percent, truncated toward zero
/// (as the machine division rounds, also for a negative net profit).
pub open spec fn spec_roi_pct(net: int, size: int, cex: int) -> int {
    let position_value = size * cex / 1_000_000;
    if net >= 0 {
        net * 100_000_000 / position_value
    } else {
        -((-net) * 100_000_000 / position_value)
    }
}

/// Divergence grows with the absolute price difference: widening the gap
/// past the threshold can never turn a detected opportunity back into
/// none.
pub proof fn lemma_divergence_monotonic(dex1: int, dex2: int, cex: int)
    requires
        cex > 0,
        abs(dex1 - cex) <= abs(dex2 - cex),
    ensures
        spec_divergence_pct(dex1, cex) <= spec_divergence_pct(dex2, cex),
{
    lemma_mul_inequality(abs(dex1 - cex) as int, abs(dex2 - cex) as int, 100_000_000);
    lemma_div_is_ordered(
        (abs(dex1 - cex) as int) * 100_000_000,
        (abs(dex2 - cex) as int) * 100_000_000,
        cex,
    );
}

/// The detection law: once the divergence of `dex1` reaches the
/// threshold, any price at least as far from the reference also reaches
/// it — widening the gap never turns a detected opportunity back into
/// none.
pub proof fn lemma_detect_monotonic(dex1: int, dex2: int, cex: int)
    requires
        cex > 0,
        abs(dex1 - cex) <= abs(dex2 - cex),
        spec_divergence_pct(dex1, cex) >= MIN_DIVERGENCE_PCT_MICROS,
    ensures
        spec_divergence_pct(dex2, cex) >= MIN_DIVERGENCE_PCT_MICROS,
{
    lemma_divergence_monotonic(dex1, dex2, cex);
}

/// Computes the divergence of two in-band prices.
pub fn divergence_pct(dex_price: u64, cex_price: u64) -> (d: u64)
    requires
        in_price_band(dex_price),
        in_price_band(cex_price),
    ensures
        d == spec_divergence_pct(dex_price as int, cex_price as int),
        d <= 100_000_000_000,
{
    let diff: u64 = if dex_price >= cex_price {
        dex_price - cex_price
    } else {
        cex_price - dex_price
    };
    let scaled: u128 = (diff as u128) * 100_000_000;
    let pct: u128 = scaled / (cex_price as u128);
    proof {
        assert(diff <= 1000 * (cex_price as int));
        assert(scaled <= 100_000_000_000 * (cex_price as int)) by (nonlinear_arith)
            requires diff <= 1000 * (cex_price as int), scaled == (diff as int) * 100_000_000;
        lemma_div_is_ordered(scaled as int, 100_000_000_000 * (cex_price as int), cex_price as int);
        assert(100_000_000_000 * (cex_price as int) / (cex_price as int) == 100_000_000_000)
            by (nonlinear_arith)
            requires cex_price > 0;
    }
    pct as u64
}

/// Detects an arbitrage opportunity, or none while the divergence stays
/// under the threshold. Every accepted opportunity gets a fresh identity
/// and timestamp; its numeric fields are exactly the stated functions of
/// the inputs, its checks start all-false, and its attachments empty.
pub fn calculate_arbitrage(
    pool_name: &str,
    dex_price: u64,
    cex_price: u64,
    trade_size: u64,
) -> (r: Option<ArbitrageOpportunity>)
    requires
        in_price_band(dex_price),
        in_price_band(cex_price),
        MIN_TRADE_SIZE_ETH <= trade_size <= MAX_TRADE_SIZE_ETH,
    ensures
        r is Some <==> spec_divergence_pct(dex_price as int, cex_price as int)
            >= MIN_DIVERGENCE_PCT_MICROS,
        r matches Some(o) ==> {
            &&& o.pool@ == pool_name@
            &&& o.dex_price == dex_price
            &&& o.cex_price == cex_price
            &&& o.price_diff_pct == spec_divergence_pct(dex_price as int, cex_price as int)
            &&& o.size_eth == trade_size
            &&& o.gross_profit_usd == spec_gross_profit(
                trade_size as int,
                dex_price as int,
                cex_price as int,
            )
            &&& o.gas_cost_usd == GAS_COST_USD_MICROS
            &&& o.net_profit_usd == o.gross_profit_usd - GAS_COST_USD_MICROS
            &&& o.roi_pct == spec_roi_pct(
                o.net_profit_usd as int,
                trade_size as int,
                cex_price as int,
            )
            &&& (dex_price < cex_price ==> o.direction@ ==
            "Buy on Aerodrome -> Sell on Binance"@)
            &&& (dex_price >= cex_price ==> o.direction@ ==
            "Buy on Binance -> Sell on Aerodrome"@)
            &&& o.id@.len() == 36
            &&& !o.validation_checks.price_sanity
            &&& !o.validation_checks.liquidity_check
            &&& !o.validation_checks.gas_economics
            &&& !o.validation_checks.slippage_acceptable
            &&& !o.validation_checks.volatility_acceptable
            &&& !o.validation_checks.all_passed
            &&& o.validation_checks.warnings@.len() == 0
            &&& o.volatility_assessment is None
            &&& o.execution_simulation is None
        },
{
    let price_diff_pct = divergence_pct(dex_price, cex_price);
    if price_diff_pct < MIN_DIVERGENCE_PCT_MICROS {
        return None;
    }
    let diff: u64 = if dex_price >= cex_price {
        dex_price - cex_price
    } else {
        cex_price - dex_price
    };
    proof {
        assert((trade_size as int) * (diff as int) <= 10_000_000 * 100_000_000_000int)
            by (nonlinear_arith)
            requires trade_size <= 10_000_000, diff <= 100_000_000_000;
    }
    let gross: u128 = (trade_size as u128) * (diff as u128) / 1_000_000;
    let gross_profit_usd: u64 = gross as u64;
    let net_profit_usd: i64 = gross_profit_usd as i64 - GAS_COST_USD_MICROS as i64;
    proof {
        assert((trade_size as int) * (cex_price as int) >= 10_000 * 100_000_000int)
            by (nonlinear_arith)
            requires trade_size >= 10_000, cex_price >= 100_000_000;
        assert((trade_size as int) * (cex_price as int) <= 10_000_000 * 100_000_000_000int)
            by (nonlinear_arith)
            requires trade_size <= 10_000_000, cex_price <= 100_000_000_000;
    }
    let position_value: u128 = (trade_size as u128) * (cex_price as u128) / 1_000_000;
    let roi_pct: i128 = if net_profit_usd >= 0 {
        (((net_profit_usd as u64) as u128 * 100_000_000) / position_value) as i128
    } else {
        -((((-net_profit_usd) as u64 as u128 * 100_000_000) / position_value) as i128)
    };
    let direction: String = if dex_price < cex_price {
        buy_dex_direction()
    } else {
        buy_cex_direction()
    };
    Some(
        ArbitrageOpportunity {
            id: externals::fresh_id(),
            timestamp_ms: externals::current_time_ms(),
            pool: pool_name.to_owned(),
            direction,
            dex_price,
            cex_price,
            price_diff_pct,
            size_eth: trade_size,
            gross_profit_usd,
            gas_cost_usd: GAS_COST_USD_MICROS,
            net_profit_usd,
            roi_pct,
            validation_checks: ValidationResult::default(),
            volatility_assessment: None,
            execution_simulation: None,
        },
    )
}

fn buy_dex_direction() -> (s: String)
    ensures
        s@ == "Buy on Aerodrome -> Sell on Binance"@,
{
    "Buy on Aerodrome -> Sell on Binance".to_owned()
}

fn buy_cex_direction() -> (s: String)
    ensures
        s@ == "Buy on Binance -> Sell on Aerodrome"@,
{
    "Buy on Binance -> Sell on Aerodrome".to_owned()
}

} // verus!
