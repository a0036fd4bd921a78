//! Market-making signal generation with volatility adaptation.
//!
//! Every step is a pure function of its inputs: market-condition
//! classification, a simulated inventory analysis, the dynamic spread,
//! position sizing, strategy selection, risk metrics and the execution
//! priority. The engine feeds them from its own volatility tracker and
//! keeps the most recent signal per pool.

use vstd::prelude::*;
use vstd::string::StringExecFns;
use crate::arbitrage::spec_divergence_pct;
use crate::config::{Config, MIN_SPREAD_BPS, MAX_SPREAD_BPS, MIN_TRADE_SIZE_ETH,
    MAX_POSITION_CAP_ETH};
use crate::externals;
use crate::fixed::mul_div_u64;
use crate::math::lemma_mul_div_le;
use crate::pools::PoolInfo;
use crate::text::{micros_to_string, spec_micros_str};
use crate::volatility::{VolatilityMetrics, VolatilityImpact, VolatilityTrend, ExecutionUrgency,
    MultiTimeframeVolatilityCalculator, in_price_band, spec_metrics, pct_or_zero};

verus! {

#[derive(Clone, Copy, PartialEq, Eq, Structural, Debug)]
pub enum InventoryImbalance {
    Balanced,
    SlightlyLong,
    SlightlyShort,
    SignificantlyLong,
    SignificantlyShort,
    CriticallyImbalanced,
}

#[derive(Clone, Copy, PartialEq, Eq, Structural, Debug)]
pub enum MarketTrend {
    Bullish,
    Bearish,
    Sideways,
}

#[derive(Clone, Copy, PartialEq, Eq, Structural, Debug)]
pub enum SpreadEnvironment {
    Tight,
    Normal,
    Wide,
    VeryWide,
}

#[derive(Clone, Copy, PartialEq, Eq, Structural, Debug)]
pub enum VolumeProfile {
    Low,
    Normal,
    High,
}

#[derive(Clone, Copy, PartialEq, Eq, Structural, Debug)]
pub enum DepthQuality {
    Excellent,
    Good,
    Fair,
    Poor,
}

#[derive(Clone, Copy, PartialEq, Eq, Structural, Debug)]
pub enum StrategyType {
    TightSpread,
    WideSpread,
    InventoryManagement,
    TrendFollowing,
    VolatilityAdaptive,
}

#[derive(Clone, Copy, PartialEq, Eq, Structural, Debug)]
pub enum RiskLevel {
    Conservative,
    Moderate,
    Aggressive,
    Speculative,
}

#[derive(Clone, Copy, PartialEq, Eq, Structural, Debug)]
pub enum ExecutionPriority {
    Immediate,
    High,
    Medium,
    Low,
    Hold,
}

/// Snapshot of a pool's depth: reserves in micro-units, the USD total and
/// a quality tier. Supplied per query, never cached.
#[derive(Clone, Copy, PartialEq, Eq, Structural, Debug)]
pub struct LiquidityDepth {
    pub total_liquidity_usd: u64,
    pub weth_reserves: u64,
    pub usd_reserves: u64,
    pub depth_quality: DepthQuality,
}

/// Simulated book: balances, the base-asset ratio against its target, and
/// the rebalance decision. All micro-units; the rebalance amount is
/// signed (positive buys the base asset).
#[derive(Clone, Copy, PartialEq, Eq, Structural, Debug)]
pub struct InventoryAnalysis {
    pub current_weth_balance: u64,
    pub current_usd_balance: u64,
    pub total_value_usd: u64,
    pub weth_ratio: u64,
    pub target_weth_ratio: u64,
    pub imbalance_severity: InventoryImbalance,
    pub rebalance_needed: bool,
    pub rebalance_amount_eth: i64,
}

#[derive(Clone, Copy, PartialEq, Eq, Structural, Debug)]
pub struct MarketConditions {
    pub price_volatility_1h: u64,
    pub liquidity_depth: LiquidityDepth,
    pub spread_environment: SpreadEnvironment,
    pub market_trend: MarketTrend,
    pub volume_profile: VolumeProfile,
}

#[derive(Clone, Copy, PartialEq, Eq, Structural, Debug)]
pub struct RangeBounds {
    pub lower_bound: u64,
    pub upper_bound: u64,
    pub confidence_interval: u64,
}

#[derive(Clone, Copy, PartialEq, Eq, Structural, Debug)]
pub struct LiquidityStrategy {
    pub strategy_type: StrategyType,
    pub bid_size_eth: u64,
    pub ask_size_eth: u64,
    pub range_bounds: RangeBounds,
    pub duration_estimate_secs: u64,
    pub expected_daily_volume: u64,
    pub risk_level: RiskLevel,
}

/// Risk scores are micro-units on a 0..100 scale (so 100% is
/// 100,000,000).
#[derive(Clone, Copy, PartialEq, Eq, Structural, Debug)]
pub struct RiskMetrics {
    pub max_drawdown_usd: u64,
    pub value_at_risk_1d: u64,
    pub inventory_risk_score: u64,
    pub liquidity_risk_score: u64,
    pub volatility_risk_score: u64,
    pub overall_risk_score: u64,
    pub recommended_max_exposure: u64,
}

/// One market-making decision, immutable once built.
#[derive(Clone, Debug)]
pub struct MarketMakingSignal {
    pub id: String,
    pub timestamp_ms: u64,
    pub pool: String,
    pub fair_value_price: u64,
    pub current_pool_price: u64,
    pub target_bid_price: u64,
    pub target_ask_price: u64,
    pub effective_spread_bps: u32,
    pub position_size_eth: u64,
    pub inventory_analysis: InventoryAnalysis,
    pub market_conditions: MarketConditions,
    pub strategy: LiquidityStrategy,
    pub risk_metrics: RiskMetrics,
    pub volatility_metrics: VolatilityMetrics,
    pub execution_priority: ExecutionPriority,
    pub rationale: String,
}

/// Spread environment from the percentage gap between pool price and fair
/// value: tight under 0.2%, normal under 0.5%, wide under 1%, very wide
/// beyond.
pub open spec fn spec_spread_environment(price_diff_pct: int) -> SpreadEnvironment {
    if price_diff_pct < 200_000 {
        SpreadEnvironment::Tight
    } else if price_diff_pct < 500_000 {
        SpreadEnvironment::Normal
    } else if price_diff_pct < 1_000_000 {
        SpreadEnvironment::Wide
    } else {
        SpreadEnvironment::VeryWide
    }
}

/// Trend from a 0.2% band around fair value.
pub open spec fn spec_market_trend(current: int, fair: int) -> MarketTrend {
    if current * 1000 > fair * 1002 {
        MarketTrend::Bullish
    } else if current * 1000 < fair * 998 {
        MarketTrend::Bearish
    } else {
        MarketTrend::Sideways
    }
}

/// Volume profile from the total USD liquidity: over $1M high, over $100k
/// normal, low otherwise.
pub open spec fn spec_volume_profile(total_liquidity_usd: int) -> VolumeProfile {
    if total_liquidity_usd > 1_000_000_000_000 {
        VolumeProfile::High
    } else if total_liquidity_usd > 100_000_000_000 {
        VolumeProfile::Normal
    } else {
        VolumeProfile::Low
    }
}

pub open spec fn spec_market_conditions(
    volatility_1h: u64,
    depth: LiquidityDepth,
    current: u64,
    fair: u64,
) -> MarketConditions {
    MarketConditions {
        price_volatility_1h: volatility_1h,
        liquidity_depth: depth,
        spread_environment: spec_spread_environment(
            spec_divergence_pct(current as int, fair as int),
        ),
        market_trend: spec_market_trend(current as int, fair as int),
        volume_profile: spec_volume_profile(depth.total_liquidity_usd as int),
    }
}

/// Classifies the market around one pool.
pub fn analyze_market_conditions(
    volatility_1h: u64,
    liquidity_depth: LiquidityDepth,
    current_price: u64,
    fair_value: u64,
) -> (r: MarketConditions)
    requires
        in_price_band(current_price),
        in_price_band(fair_value),
    ensures
        r == spec_market_conditions(volatility_1h, liquidity_depth, current_price, fair_value),
{
    let price_diff_pct = crate::arbitrage::divergence_pct(current_price, fair_value);
    let spread_environment = if price_diff_pct < 200_000 {
        SpreadEnvironment::Tight
    } else if price_diff_pct < 500_000 {
        SpreadEnvironment::Normal
    } else if price_diff_pct < 1_000_000 {
        SpreadEnvironment::Wide
    } else {
        SpreadEnvironment::VeryWide
    };
    let market_trend = if current_price * 1000 > fair_value * 1002 {
        MarketTrend::Bullish
    } else if current_price * 1000 < fair_value * 998 {
        MarketTrend::Bearish
    } else {
        MarketTrend::Sideways
    };
    let volume_profile = if liquidity_depth.total_liquidity_usd > 1_000_000_000_000 {
        VolumeProfile::High
    } else if liquidity_depth.total_liquidity_usd > 100_000_000_000 {
        VolumeProfile::Normal
    } else {
        VolumeProfile::Low
    };
    MarketConditions {
        price_volatility_1h: volatility_1h,
        liquidity_depth,
        spread_environment,
        market_trend,
        volume_profile,
    }
}

/// Imbalance tiers by the absolute gap between the held and target base
/// ratio: under 5% balanced, under 15% slight, under 30% significant,
/// critical beyond; the direction follows the sign of the gap.
pub open spec fn spec_imbalance(weth_ratio: int, target: int) -> InventoryImbalance {
    let diff = if weth_ratio >= target {
        weth_ratio - target
    } else {
        target - weth_ratio
    };
    if diff < 50_000 {
        InventoryImbalance::Balanced
    } else if diff < 150_000 {
        if weth_ratio > target {
            InventoryImbalance::SlightlyLong
        } else {
            InventoryImbalance::SlightlyShort
        }
    } else if diff < 300_000 {
        if weth_ratio > target {
            InventoryImbalance::SignificantlyLong
        } else {
            InventoryImbalance::SignificantlyShort
        }
    } else {
        InventoryImbalance::CriticallyImbalanced
    }
}

/// The simulated book the analysis assumes: 40% of the configured
/// maximum position held as the base asset, 60% as quote, with the base
/// holding capped at a tenth of the pool's reserve.
pub open spec fn spec_inventory(
    fair: int,
    weth_reserves: int,
    max_position: int,
    target_ratio: int,
    rebalance_threshold: int,
) -> InventoryAnalysis {
    let current_weth = max_position * 400_000 / 1_000_000;
    let current_usd = max_position * fair / 1_000_000 * 600_000 / 1_000_000;
    let max_feasible = weth_reserves * 100_000 / 1_000_000;
    let adjusted_weth = if current_weth <= max_feasible {
        current_weth
    } else {
        max_feasible
    };
    let weth_value = adjusted_weth * fair / 1_000_000;
    let total_value = weth_value + current_usd;
    let weth_ratio = if total_value > 0 {
        weth_value * 1_000_000 / total_value
    } else {
        0
    };
    let ratio_diff = if weth_ratio >= target_ratio {
        weth_ratio - target_ratio
    } else {
        target_ratio - weth_ratio
    };
    let rebalance_needed = ratio_diff > rebalance_threshold;
    let rebalance_amount = if rebalance_needed {
        if target_ratio >= weth_ratio {
            (target_ratio - weth_ratio) * total_value / fair
        } else {
            -((weth_ratio - target_ratio) * total_value / fair)
        }
    } else {
        0
    };
    InventoryAnalysis {
        current_weth_balance: adjusted_weth as u64,
        current_usd_balance: current_usd as u64,
        total_value_usd: total_value as u64,
        weth_ratio: weth_ratio as u64,
        target_weth_ratio: target_ratio as u64,
        imbalance_severity: spec_imbalance(weth_ratio, target_ratio),
        rebalance_needed,
        rebalance_amount_eth: rebalance_amount as i64,
    }
}

/// Analyzes the simulated inventory at the given fair value.
pub fn analyze_inventory_simulation(
    fair_value_price: u64,
    liquidity_depth: &LiquidityDepth,
    config: &Config,
) -> (r: InventoryAnalysis)
    requires
        in_price_band(fair_value_price),
        config.wf(),
        liquidity_depth.weth_reserves <= 10_000_000_000_000,
    ensures
        r == spec_inventory(
            fair_value_price as int,
            liquidity_depth.weth_reserves as int,
            config.max_position_size_eth as int,
            config.inventory_target_ratio as int,
            config.rebalance_threshold as int,
        ),
        r.weth_ratio <= 1_000_000,
{
    let fair = fair_value_price;
    let max_position = config.max_position_size_eth;
    let current_weth = mul_div_u64(max_position, 400_000, 1_000_000);
    proof {
        lemma_mul_div_le(
            max_position as int,
            MAX_POSITION_CAP_ETH as int,
            fair as int,
            100_000_000_000,
            1_000_000,
        );
    }
    let position_usd = mul_div_u64(max_position, fair, 1_000_000);
    proof {
        lemma_mul_div_le(position_usd as int, 100_000_000_000_000, 600_000, 600_000, 1_000_000);
    }
    let current_usd = mul_div_u64(position_usd, 600_000, 1_000_000);
    let max_feasible = mul_div_u64(liquidity_depth.weth_reserves, 100_000, 1_000_000);
    let adjusted_weth = if current_weth <= max_feasible {
        current_weth
    } else {
        max_feasible
    };
    proof {
        lemma_mul_div_le(
            adjusted_weth as int,
            MAX_POSITION_CAP_ETH as int,
            fair as int,
            100_000_000_000,
            1_000_000,
        );
    }
    let weth_value = mul_div_u64(adjusted_weth, fair, 1_000_000);
    let total_value = weth_value + current_usd;
    let weth_ratio = if total_value > 0 {
        proof {
            crate::math::lemma_div_range(
                (weth_value as int) * 1_000_000,
                total_value as int,
                0,
                1_000_000,
            );
            vstd::arithmetic::mul::lemma_mul_inequality(
                weth_value as int,
                total_value as int,
                1_000_000,
            );
        }
        mul_div_u64(weth_value, 1_000_000, total_value)
    } else {
        0
    };
    let target_ratio = config.inventory_target_ratio;
    let ratio_diff = if weth_ratio >= target_ratio {
        weth_ratio - target_ratio
    } else {
        target_ratio - weth_ratio
    };
    let rebalance_needed = ratio_diff > config.rebalance_threshold;
    let rebalance_amount: i64 = if rebalance_needed {
        proof {
            lemma_mul_div_le(
                ratio_diff as int,
                1_000_000,
                total_value as int,
                200_000_000_000_000,
                fair as int,
            );
            assert(1_000_000 * 200_000_000_000_000int / (fair as int) <= 1_000_000
                * 200_000_000_000_000int / 100_000_000) by (nonlinear_arith)
                requires fair >= 100_000_000;
        }
        let magnitude = mul_div_u64(ratio_diff, total_value, fair);
        if target_ratio >= weth_ratio {
            magnitude as i64
        } else {
            -(magnitude as i64)
        }
    } else {
        0
    };
    InventoryAnalysis {
        current_weth_balance: adjusted_weth,
        current_usd_balance: current_usd,
        total_value_usd: total_value,
        weth_ratio,
        target_weth_ratio: target_ratio,
        imbalance_severity: if ratio_diff < 50_000 {
            InventoryImbalance::Balanced
        } else if ratio_diff < 150_000 {
            if weth_ratio > target_ratio {
                InventoryImbalance::SlightlyLong
            } else {
                InventoryImbalance::SlightlyShort
            }
        } else if ratio_diff < 300_000 {
            if weth_ratio > target_ratio {
                InventoryImbalance::SignificantlyLong
            } else {
                InventoryImbalance::SignificantlyShort
            }
        } else {
            InventoryImbalance::CriticallyImbalanced
        },
        rebalance_needed,
        rebalance_amount_eth: rebalance_amount,
    }
}

/// The dynamic spread pipeline in whole bps: the configured base, scaled
/// by the volatility multiplier, the trend, the price band, the inventory
/// imbalance, the depth quality and the spread environment, then clamped
/// to [MIN_SPREAD_BPS, MAX_SPREAD_BPS].
pub open spec fn spec_dynamic_spread_bps(
    conditions: MarketConditions,
    inventory: InventoryAnalysis,
    metrics: VolatilityMetrics,
    fair: int,
    base_spread_bps: int,
) -> int {
    let s1 = base_spread_bps * (metrics.recommended_adjustments.spread_multiplier as int)
        / 1_000_000;
    let s2 = match metrics.volatility_trend {
        VolatilityTrend::Increasing => s1 * 12 / 10,
        VolatilityTrend::Volatile => s1 * 13 / 10,
        _ => s1,
    };
    let s3 = if fair > 5_000_000_000 || fair < 1_000_000_000 {
        s2 * 12 / 10
    } else {
        s2
    };
    let s4 = match inventory.imbalance_severity {
        InventoryImbalance::Balanced => s3,
        InventoryImbalance::SlightlyLong | InventoryImbalance::SlightlyShort => s3 * 11 / 10,
        InventoryImbalance::SignificantlyLong | InventoryImbalance::SignificantlyShort => s3 * 125
            / 100,
        InventoryImbalance::CriticallyImbalanced => s3 * 15 / 10,
    };
    let s5 = match conditions.liquidity_depth.depth_quality {
        DepthQuality::Excellent => s4,
        DepthQuality::Good => s4 * 105 / 100,
        DepthQuality::Fair => s4 * 115 / 100,
        DepthQuality::Poor => s4 * 13 / 10,
    };
    let s6 = match conditions.spread_environment {
        SpreadEnvironment::Tight => s5 * 8 / 10,
        SpreadEnvironment::Normal => s5,
        SpreadEnvironment::Wide => s5 * 12 / 10,
        SpreadEnvironment::VeryWide => s5 * 15 / 10,
    };
    if s6 < MIN_SPREAD_BPS as int {
        MIN_SPREAD_BPS as int
    } else if s6 > MAX_SPREAD_BPS as int {
        MAX_SPREAD_BPS as int
    } else {
        s6
    }
}

/// The spread law: whatever the volatility, inventory and liquidity
/// inputs, the dynamic spread stays inside
/// [MIN_SPREAD_BPS, MAX_SPREAD_BPS].
pub proof fn lemma_spread_always_clamped(
    conditions: MarketConditions,
    inventory: InventoryAnalysis,
    metrics: VolatilityMetrics,
    fair: int,
    base_spread_bps: int,
)
    ensures
        MIN_SPREAD_BPS <= spec_dynamic_spread_bps(
            conditions,
            inventory,
            metrics,
            fair,
            base_spread_bps,
        ) <= MAX_SPREAD_BPS,
{
}

/// Computes the dynamic spread. However extreme the inputs, the result
/// stays inside [MIN_SPREAD_BPS, MAX_SPREAD_BPS].
#[verifier::rlimit(100)]
#[verifier::spinoff_prover]
pub fn calculate_dynamic_spread_with_volatility(
    market_conditions: &MarketConditions,
    inventory_analysis: &InventoryAnalysis,
    volatility_metrics: &VolatilityMetrics,
    fair_value_price: u64,
    base_spread_bps: u32,
) -> (spread: u32)
    requires
        MIN_SPREAD_BPS <= base_spread_bps <= MAX_SPREAD_BPS,
        volatility_metrics.recommended_adjustments.spread_multiplier <= 3_000_000,
    ensures
        spread == spec_dynamic_spread_bps(
            *market_conditions,
            *inventory_analysis,
            *volatility_metrics,
            fair_value_price as int,
            base_spread_bps as int,
        ),
        MIN_SPREAD_BPS <= spread <= MAX_SPREAD_BPS,
{
    proof {
        lemma_mul_div_le(
            base_spread_bps as int,
            200,
            volatility_metrics.recommended_adjustments.spread_multiplier as int,
            3_000_000,
            1_000_000,
        );
    }
    let s1: u64 = mul_div_u64(
        base_spread_bps as u64,
        volatility_metrics.recommended_adjustments.spread_multiplier,
        1_000_000,
    );
    let s2: u64 = match volatility_metrics.volatility_trend {
        VolatilityTrend::Increasing => s1 * 12 / 10,
        VolatilityTrend::Volatile => s1 * 13 / 10,
        _ => s1,
    };
    let s3: u64 = if fair_value_price > 5_000_000_000 || fair_value_price < 1_000_000_000 {
        s2 * 12 / 10
    } else {
        s2
    };
    let s4: u64 = match inventory_analysis.imbalance_severity {
        InventoryImbalance::Balanced => s3,
        InventoryImbalance::SlightlyLong | InventoryImbalance::SlightlyShort => s3 * 11 / 10,
        InventoryImbalance::SignificantlyLong | InventoryImbalance::SignificantlyShort => s3 * 125
            / 100,
        InventoryImbalance::CriticallyImbalanced => s3 * 15 / 10,
    };
    let s5: u64 = match market_conditions.liquidity_depth.depth_quality {
        DepthQuality::Excellent => s4,
        DepthQuality::Good => s4 * 105 / 100,
        DepthQuality::Fair => s4 * 115 / 100,
        DepthQuality::Poor => s4 * 13 / 10,
    };
    let s6: u64 = match market_conditions.spread_environment {
        SpreadEnvironment::Tight => s5 * 8 / 10,
        SpreadEnvironment::Normal => s5,
        SpreadEnvironment::Wide => s5 * 12 / 10,
        SpreadEnvironment::VeryWide => s5 * 15 / 10,
    };
    if s6 < MIN_SPREAD_BPS as u64 {
        MIN_SPREAD_BPS
    } else if s6 > MAX_SPREAD_BPS as u64 {
        MAX_SPREAD_BPS
    } else {
        s6 as u32
    }
}

/// The position sizing pipeline, in micro-ETH: a tenth of the maximum
/// position, scaled down by the volatility factor, extreme or worsening
/// volatility, the pool-impact cap and inventory imbalance, then clamped
/// to [MIN_TRADE_SIZE_ETH, max_position].
pub open spec fn spec_position_size(
    inventory: InventoryAnalysis,
    weth_reserves: int,
    metrics: VolatilityMetrics,
    max_position: int,
) -> int {
    let s1 = max_position * 100_000 / 1_000_000;
    let s2 = s1 * (metrics.recommended_adjustments.position_size_factor as int) / 1_000_000;
    let s3 = if metrics.impact_assessment == VolatilityImpact::Extreme {
        s2 * 500_000 / 1_000_000
    } else if metrics.impact_assessment == VolatilityImpact::High && metrics.volatility_trend
        == VolatilityTrend::Increasing {
        s2 * 700_000 / 1_000_000
    } else {
        s2
    };
    let s4 = if weth_reserves <= 0 || s3 * 1_000_000 / weth_reserves > 10_000 {
        weth_reserves * 5_000 / 1_000_000
    } else {
        s3
    };
    let s5 = match inventory.imbalance_severity {
        InventoryImbalance::CriticallyImbalanced => s4 * 300_000 / 1_000_000,
        InventoryImbalance::SignificantlyLong | InventoryImbalance::SignificantlyShort => s4
            * 700_000 / 1_000_000,
        _ => s4,
    };
    let floored = if s5 < MIN_TRADE_SIZE_ETH as int {
        MIN_TRADE_SIZE_ETH as int
    } else {
        s5
    };
    if floored > max_position {
        max_position
    } else {
        floored
    }
}

/// Sizes the position for the current conditions.
pub fn calculate_position_size_with_volatility(
    inventory_analysis: &InventoryAnalysis,
    liquidity_depth: &LiquidityDepth,
    volatility_metrics: &VolatilityMetrics,
    config: &Config,
) -> (size: u64)
    requires
        config.wf(),
        liquidity_depth.weth_reserves <= 10_000_000_000_000,
        volatility_metrics.recommended_adjustments.position_size_factor <= 1_000_000,
    ensures
        size == spec_position_size(
            *inventory_analysis,
            liquidity_depth.weth_reserves as int,
            *volatility_metrics,
            config.max_position_size_eth as int,
        ),
{
    let max_position = config.max_position_size_eth;
    let weth_reserves = liquidity_depth.weth_reserves;
    let s1: u64 = mul_div_u64(max_position, 100_000, 1_000_000);
    proof {
        lemma_mul_div_le(
            s1 as int,
            MAX_POSITION_CAP_ETH as int,
            volatility_metrics.recommended_adjustments.position_size_factor as int,
            1_000_000,
            1_000_000,
        );
    }
    let s2: u64 = mul_div_u64(
        s1,
        volatility_metrics.recommended_adjustments.position_size_factor,
        1_000_000,
    );
    let s3: u64 = if matches!(volatility_metrics.impact_assessment, VolatilityImpact::Extreme) {
        mul_div_u64(s2, 500_000, 1_000_000)
    } else if matches!(volatility_metrics.impact_assessment, VolatilityImpact::High) && matches!(
        volatility_metrics.volatility_trend,
        VolatilityTrend::Increasing,
    ) {
        mul_div_u64(s2, 700_000, 1_000_000)
    } else {
        s2
    };
    proof {
        lemma_mul_div_le(weth_reserves as int, 10_000_000_000_000, 5_000, 5_000, 1_000_000);
    }
    let s4: u64 = if weth_reserves == 0 {
        mul_div_u64(weth_reserves, 5_000, 1_000_000)
    } else {
        proof {
            vstd::arithmetic::div_mod::lemma_div_basics((s3 as int) * 1_000_000);
            vstd::arithmetic::div_mod::lemma_div_is_ordered_by_denominator(
                (s3 as int) * 1_000_000,
                1,
                weth_reserves as int,
            );
        }
        let impact = mul_div_u64(s3, 1_000_000, weth_reserves);
        if impact > 10_000 {
            mul_div_u64(weth_reserves, 5_000, 1_000_000)
        } else {
            s3
        }
    };
    proof {
        lemma_mul_div_le(s4 as int, 100_000_000_000_000, 700_000, 700_000, 1_000_000);
        lemma_mul_div_le(s4 as int, 100_000_000_000_000, 300_000, 300_000, 1_000_000);
    }
    let s5: u64 = match inventory_analysis.imbalance_severity {
        InventoryImbalance::CriticallyImbalanced => mul_div_u64(s4, 300_000, 1_000_000),
        InventoryImbalance::SignificantlyLong | InventoryImbalance::SignificantlyShort => {
            mul_div_u64(s4, 700_000, 1_000_000)
        },
        _ => s4,
    };
    let floored: u64 = if s5 < MIN_TRADE_SIZE_ETH {
        MIN_TRADE_SIZE_ETH
    } else {
        s5
    };
    if floored > max_position {
        max_position
    } else {
        floored
    }
}

/// Strategy rule, first match wins: adapt to volatility over 15%, manage
/// a significantly imbalanced inventory, quote tight in a tight
/// environment with deviation under 0.1%, quote wide in a wide one,
/// otherwise follow the trend.
pub open spec fn spec_strategy_type(
    volatility_1h: int,
    imbalance: InventoryImbalance,
    environment: SpreadEnvironment,
    price_deviation: int,
) -> StrategyType {
    if volatility_1h > 15_000_000 {
        StrategyType::VolatilityAdaptive
    } else if imbalance == InventoryImbalance::SignificantlyLong || imbalance
        == InventoryImbalance::SignificantlyShort {
        StrategyType::InventoryManagement
    } else if environment == SpreadEnvironment::Tight && price_deviation < 100_000 {
        StrategyType::TightSpread
    } else if environment == SpreadEnvironment::Wide || environment == SpreadEnvironment::VeryWide {
        StrategyType::WideSpread
    } else {
        StrategyType::TrendFollowing
    }
}

pub open spec fn spec_duration_secs(t: StrategyType) -> u64 {
    match t {
        StrategyType::TightSpread => 300,
        StrategyType::WideSpread => 3600,
        StrategyType::InventoryManagement => 1800,
        StrategyType::TrendFollowing => 7200,
        StrategyType::VolatilityAdaptive => 600,
    }
}

pub open spec fn spec_risk_level(volatility_1h: int) -> RiskLevel {
    if volatility_1h > 20_000_000 {
        RiskLevel::Speculative
    } else if volatility_1h > 10_000_000 {
        RiskLevel::Aggressive
    } else if volatility_1h > 5_000_000 {
        RiskLevel::Moderate
    } else {
        RiskLevel::Conservative
    }
}

/// The full strategy record the selector produces.
pub open spec fn spec_liquidity_strategy(
    volatility_1h: int,
    imbalance: InventoryImbalance,
    environment: SpreadEnvironment,
    deviation: int,
    fair: int,
    max_position: int,
) -> LiquidityStrategy {
    let strategy_type = spec_strategy_type(volatility_1h, imbalance, environment, deviation);
    let base = max_position * 100_000 / 1_000_000;
    let sizes = if strategy_type == StrategyType::InventoryManagement && imbalance
        == InventoryImbalance::SignificantlyLong {
        (base * 300_000 / 1_000_000, base * 1_500_000 / 1_000_000)
    } else if strategy_type == StrategyType::InventoryManagement && imbalance
        == InventoryImbalance::SignificantlyShort {
        (base * 1_500_000 / 1_000_000, base * 300_000 / 1_000_000)
    } else {
        (base, base)
    };
    LiquidityStrategy {
        strategy_type,
        bid_size_eth: sizes.0 as u64,
        ask_size_eth: sizes.1 as u64,
        range_bounds: RangeBounds {
            lower_bound: (fair * 950_000 / 1_000_000) as u64,
            upper_bound: (fair * 1_050_000 / 1_000_000) as u64,
            confidence_interval: 950_000,
        },
        duration_estimate_secs: spec_duration_secs(strategy_type),
        expected_daily_volume: (base * 10) as u64,
        risk_level: spec_risk_level(volatility_1h),
    }
}

/// Selects the liquidity strategy; inventory management skews the quoted
/// sizes 0.3x/1.5x toward the underweight side.
pub fn select_liquidity_strategy(
    market_conditions: &MarketConditions,
    inventory_analysis: &InventoryAnalysis,
    current_price: u64,
    fair_value: u64,
    config: &Config,
) -> (r: LiquidityStrategy)
    requires
        in_price_band(current_price),
        in_price_band(fair_value),
        config.wf(),
    ensures
        r == spec_liquidity_strategy(
            market_conditions.price_volatility_1h as int,
            inventory_analysis.imbalance_severity,
            market_conditions.spread_environment,
            spec_divergence_pct(current_price as int, fair_value as int),
            fair_value as int,
            config.max_position_size_eth as int,
        ),
{
    let price_deviation = crate::arbitrage::divergence_pct(current_price, fair_value);
    let strategy_type = if market_conditions.price_volatility_1h > 15_000_000 {
        StrategyType::VolatilityAdaptive
    } else if matches!(
        inventory_analysis.imbalance_severity,
        InventoryImbalance::SignificantlyLong,
    ) || matches!(inventory_analysis.imbalance_severity, InventoryImbalance::SignificantlyShort) {
        StrategyType::InventoryManagement
    } else if matches!(market_conditions.spread_environment, SpreadEnvironment::Tight)
        && price_deviation < 100_000 {
        StrategyType::TightSpread
    } else if matches!(market_conditions.spread_environment, SpreadEnvironment::Wide) || matches!(
        market_conditions.spread_environment,
        SpreadEnvironment::VeryWide,
    ) {
        StrategyType::WideSpread
    } else {
        StrategyType::TrendFollowing
    };

    let base_size = mul_div_u64(config.max_position_size_eth, 100_000, 1_000_000);
    let (bid_size_eth, ask_size_eth) = if matches!(strategy_type, StrategyType::InventoryManagement)
        && matches!(inventory_analysis.imbalance_severity, InventoryImbalance::SignificantlyLong) {
        (mul_div_u64(base_size, 300_000, 1_000_000), mul_div_u64(base_size, 1_500_000, 1_000_000))
    } else if matches!(strategy_type, StrategyType::InventoryManagement) && matches!(
        inventory_analysis.imbalance_severity,
        InventoryImbalance::SignificantlyShort,
    ) {
        (mul_div_u64(base_size, 1_500_000, 1_000_000), mul_div_u64(base_size, 300_000, 1_000_000))
    } else {
        (base_size, base_size)
    };

    let range_bounds = RangeBounds {
        lower_bound: mul_div_u64(fair_value, 950_000, 1_000_000),
        upper_bound: mul_div_u64(fair_value, 1_050_000, 1_000_000),
        confidence_interval: 950_000,
    };

    let duration_estimate_secs: u64 = match strategy_type {
        StrategyType::TightSpread => 300,
        StrategyType::WideSpread => 3600,
        StrategyType::InventoryManagement => 1800,
        StrategyType::TrendFollowing => 7200,
        StrategyType::VolatilityAdaptive => 600,
    };

    let risk_level = if market_conditions.price_volatility_1h > 20_000_000 {
        RiskLevel::Speculative
    } else if market_conditions.price_volatility_1h > 10_000_000 {
        RiskLevel::Aggressive
    } else if market_conditions.price_volatility_1h > 5_000_000 {
        RiskLevel::Moderate
    } else {
        RiskLevel::Conservative
    };

    LiquidityStrategy {
        strategy_type,
        bid_size_eth,
        ask_size_eth,
        range_bounds,
        duration_estimate_secs,
        expected_daily_volume: base_size * 10,
        risk_level,
    }
}

pub open spec fn spec_liquidity_risk_score(q: DepthQuality) -> u64 {
    match q {
        DepthQuality::Excellent => 10_000_000,
        DepthQuality::Good => 25_000_000,
        DepthQuality::Fair => 50_000_000,
        DepthQuality::Poor => 80_000_000,
    }
}

pub open spec fn spec_volatility_risk_score(i: VolatilityImpact) -> u64 {
    match i {
        VolatilityImpact::Low => 10_000_000,
        VolatilityImpact::Moderate => 30_000_000,
        VolatilityImpact::High => 60_000_000,
        VolatilityImpact::Extreme => 90_000_000,
    }
}

/// The weighted overall risk: 0.3 inventory + 0.25 liquidity + 0.35
/// volatility + 0.1 of the short-term volatility capped at 50 points.
pub open spec fn spec_overall_risk(
    inventory_score: int,
    liquidity_score: int,
    volatility_score: int,
    short_vol: int,
) -> int {
    inventory_score * 300_000 / 1_000_000 + liquidity_score * 250_000 / 1_000_000
        + volatility_score * 350_000 / 1_000_000 + (if short_vol < 50_000_000 {
        short_vol
    } else {
        50_000_000
    }) * 100_000 / 1_000_000
}

/// The full risk record: drawdown a tenth of position value, the one-day
/// value at risk from the short-term volatility scaled by the day factor
/// (4.899) and confidence z-score (1.65), tiered component scores and
/// their weighted sum, and the exposure the remaining headroom allows.
pub open spec fn spec_risk_metrics(
    position_size: int,
    fair: int,
    metrics: VolatilityMetrics,
    quality: DepthQuality,
    max_position: int,
) -> RiskMetrics {
    let position_value = position_size * fair / 1_000_000;
    let daily_vol = (metrics.short_term_volatility as int) * 4_899 / 1_000;
    let raw_inventory = position_size * 100_000_000 / max_position;
    let inventory_score = if raw_inventory < 100_000_000 {
        raw_inventory
    } else {
        100_000_000
    };
    let overall = spec_overall_risk(
        inventory_score,
        spec_liquidity_risk_score(quality) as int,
        spec_volatility_risk_score(metrics.impact_assessment) as int,
        metrics.short_term_volatility as int,
    );
    RiskMetrics {
        max_drawdown_usd: (position_value * 100_000 / 1_000_000) as u64,
        value_at_risk_1d: (position_value * daily_vol * 165 / 10_000_000_000) as u64,
        inventory_risk_score: inventory_score as u64,
        liquidity_risk_score: spec_liquidity_risk_score(quality),
        volatility_risk_score: spec_volatility_risk_score(metrics.impact_assessment),
        overall_risk_score: overall as u64,
        recommended_max_exposure: (max_position * (100_000_000 - overall) / 100_000_000) as u64,
    }
}

/// Computes the risk metrics for a sized position.
pub fn calculate_risk_metrics_with_volatility(
    position_size: u64,
    fair_value: u64,
    volatility_metrics: &VolatilityMetrics,
    liquidity_depth: &LiquidityDepth,
    config: &Config,
) -> (r: RiskMetrics)
    requires
        in_price_band(fair_value),
        position_size <= MAX_POSITION_CAP_ETH,
        config.wf(),
        volatility_metrics.wf(),
    ensures
        r == spec_risk_metrics(
            position_size as int,
            fair_value as int,
            *volatility_metrics,
            liquidity_depth.depth_quality,
            config.max_position_size_eth as int,
        ),
        r.overall_risk_score <= 100_000_000,
{
    proof {
        lemma_mul_div_le(
            position_size as int,
            MAX_POSITION_CAP_ETH as int,
            fair_value as int,
            100_000_000_000,
            1_000_000,
        );
    }
    let position_value: u64 = mul_div_u64(position_size, fair_value, 1_000_000);
    let daily_vol: u64 = mul_div_u64(volatility_metrics.short_term_volatility, 4_899, 1_000);
    let max_drawdown_usd: u64 = mul_div_u64(position_value, 100_000, 1_000_000);

    proof {
        assert((position_value as int) * (daily_vol as int) <= 100_000_000_000_000int
            * 489_900_000_000int) by (nonlinear_arith)
            requires position_value <= 100_000_000_000_000, daily_vol <= 489_900_000_000;
        assert((position_value as int) * (daily_vol as int) >= 0) by (nonlinear_arith)
            requires position_value >= 0, daily_vol >= 0;
    }
    let var_wide: u128 = (position_value as u128) * (daily_vol as u128) * 165 / 10_000_000_000;
    let value_at_risk_1d: u64 = var_wide as u64;

    proof {
        crate::math::lemma_div_range(
            (position_size as int) * 100_000_000,
            config.max_position_size_eth as int,
            0,
            (MAX_POSITION_CAP_ETH as int) * 100_000_000,
        );
        vstd::arithmetic::mul::lemma_mul_inequality(
            0,
            position_size as int,
            100_000_000,
        );
        vstd::arithmetic::mul::lemma_mul_upper_bound(
            position_size as int,
            MAX_POSITION_CAP_ETH as int,
            100_000_000,
            100_000_000,
        );
        vstd::arithmetic::mul::lemma_mul_inequality(
            1,
            config.max_position_size_eth as int,
            (MAX_POSITION_CAP_ETH as int) * 100_000_000,
        );
    }
    let raw_inventory: u64 = mul_div_u64(position_size, 100_000_000, config.max_position_size_eth);
    let inventory_risk_score: u64 = if raw_inventory < 100_000_000 {
        raw_inventory
    } else {
        100_000_000
    };

    let liquidity_risk_score: u64 = match liquidity_depth.depth_quality {
        DepthQuality::Excellent => 10_000_000,
        DepthQuality::Good => 25_000_000,
        DepthQuality::Fair => 50_000_000,
        DepthQuality::Poor => 80_000_000,
    };
    let volatility_risk_score: u64 = match volatility_metrics.impact_assessment {
        VolatilityImpact::Low => 10_000_000,
        VolatilityImpact::Moderate => 30_000_000,
        VolatilityImpact::High => 60_000_000,
        VolatilityImpact::Extreme => 90_000_000,
    };
    let capped_short: u64 = if volatility_metrics.short_term_volatility < 50_000_000 {
        volatility_metrics.short_term_volatility
    } else {
        50_000_000
    };
    proof {
        lemma_mul_div_le(inventory_risk_score as int, 100_000_000, 300_000, 300_000, 1_000_000);
        lemma_mul_div_le(liquidity_risk_score as int, 80_000_000, 250_000, 250_000, 1_000_000);
        lemma_mul_div_le(volatility_risk_score as int, 90_000_000, 350_000, 350_000, 1_000_000);
        lemma_mul_div_le(capped_short as int, 50_000_000, 100_000, 100_000, 1_000_000);
    }
    let overall_risk_score: u64 = mul_div_u64(inventory_risk_score, 300_000, 1_000_000)
        + mul_div_u64(liquidity_risk_score, 250_000, 1_000_000) + mul_div_u64(
        volatility_risk_score,
        350_000,
        1_000_000,
    ) + mul_div_u64(capped_short, 100_000, 1_000_000);

    proof {
        lemma_mul_div_le(
            config.max_position_size_eth as int,
            MAX_POSITION_CAP_ETH as int,
            100_000_000 - overall_risk_score,
            100_000_000,
            100_000_000,
        );
    }
    let recommended_max_exposure: u64 = mul_div_u64(
        config.max_position_size_eth,
        100_000_000 - overall_risk_score,
        100_000_000,
    );

    RiskMetrics {
        max_drawdown_usd,
        value_at_risk_1d,
        inventory_risk_score,
        liquidity_risk_score,
        volatility_risk_score,
        overall_risk_score,
        recommended_max_exposure,
    }
}

/// Execution priority, in fixed precedence order: fast urgency with a
/// wide deviation acts immediately, cautious urgency stands down, a
/// critical imbalance acts immediately, overall risk over 80 holds, a
/// deviation over 1% under low or moderate impact acts immediately, high
/// hourly volatility or a deviation over 0.3% raises the priority, over
/// 0.1% is routine, anything else waits.
pub open spec fn spec_execution_priority(
    urgency: ExecutionUrgency,
    imbalance: InventoryImbalance,
    overall_risk: int,
    impact: VolatilityImpact,
    volatility_1h: int,
    deviation: int,
) -> ExecutionPriority {
    if urgency == ExecutionUrgency::Fast && deviation > 500_000 {
        ExecutionPriority::Immediate
    } else if urgency == ExecutionUrgency::Cautious {
        ExecutionPriority::Low
    } else if imbalance == InventoryImbalance::CriticallyImbalanced {
        ExecutionPriority::Immediate
    } else if overall_risk > 80_000_000 {
        ExecutionPriority::Hold
    } else if deviation > 1_000_000 && (impact == VolatilityImpact::Low || impact
        == VolatilityImpact::Moderate) {
        ExecutionPriority::Immediate
    } else if volatility_1h > 15_000_000 {
        ExecutionPriority::High
    } else if deviation > 300_000 {
        ExecutionPriority::High
    } else if deviation > 100_000 {
        ExecutionPriority::Medium
    } else {
        ExecutionPriority::Low
    }
}

/// Decides the execution priority for one signal.
pub fn determine_execution_priority_with_volatility(
    market_conditions: &MarketConditions,
    inventory_analysis: &InventoryAnalysis,
    risk_metrics: &RiskMetrics,
    volatility_metrics: &VolatilityMetrics,
    current_price: u64,
    fair_value: u64,
) -> (r: ExecutionPriority)
    requires
        in_price_band(current_price),
        in_price_band(fair_value),
    ensures
        r == spec_execution_priority(
            volatility_metrics.recommended_adjustments.execution_urgency,
            inventory_analysis.imbalance_severity,
            risk_metrics.overall_risk_score as int,
            volatility_metrics.impact_assessment,
            market_conditions.price_volatility_1h as int,
            spec_divergence_pct(current_price as int, fair_value as int),
        ),
{
    let price_deviation = crate::arbitrage::divergence_pct(current_price, fair_value);
    if matches!(
        volatility_metrics.recommended_adjustments.execution_urgency,
        ExecutionUrgency::Fast,
    ) && price_deviation > 500_000 {
        return ExecutionPriority::Immediate;
    }
    if matches!(
        volatility_metrics.recommended_adjustments.execution_urgency,
        ExecutionUrgency::Cautious,
    ) {
        return ExecutionPriority::Low;
    }
    if matches!(inventory_analysis.imbalance_severity, InventoryImbalance::CriticallyImbalanced) {
        return ExecutionPriority::Immediate;
    }
    if risk_metrics.overall_risk_score > 80_000_000 {
        return ExecutionPriority::Hold;
    }
    if price_deviation > 1_000_000 && (matches!(
        volatility_metrics.impact_assessment,
        VolatilityImpact::Low,
    ) || matches!(volatility_metrics.impact_assessment, VolatilityImpact::Moderate)) {
        return ExecutionPriority::Immediate;
    }
    if market_conditions.price_volatility_1h > 15_000_000 {
        return ExecutionPriority::High;
    }
    if price_deviation > 300_000 {
        return ExecutionPriority::High;
    }
    if price_deviation > 100_000 {
        return ExecutionPriority::Medium;
    }
    ExecutionPriority::Low
}

/// Narrative word for a volatility trend.
pub open spec fn spec_trend_word(t: VolatilityTrend) -> Seq<char> {
    match t {
        VolatilityTrend::Increasing => "Increasing"@,
        VolatilityTrend::Decreasing => "Decreasing"@,
        VolatilityTrend::Stable => "Stable"@,
        VolatilityTrend::Volatile => "Volatile"@,
    }
}

fn trend_word(t: VolatilityTrend) -> (s: &'static str)
    ensures
        s@ == spec_trend_word(t),
{
    match t {
        VolatilityTrend::Increasing => "Increasing",
        VolatilityTrend::Decreasing => "Decreasing",
        VolatilityTrend::Stable => "Stable",
        VolatilityTrend::Volatile => "Volatile",
    }
}

/// Narrative word for an impact tier.
pub open spec fn spec_impact_word(i: VolatilityImpact) -> Seq<char> {
    match i {
        VolatilityImpact::Low => "Low"@,
        VolatilityImpact::Moderate => "Moderate"@,
        VolatilityImpact::High => "High"@,
        VolatilityImpact::Extreme => "Extreme"@,
    }
}

fn impact_word(i: VolatilityImpact) -> (s: &'static str)
    ensures
        s@ == spec_impact_word(i),
{
    match i {
        VolatilityImpact::Low => "Low",
        VolatilityImpact::Moderate => "Moderate",
        VolatilityImpact::High => "High",
        VolatilityImpact::Extreme => "Extreme",
    }
}

/// Narrative word for an inventory imbalance tier.
pub open spec fn spec_imbalance_word(i: InventoryImbalance) -> Seq<char> {
    match i {
        InventoryImbalance::Balanced => "Balanced"@,
        InventoryImbalance::SlightlyLong => "SlightlyLong"@,
        InventoryImbalance::SlightlyShort => "SlightlyShort"@,
        InventoryImbalance::SignificantlyLong => "SignificantlyLong"@,
        InventoryImbalance::SignificantlyShort => "SignificantlyShort"@,
        InventoryImbalance::CriticallyImbalanced => "CriticallyImbalanced"@,
    }
}

fn imbalance_word(i: InventoryImbalance) -> (s: &'static str)
    ensures
        s@ == spec_imbalance_word(i),
{
    match i {
        InventoryImbalance::Balanced => "Balanced",
        InventoryImbalance::SlightlyLong => "SlightlyLong",
        InventoryImbalance::SlightlyShort => "SlightlyShort",
        InventoryImbalance::SignificantlyLong => "SignificantlyLong",
        InventoryImbalance::SignificantlyShort => "SignificantlyShort",
        InventoryImbalance::CriticallyImbalanced => "CriticallyImbalanced",
    }
}

/// Narrative word for a market trend.
pub open spec fn spec_market_trend_word(t: MarketTrend) -> Seq<char> {
    match t {
        MarketTrend::Bullish => "Bullish"@,
        MarketTrend::Bearish => "Bearish"@,
        MarketTrend::Sideways => "Sideways"@,
    }
}

fn market_trend_word(t: MarketTrend) -> (s: &'static str)
    ensures
        s@ == spec_market_trend_word(t),
{
    match t {
        MarketTrend::Bullish => "Bullish",
        MarketTrend::Bearish => "Bearish",
        MarketTrend::Sideways => "Sideways",
    }
}

/// First sentence: both prices and the signed percentage deviation of the
/// pool price from fair value.
pub open spec fn spec_market_sentence(current: u64, fair: u64) -> Seq<char> {
    "Market Analysis: Current price $"@ + spec_micros_str(current as int) + " vs fair value $"@
        + spec_micros_str(fair as int) + " ("@ + (if current >= fair {
        "+"@
    } else {
        "-"@
    }) + spec_micros_str(spec_divergence_pct(current as int, fair as int)) + "% deviation). "@
}

fn market_sentence(current: u64, fair: u64) -> (s: String)
    requires
        in_price_band(current),
        in_price_band(fair),
    ensures
        s@ == spec_market_sentence(current, fair),
{
    let mut s = ("Market Analysis: Current price $").to_owned();
    s.append(micros_to_string(current).as_str());
    s.append(" vs fair value $");
    s.append(micros_to_string(fair).as_str());
    s.append(" (");
    if current >= fair {
        s.append("+");
    } else {
        s.append("-");
    }
    s.append(micros_to_string(crate::arbitrage::divergence_pct(current, fair)).as_str());
    s.append("% deviation). ");
    proof {
        assert(s@ =~= spec_market_sentence(current, fair));
    }
    s
}

/// Second sentence: the three volatility percentages with their trend and
/// impact words.
pub open spec fn spec_volatility_sentence(m: VolatilityMetrics) -> Seq<char> {
    "Volatility: Short="@ + spec_micros_str(m.short_term_volatility as int) + "%, Medium="@
        + spec_micros_str(m.medium_term_volatility as int) + "%, Long="@ + spec_micros_str(
        m.long_term_volatility as int,
    ) + "% (Trend: "@ + spec_trend_word(m.volatility_trend) + ", Impact: "@ + spec_impact_word(
        m.impact_assessment,
    ) + "). "@
}

fn volatility_sentence(m: &VolatilityMetrics) -> (s: String)
    ensures
        s@ == spec_volatility_sentence(*m),
{
    let mut s = ("Volatility: Short=").to_owned();
    s.append(micros_to_string(m.short_term_volatility).as_str());
    s.append("%, Medium=");
    s.append(micros_to_string(m.medium_term_volatility).as_str());
    s.append("%, Long=");
    s.append(micros_to_string(m.long_term_volatility).as_str());
    s.append("% (Trend: ");
    s.append(trend_word(m.volatility_trend));
    s.append(", Impact: ");
    s.append(impact_word(m.impact_assessment));
    s.append("). ");
    proof {
        assert(s@ =~= spec_volatility_sentence(*m));
    }
    s
}

/// Third sentence: the effective spread in whole bps.
pub open spec fn spec_spread_sentence(spread_bps: u32) -> Seq<char> {
    "Effective spread: "@ + crate::text::spec_digits(spread_bps as int) + " bps. "@
}

fn spread_sentence(spread_bps: u32) -> (s: String)
    ensures
        s@ == spec_spread_sentence(spread_bps),
{
    let mut s = ("Effective spread: ").to_owned();
    s.append(crate::text::u64_to_string(spread_bps as u64).as_str());
    s.append(" bps. ");
    proof {
        assert(s@ =~= spec_spread_sentence(spread_bps));
    }
    s
}

/// Strategy sentence, naming the imbalance for inventory management and
/// the market trend for trend following.
pub open spec fn spec_strategy_sentence(
    t: StrategyType,
    imbalance: InventoryImbalance,
    market_trend: MarketTrend,
) -> Seq<char> {
    match t {
        StrategyType::TightSpread =>
        "TIGHT SPREAD strategy selected due to stable conditions and tight current spreads. "@,
        StrategyType::WideSpread =>
        "WIDE SPREAD strategy selected to capture larger price movements in volatile environment. "@,
        StrategyType::InventoryManagement => "INVENTORY MANAGEMENT strategy selected due to "@
            + spec_imbalance_word(imbalance) + " position. "@,
        StrategyType::TrendFollowing => "TREND FOLLOWING strategy selected based on "@
            + spec_market_trend_word(market_trend) + " market trend. "@,
        StrategyType::VolatilityAdaptive =>
        "VOLATILITY ADAPTIVE strategy selected due to high market volatility requiring frequent adjustments. "@,
    }
}

fn strategy_sentence(t: StrategyType, imbalance: InventoryImbalance, market_trend: MarketTrend)
    -> (s: String)
    ensures
        s@ == spec_strategy_sentence(t, imbalance, market_trend),
{
    match t {
        StrategyType::TightSpread => (
        "TIGHT SPREAD strategy selected due to stable conditions and tight current spreads. ").to_owned(),
        StrategyType::WideSpread => (
        "WIDE SPREAD strategy selected to capture larger price movements in volatile environment. ").to_owned(),
        StrategyType::InventoryManagement => {
            let mut s = ("INVENTORY MANAGEMENT strategy selected due to ").to_owned();
            s.append(imbalance_word(imbalance));
            s.append(" position. ");
            proof {
                assert(s@ =~= spec_strategy_sentence(t, imbalance, market_trend));
            }
            s
        },
        StrategyType::TrendFollowing => {
            let mut s = ("TREND FOLLOWING strategy selected based on ").to_owned();
            s.append(market_trend_word(market_trend));
            s.append(" market trend. ");
            proof {
                assert(s@ =~= spec_strategy_sentence(t, imbalance, market_trend));
            }
            s
        },
        StrategyType::VolatilityAdaptive => (
        "VOLATILITY ADAPTIVE strategy selected due to high market volatility requiring frequent adjustments. ").to_owned(),
    }
}

/// Volatility-adjustment sentence, present only under high or extreme
/// impact: the spread multiplier and the percentage the position size was
/// reduced by.
pub open spec fn spec_adjustment_sentence(m: VolatilityMetrics) -> Seq<char> {
    if m.impact_assessment == VolatilityImpact::High || m.impact_assessment
        == VolatilityImpact::Extreme {
        "High volatility detected - spreads widened by "@ + spec_micros_str(
            m.recommended_adjustments.spread_multiplier as int,
        ) + "x, position size reduced by "@ + spec_micros_str(
            (1_000_000 - m.recommended_adjustments.position_size_factor) * 100,
        ) + "%. "@
    } else {
        Seq::<char>::empty()
    }
}

fn adjustment_sentence(m: &VolatilityMetrics) -> (s: String)
    requires
        m.recommended_adjustments.position_size_factor <= 1_000_000,
    ensures
        s@ == spec_adjustment_sentence(*m),
{
    if matches!(m.impact_assessment, VolatilityImpact::High) || matches!(
        m.impact_assessment,
        VolatilityImpact::Extreme,
    ) {
        let mut s = ("High volatility detected - spreads widened by ").to_owned();
        s.append(micros_to_string(m.recommended_adjustments.spread_multiplier).as_str());
        s.append("x, position size reduced by ");
        s.append(
            micros_to_string(
                (1_000_000 - m.recommended_adjustments.position_size_factor) * 100,
            ).as_str(),
        );
        s.append("%. ");
        proof {
            assert(s@ =~= spec_adjustment_sentence(*m));
        }
        s
    } else {
        String::new()
    }
}

/// Risk commentary by risk level.
pub open spec fn spec_risk_sentence(level: RiskLevel) -> Seq<char> {
    match level {
        RiskLevel::Conservative => "Conservative sizing due to uncertain conditions. "@,
        RiskLevel::Moderate => "Moderate risk profile with balanced exposure. "@,
        RiskLevel::Aggressive => "Aggressive positioning to capitalize on clear opportunities. "@,
        RiskLevel::Speculative => "Speculative approach warranted by extreme conditions. "@,
    }
}

fn risk_sentence(level: RiskLevel) -> (s: String)
    ensures
        s@ == spec_risk_sentence(level),
{
    match level {
        RiskLevel::Conservative => ("Conservative sizing due to uncertain conditions. ").to_owned(),
        RiskLevel::Moderate => ("Moderate risk profile with balanced exposure. ").to_owned(),
        RiskLevel::Aggressive => (
        "Aggressive positioning to capitalize on clear opportunities. ").to_owned(),
        RiskLevel::Speculative => (
        "Speculative approach warranted by extreme conditions. ").to_owned(),
    }
}

/// Rebalance note, present only when a rebalance is flagged: the held and
/// target base-asset percentages.
pub open spec fn spec_rebalance_sentence(inventory: InventoryAnalysis) -> Seq<char> {
    if inventory.rebalance_needed {
        "Portfolio rebalancing needed: "@ + spec_micros_str((inventory.weth_ratio as int) * 100)
            + "% WETH vs "@ + spec_micros_str((inventory.target_weth_ratio as int) * 100)
            + "% target. "@
    } else {
        Seq::<char>::empty()
    }
}

fn rebalance_sentence(inventory: &InventoryAnalysis) -> (s: String)
    requires
        inventory.weth_ratio <= 1_000_000,
        inventory.target_weth_ratio <= 1_000_000,
    ensures
        s@ == spec_rebalance_sentence(*inventory),
{
    if inventory.rebalance_needed {
        let mut s = ("Portfolio rebalancing needed: ").to_owned();
        s.append(micros_to_string(inventory.weth_ratio * 100).as_str());
        s.append("% WETH vs ");
        s.append(micros_to_string(inventory.target_weth_ratio * 100).as_str());
        s.append("% target. ");
        proof {
            assert(s@ =~= spec_rebalance_sentence(*inventory));
        }
        s
    } else {
        String::new()
    }
}

/// The full narrative: prices and deviation, the volatility picture, the
/// effective spread, the chosen strategy and its reason, the
/// volatility-driven adjustments when impact is high or extreme, the risk
/// commentary, and the rebalance note when one is flagged.
pub open spec fn spec_rationale(
    market_trend: MarketTrend,
    inventory: InventoryAnalysis,
    strategy_type: StrategyType,
    risk_level: RiskLevel,
    metrics: VolatilityMetrics,
    spread_bps: u32,
    fair: u64,
    current: u64,
) -> Seq<char> {
    spec_market_sentence(current, fair) + spec_volatility_sentence(metrics)
        + spec_spread_sentence(spread_bps) + spec_strategy_sentence(
        strategy_type,
        inventory.imbalance_severity,
        market_trend,
    ) + spec_adjustment_sentence(metrics) + spec_risk_sentence(risk_level)
        + spec_rebalance_sentence(inventory)
}

/// Deterministic, human-readable narrative for one signal: exactly the
/// concatenation `spec_rationale` states. Purely a textual projection of
/// the decision, never an input to it.
pub fn generate_strategy_rationale_with_volatility(
    market_conditions: &MarketConditions,
    inventory_analysis: &InventoryAnalysis,
    strategy: &LiquidityStrategy,
    volatility_metrics: &VolatilityMetrics,
    spread_bps: u32,
    fair_value: u64,
    current_price: u64,
) -> (r: String)
    requires
        in_price_band(current_price),
        in_price_band(fair_value),
        volatility_metrics.recommended_adjustments.position_size_factor <= 1_000_000,
        inventory_analysis.weth_ratio <= 1_000_000,
        inventory_analysis.target_weth_ratio <= 1_000_000,
    ensures
        r@ == spec_rationale(
            market_conditions.market_trend,
            *inventory_analysis,
            strategy.strategy_type,
            strategy.risk_level,
            *volatility_metrics,
            spread_bps,
            fair_value,
            current_price,
        ),
{
    let mut rationale = market_sentence(current_price, fair_value);
    rationale.append(volatility_sentence(volatility_metrics).as_str());
    rationale.append(spread_sentence(spread_bps).as_str());
    rationale.append(
        strategy_sentence(
            strategy.strategy_type,
            inventory_analysis.imbalance_severity,
            market_conditions.market_trend,
        ).as_str(),
    );
    rationale.append(adjustment_sentence(volatility_metrics).as_str());
    rationale.append(risk_sentence(strategy.risk_level).as_str());
    rationale.append(rebalance_sentence(inventory_analysis).as_str());
    proof {
        assert(rationale@ =~= spec_rationale(
            market_conditions.market_trend,
            *inventory_analysis,
            strategy.strategy_type,
            strategy.risk_level,
            *volatility_metrics,
            spread_bps,
            fair_value,
            current_price,
        ));
    }
    rationale
}

/// Two signals that agree on every decision field; the strings agree as
/// character sequences.
pub open spec fn signal_like(a: MarketMakingSignal, b: MarketMakingSignal) -> bool {
    &&& a.id@ == b.id@
    &&& a.timestamp_ms == b.timestamp_ms
    &&& a.pool@ == b.pool@
    &&& a.fair_value_price == b.fair_value_price
    &&& a.current_pool_price == b.current_pool_price
    &&& a.target_bid_price == b.target_bid_price
    &&& a.target_ask_price == b.target_ask_price
    &&& a.effective_spread_bps == b.effective_spread_bps
    &&& a.position_size_eth == b.position_size_eth
    &&& a.inventory_analysis == b.inventory_analysis
    &&& a.market_conditions == b.market_conditions
    &&& a.strategy == b.strategy
    &&& a.risk_metrics == b.risk_metrics
    &&& a.volatility_metrics == b.volatility_metrics
    &&& a.execution_priority == b.execution_priority
    &&& a.rationale@ == b.rationale@
}

fn string_eq(a: &String, b: &String) -> (r: bool)
    ensures
        r <==> a@ == b@,
{
    a.eq(b)
}

fn clone_signal(s: &MarketMakingSignal) -> (r: MarketMakingSignal)
    ensures
        signal_like(r, *s),
{
    MarketMakingSignal {
        id: s.id.clone(),
        timestamp_ms: s.timestamp_ms,
        pool: s.pool.clone(),
        fair_value_price: s.fair_value_price,
        current_pool_price: s.current_pool_price,
        target_bid_price: s.target_bid_price,
        target_ask_price: s.target_ask_price,
        effective_spread_bps: s.effective_spread_bps,
        position_size_eth: s.position_size_eth,
        inventory_analysis: s.inventory_analysis,
        market_conditions: s.market_conditions,
        strategy: s.strategy,
        risk_metrics: s.risk_metrics,
        volatility_metrics: s.volatility_metrics,
        execution_priority: s.execution_priority,
        rationale: s.rationale.clone(),
    }
}

/// No pool name occurs twice in the cache.
pub open spec fn pools_unique(s: Seq<MarketMakingSignal>) -> bool {
    forall|i: int, j: int| 0 <= i < j < s.len() ==> (#[trigger] s[i]).pool@ != (#[trigger] s[j]).pool@
}

/// The strategy-and-signal engine: a volatility tracker plus the most
/// recent signal per pool (last write wins, no history).
pub struct MarketMakingEngine {
    volatility_calculator: MultiTimeframeVolatilityCalculator,
    last_signals: Vec<MarketMakingSignal>,
}

impl MarketMakingEngine {
    pub closed spec fn tracker(&self) -> MultiTimeframeVolatilityCalculator {
        self.volatility_calculator
    }

    pub closed spec fn signals(&self) -> Seq<MarketMakingSignal> {
        self.last_signals@
    }

    pub open spec fn wf(&self) -> bool {
        &&& self.tracker().wf()
        &&& pools_unique(self.signals())
    }

    /// The metrics snapshot this engine's tracker currently derives.
    pub open spec fn spec_metrics_now(&self) -> VolatilityMetrics {
        spec_metrics(
            pct_or_zero(self.tracker().short_term()@) as u64,
            pct_or_zero(self.tracker().medium_term()@) as u64,
            pct_or_zero(self.tracker().long_term()@) as u64,
        )
    }

    pub fn new() -> (e: Self)
        ensures
            e.wf(),
            e.signals().len() == 0,
            e.tracker().short_term()@.len() == 0,
            e.tracker().medium_term()@.len() == 0,
            e.tracker().long_term()@.len() == 0,
    {
        MarketMakingEngine {
            volatility_calculator: MultiTimeframeVolatilityCalculator::new(),
            last_signals: Vec::new(),
        }
    }

    /// Feeds one reference price into the volatility tracker.
    pub fn update_price_history(&mut self, price: u64)
        requires
            old(self).wf(),
            in_price_band(price),
        ensures
            final(self).wf(),
            final(self).signals() == old(self).signals(),
            exists|now: u64|
                {
                    &&& final(self).tracker().short_term()@
                        == crate::volatility::window_after_add(
                        old(self).tracker().short_term()@,
                        now,
                        price,
                        crate::volatility::SHORT_TERM_LOOKBACK_MS,
                    )
                    &&& final(self).tracker().medium_term()@
                        == crate::volatility::window_after_add(
                        old(self).tracker().medium_term()@,
                        now,
                        price,
                        crate::volatility::MEDIUM_TERM_LOOKBACK_MS,
                    )
                    &&& final(self).tracker().long_term()@ == crate::volatility::window_after_add(
                        old(self).tracker().long_term()@,
                        now,
                        price,
                        crate::volatility::LONG_TERM_LOOKBACK_MS,
                    )
                },
    {
        self.volatility_calculator.add_price(price);
    }

    /// Fresh metrics snapshot from the engine's tracker.
    pub fn get_volatility_metrics(&self) -> (r: VolatilityMetrics)
        requires
            self.wf(),
        ensures
            r == self.spec_metrics_now(),
            r.wf(),
    {
        self.volatility_calculator.get_volatility_metrics()
    }

    /// The most recent signal kept for a pool, if any.
    pub fn last_signal_for(&self, pool: &String) -> (r: Option<&MarketMakingSignal>)
        requires
            self.wf(),
        ensures
            r matches Some(s) ==> exists|i: int|
                0 <= i < self.signals().len() && (#[trigger] self.signals()[i]) == *s
                    && s.pool@ == pool@,
            r is None ==> forall|i: int|
                0 <= i < self.signals().len() ==> (#[trigger] self.signals()[i]).pool@ != pool@,
    {
        let n = self.last_signals.len();
        let mut i: usize = 0;
        while i < n
            invariant
                n == self.signals().len(),
                i <= n,
                forall|j: int| 0 <= j < i ==> (#[trigger] self.signals()[j]).pool@ != pool@,
            decreases n - i,
        {
            if string_eq(&self.last_signals[i].pool, pool) {
                return Some(&self.last_signals[i]);
            }
            i = i + 1;
        }
        None
    }

    /// Generates the market-making signal for one pool and caches it
    /// under the pool's name, overwriting the previous one. Every decision
    /// field of the result is the stated function of the inputs and the
    /// tracker's current metrics.
    pub fn generate_market_making_signal(
        &mut self,
        pool_info: &PoolInfo,
        fair_value_price: u64,
        current_pool_price: u64,
        liquidity_depth: LiquidityDepth,
        config: &Config,
    ) -> (r: MarketMakingSignal)
        requires
            old(self).wf(),
            in_price_band(fair_value_price),
            in_price_band(current_pool_price),
            config.wf(),
            liquidity_depth.weth_reserves <= 10_000_000_000_000,
        ensures
            final(self).wf(),
            final(self).tracker() == old(self).tracker(),
            ({
                let metrics = old(self).spec_metrics_now();
                let deviation = spec_divergence_pct(
                    current_pool_price as int,
                    fair_value_price as int,
                );
                let conditions = spec_market_conditions(
                    metrics.long_term_volatility,
                    liquidity_depth,
                    current_pool_price,
                    fair_value_price,
                );
                let inventory = spec_inventory(
                    fair_value_price as int,
                    liquidity_depth.weth_reserves as int,
                    config.max_position_size_eth as int,
                    config.inventory_target_ratio as int,
                    config.rebalance_threshold as int,
                );
                let spread = spec_dynamic_spread_bps(
                    conditions,
                    inventory,
                    metrics,
                    fair_value_price as int,
                    config.base_spread_bps as int,
                );
                let half_spread = (fair_value_price as int) * spread / 20_000;
                &&& r.pool@ == pool_info.name@
                &&& r.id@.len() == 36
                &&& r.fair_value_price == fair_value_price
                &&& r.current_pool_price == current_pool_price
                &&& r.volatility_metrics == metrics
                &&& r.market_conditions == conditions
                &&& r.inventory_analysis == inventory
                &&& r.effective_spread_bps == spread
                &&& r.target_bid_price == fair_value_price - half_spread
                &&& r.target_ask_price == fair_value_price + half_spread
                &&& r.position_size_eth == spec_position_size(
                    inventory,
                    liquidity_depth.weth_reserves as int,
                    metrics,
                    config.max_position_size_eth as int,
                )
                &&& r.strategy == spec_liquidity_strategy(
                    conditions.price_volatility_1h as int,
                    inventory.imbalance_severity,
                    conditions.spread_environment,
                    deviation,
                    fair_value_price as int,
                    config.max_position_size_eth as int,
                )
                &&& r.risk_metrics == spec_risk_metrics(
                    r.position_size_eth as int,
                    fair_value_price as int,
                    metrics,
                    liquidity_depth.depth_quality,
                    config.max_position_size_eth as int,
                )
                &&& r.execution_priority == spec_execution_priority(
                    metrics.recommended_adjustments.execution_urgency,
                    inventory.imbalance_severity,
                    r.risk_metrics.overall_risk_score as int,
                    metrics.impact_assessment,
                    conditions.price_volatility_1h as int,
                    deviation,
                )
                &&& r.rationale@ == spec_rationale(
                    conditions.market_trend,
                    inventory,
                    r.strategy.strategy_type,
                    r.strategy.risk_level,
                    metrics,
                    r.effective_spread_bps,
                    fair_value_price,
                    current_pool_price,
                )
            }),
            // Last write wins: the cache holds a signal like the result
            // under this pool's name, other pools' entries unchanged.
            exists|i: int|
                0 <= i < final(self).signals().len() && signal_like(
                    #[trigger] final(self).signals()[i],
                    r,
                ),
            forall|i: int|
                0 <= i < final(self).signals().len() && (#[trigger] final(self).signals()[i]).pool@
                    != pool_info.name@ ==> exists|j: int|
                    0 <= j < old(self).signals().len() && old(self).signals()[j] == final(self).signals()[i],
    {
        let signal_id = externals::fresh_id();
        let timestamp_ms = externals::current_time_ms();

        let volatility_metrics = self.volatility_calculator.get_volatility_metrics();

        let market_conditions = analyze_market_conditions(
            volatility_metrics.long_term_volatility,
            liquidity_depth,
            current_pool_price,
            fair_value_price,
        );
        let inventory_analysis = analyze_inventory_simulation(
            fair_value_price,
            &liquidity_depth,
            config,
        );
        let effective_spread_bps = calculate_dynamic_spread_with_volatility(
            &market_conditions,
            &inventory_analysis,
            &volatility_metrics,
            fair_value_price,
            config.base_spread_bps,
        );
        proof {
            lemma_mul_div_le(
                fair_value_price as int,
                fair_value_price as int,
                effective_spread_bps as int,
                200,
                20_000,
            );
        }
        let half_spread: u64 = mul_div_u64(fair_value_price, effective_spread_bps as u64, 20_000);
        let target_bid_price = fair_value_price - half_spread;
        let target_ask_price = fair_value_price + half_spread;

        let position_size_eth = calculate_position_size_with_volatility(
            &inventory_analysis,
            &liquidity_depth,
            &volatility_metrics,
            config,
        );
        let strategy = select_liquidity_strategy(
            &market_conditions,
            &inventory_analysis,
            current_pool_price,
            fair_value_price,
            config,
        );
        proof {
            assert(position_size_eth <= MAX_POSITION_CAP_ETH);
        }
        let risk_metrics = calculate_risk_metrics_with_volatility(
            position_size_eth,
            fair_value_price,
            &volatility_metrics,
            &liquidity_depth,
            config,
        );
        let execution_priority = determine_execution_priority_with_volatility(
            &market_conditions,
            &inventory_analysis,
            &risk_metrics,
            &volatility_metrics,
            current_pool_price,
            fair_value_price,
        );
        proof {
            assert(volatility_metrics.recommended_adjustments.position_size_factor <= 1_000_000);
            assert(inventory_analysis.weth_ratio <= 1_000_000);
            assert(inventory_analysis.target_weth_ratio <= 1_000_000);
        }
        let rationale = generate_strategy_rationale_with_volatility(
            &market_conditions,
            &inventory_analysis,
            &strategy,
            &volatility_metrics,
            effective_spread_bps,
            fair_value_price,
            current_pool_price,
        );

        let signal = MarketMakingSignal {
            id: signal_id,
            timestamp_ms,
            pool: pool_info.name.clone(),
            fair_value_price,
            current_pool_price,
            target_bid_price,
            target_ask_price,
            effective_spread_bps,
            position_size_eth,
            inventory_analysis,
            market_conditions,
            strategy,
            risk_metrics,
            volatility_metrics,
            execution_priority,
            rationale,
        };
        self.store_signal(clone_signal(&signal));
        signal
    }

    /// Upserts one signal by pool name: overwrite the existing entry or
    /// append a new one.
    fn store_signal(&mut self, signal: MarketMakingSignal)
        requires
            pools_unique(old(self).signals()),
        ensures
            final(self).tracker() == old(self).tracker(),
            pools_unique(final(self).signals()),
            exists|i: int|
                0 <= i < final(self).signals().len() && #[trigger] final(self).signals()[i]
                    == signal,
            forall|i: int|
                0 <= i < final(self).signals().len() && (#[trigger] final(self).signals()[i]).pool@
                    != signal.pool@ ==> exists|j: int|
                    0 <= j < old(self).signals().len() && old(self).signals()[j] == final(self).signals()[i],
    {
        let n = self.last_signals.len();
        let mut i: usize = 0;
        while i < n
            invariant
                n == self.last_signals@.len(),
                i <= n,
                pools_unique(self.last_signals@),
                self.last_signals@ == old(self).signals(),
                self.volatility_calculator == old(self).tracker(),
                forall|j: int|
                    0 <= j < i ==> (#[trigger] self.last_signals@[j]).pool@ != signal.pool@,
            decreases n - i,
        {
            if string_eq(&self.last_signals[i].pool, &signal.pool) {
                let ghost pre = self.last_signals@;
                let ghost hit: int = i as int;
                let ghost stored = signal;
                self.last_signals.set(i, signal);
                proof {
                    assert(self.last_signals@ =~= pre.update(hit, stored));
                    assert forall|a: int, b: int|
                        0 <= a < b < self.last_signals@.len() implies (
                    #[trigger] self.last_signals@[a]).pool@ != (
                    #[trigger] self.last_signals@[b]).pool@ by {
                        assert(pre[a].pool@ != pre[b].pool@);
                        assert(stored.pool@ == pre[hit].pool@);
                        if a == hit {
                            assert(self.last_signals@[a] == stored);
                            assert(self.last_signals@[b] == pre[b]);
                        } else if b == hit {
                            assert(self.last_signals@[b] == stored);
                            assert(self.last_signals@[a] == pre[a]);
                        } else {
                            assert(self.last_signals@[a] == pre[a]);
                            assert(self.last_signals@[b] == pre[b]);
                        }
                    }
                    assert(self.last_signals@[hit] == stored);
                }
                return ;
            }
            i = i + 1;
        }
        let ghost pre = self.last_signals@;
        let ghost stored = signal;
        self.last_signals.push(signal);
        proof {
            assert(self.last_signals@ =~= pre.push(stored));
            assert forall|a: int, b: int|
                0 <= a < b < self.last_signals@.len() implies (
            #[trigger] self.last_signals@[a]).pool@ != (#[trigger] self.last_signals@[b]).pool@ by {
                if b < pre.len() {
                    assert(pre[a].pool@ != pre[b].pool@);
                } else {
                    assert(self.last_signals@[b] == stored);
                    assert(pre[a].pool@ != stored.pool@);
                }
            }
            assert(self.last_signals@[pre.len() as int] == stored);
        }
    }
}

} // verus!
