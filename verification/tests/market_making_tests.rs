use aero_arb_mm_bot::config::Config;
use aero_arb_mm_bot::market_making::{
    MarketMakingEngine, LiquidityDepth, DepthQuality, InventoryImbalance, MarketTrend,
    SpreadEnvironment, VolumeProfile, StrategyType, RiskLevel, ExecutionPriority,
    InventoryAnalysis, analyze_market_conditions, analyze_inventory_simulation,
    calculate_dynamic_spread_with_volatility, calculate_position_size_with_volatility,
    select_liquidity_strategy, calculate_risk_metrics_with_volatility,
    determine_execution_priority_with_volatility,
};
use aero_arb_mm_bot::pools::PoolInfo;
use aero_arb_mm_bot::addresses::Address;
use aero_arb_mm_bot::volatility::metrics_from_percentages;

fn default_config() -> Config {
    Config::from_overrides(
        None, None, None, None, None, None, None, None, None, None, None, None, None, None, None,
    )
}

fn deep_pool() -> LiquidityDepth {
    LiquidityDepth {
        total_liquidity_usd: 6_000_000_000_000,
        weth_reserves: 1_000_000_000,
        usd_reserves: 3_000_000_000_000,
        depth_quality: DepthQuality::Good,
    }
}

fn balanced_inventory() -> InventoryAnalysis {
    InventoryAnalysis {
        current_weth_balance: 2_000_000,
        current_usd_balance: 9_000_000_000,
        total_value_usd: 15_000_000_000,
        weth_ratio: 500_000,
        target_weth_ratio: 500_000,
        imbalance_severity: InventoryImbalance::Balanced,
        rebalance_needed: false,
        rebalance_amount_eth: 0,
    }
}

#[test]
fn market_conditions_classification() {
    let calm = analyze_market_conditions(1_000_000, deep_pool(), 3_001_000_000, 3_000_000_000);
    assert_eq!(calm.spread_environment, SpreadEnvironment::Tight);
    assert_eq!(calm.market_trend, MarketTrend::Sideways);
    assert_eq!(calm.volume_profile, VolumeProfile::High);

    let bullish = analyze_market_conditions(1_000_000, deep_pool(), 3_010_000_000, 3_000_000_000);
    assert_eq!(bullish.market_trend, MarketTrend::Bullish);
    assert_eq!(bullish.spread_environment, SpreadEnvironment::Normal);

    let bearish = analyze_market_conditions(1_000_000, deep_pool(), 2_970_000_000, 3_000_000_000);
    assert_eq!(bearish.market_trend, MarketTrend::Bearish);
    assert_eq!(bearish.spread_environment, SpreadEnvironment::VeryWide);

    let thin = LiquidityDepth { total_liquidity_usd: 50_000_000_000, ..deep_pool() };
    let low = analyze_market_conditions(1_000_000, thin, 3_000_000_000, 3_000_000_000);
    assert_eq!(low.volume_profile, VolumeProfile::Low);
}

// Inventory scenario with exact arithmetic: 5 ETH maximum position at
// $3000 fair value gives a 0.4 ratio against a 0.5 target.
#[test]
fn inventory_simulation_exact_values() {
    let config = default_config();
    let inv = analyze_inventory_simulation(3_000_000_000, &deep_pool(), &config);
    assert_eq!(inv.current_weth_balance, 2_000_000);
    assert_eq!(inv.current_usd_balance, 9_000_000_000);
    assert_eq!(inv.total_value_usd, 15_000_000_000);
    assert_eq!(inv.weth_ratio, 400_000);
    assert_eq!(inv.target_weth_ratio, 500_000);
    assert_eq!(inv.imbalance_severity, InventoryImbalance::SlightlyShort);
    // The 0.1 gap does not exceed the 0.1 threshold, so no rebalance.
    assert!(!inv.rebalance_needed);
    assert_eq!(inv.rebalance_amount_eth, 0);
}

#[test]
fn inventory_caps_at_tenth_of_pool() {
    let config = default_config();
    let shallow = LiquidityDepth {
        total_liquidity_usd: 100_000_000_000,
        weth_reserves: 10_000_000,  // 10 ETH pool
        usd_reserves: 30_000_000_000,
        depth_quality: DepthQuality::Poor,
    };
    let inv = analyze_inventory_simulation(3_000_000_000, &shallow, &config);
    // 40% of 5 ETH would be 2 ETH, but a tenth of the pool is only 1 ETH.
    assert_eq!(inv.current_weth_balance, 1_000_000);
    assert_eq!(inv.imbalance_severity, InventoryImbalance::SignificantlyShort);
    assert!(inv.rebalance_needed);
    assert!(inv.rebalance_amount_eth > 0);
}

// The dynamic spread never leaves [MIN_SPREAD_BPS, MAX_SPREAD_BPS],
// however extreme the inputs.
#[test]
fn spread_clamped_under_extreme_inputs() {
    let config = default_config();
    let wild_metrics = metrics_from_percentages(20_000_000, 10_000_000, 4_000_000);
    let mut conditions =
        analyze_market_conditions(20_000_000, deep_pool(), 2_900_000_000, 3_000_000_000);
    conditions.liquidity_depth.depth_quality = DepthQuality::Poor;
    let mut inventory = balanced_inventory();
    inventory.imbalance_severity = InventoryImbalance::CriticallyImbalanced;
    let spread = calculate_dynamic_spread_with_volatility(
        &conditions,
        &inventory,
        &wild_metrics,
        9_000_000_000,
        config.base_spread_bps,
    );
    assert_eq!(spread, 200);

    let calm_metrics = metrics_from_percentages(500_000, 500_000, 500_000);
    let tight = analyze_market_conditions(500_000, deep_pool(), 3_000_000_000, 3_000_000_000);
    let spread = calculate_dynamic_spread_with_volatility(
        &tight,
        &balanced_inventory(),
        &calm_metrics,
        3_000_000_000,
        10,
    );
    assert_eq!(spread, 10);
}

#[test]
fn spread_exact_calm_case() {
    // Base 30 bps, low impact, stable trend, fair value inside the normal
    // band, balanced inventory, good depth (x1.05), normal environment.
    let metrics = metrics_from_percentages(1_000_000, 1_000_000, 1_000_000);
    let conditions =
        analyze_market_conditions(1_000_000, deep_pool(), 3_010_000_000, 3_000_000_000);
    assert_eq!(conditions.spread_environment, SpreadEnvironment::Normal);
    let spread = calculate_dynamic_spread_with_volatility(
        &conditions,
        &balanced_inventory(),
        &metrics,
        3_000_000_000,
        30,
    );
    assert_eq!(spread, 31);
}

#[test]
fn position_size_scales_down_with_volatility() {
    let config = default_config();
    let calm = metrics_from_percentages(1_000_000, 1_000_000, 1_000_000);
    let size =
        calculate_position_size_with_volatility(&balanced_inventory(), &deep_pool(), &calm, &config);
    // A tenth of the 5 ETH maximum position.
    assert_eq!(size, 500_000);

    let extreme = metrics_from_percentages(12_000_000, 12_000_000, 12_000_000);
    let size = calculate_position_size_with_volatility(
        &balanced_inventory(),
        &deep_pool(),
        &extreme,
        &config,
    );
    // 0.5 ETH x 0.25 x 0.5 = 0.0625 ETH.
    assert_eq!(size, 62_500);
}

#[test]
fn strategy_selection_rules() {
    let config = default_config();
    let normal_env =
        analyze_market_conditions(1_000_000, deep_pool(), 3_010_000_000, 3_000_000_000);
    let s = select_liquidity_strategy(
        &normal_env,
        &balanced_inventory(),
        3_010_000_000,
        3_000_000_000,
        &config,
    );
    assert_eq!(s.strategy_type, StrategyType::TrendFollowing);
    assert_eq!(s.duration_estimate_secs, 7200);
    assert_eq!(s.risk_level, RiskLevel::Conservative);
    assert_eq!(s.bid_size_eth, 500_000);
    assert_eq!(s.ask_size_eth, 500_000);
    assert_eq!(s.range_bounds.lower_bound, 2_850_000_000);
    assert_eq!(s.range_bounds.upper_bound, 3_150_000_000);

    // Deviation under 0.1% in a tight environment quotes tight.
    let tight = analyze_market_conditions(1_000_000, deep_pool(), 3_002_000_000, 3_000_000_000);
    let s = select_liquidity_strategy(
        &tight,
        &balanced_inventory(),
        3_002_000_000,
        3_000_000_000,
        &config,
    );
    assert_eq!(s.strategy_type, StrategyType::TightSpread);

    // A significantly short book switches to inventory management with
    // skewed sizes.
    let mut short_book = balanced_inventory();
    short_book.imbalance_severity = InventoryImbalance::SignificantlyShort;
    let s = select_liquidity_strategy(
        &tight,
        &short_book,
        3_001_000_000,
        3_000_000_000,
        &config,
    );
    assert_eq!(s.strategy_type, StrategyType::InventoryManagement);
    assert_eq!(s.bid_size_eth, 750_000);
    assert_eq!(s.ask_size_eth, 150_000);

    // Hourly volatility over 15% adapts to volatility.
    let stormy = analyze_market_conditions(16_000_000, deep_pool(), 3_000_000_000, 3_000_000_000);
    let s = select_liquidity_strategy(
        &stormy,
        &balanced_inventory(),
        3_000_000_000,
        3_000_000_000,
        &config,
    );
    assert_eq!(s.strategy_type, StrategyType::VolatilityAdaptive);
    assert_eq!(s.risk_level, RiskLevel::Aggressive);
}

#[test]
fn risk_metrics_exact_values() {
    let config = default_config();
    let metrics = metrics_from_percentages(1_000_000, 1_000_000, 1_000_000);
    let r = calculate_risk_metrics_with_volatility(
        500_000,
        3_000_000_000,
        &metrics,
        &deep_pool(),
        &config,
    );
    // Position value $1500; VaR = 1500 * 4.899% * 1.65 = $121.25025.
    assert_eq!(r.value_at_risk_1d, 121_250_250);
    assert_eq!(r.max_drawdown_usd, 150_000_000);
    // 0.5 of 5 ETH is 10 points.
    assert_eq!(r.inventory_risk_score, 10_000_000);
    assert_eq!(r.liquidity_risk_score, 25_000_000);
    assert_eq!(r.volatility_risk_score, 10_000_000);
    // 0.3*10 + 0.25*25 + 0.35*10 + 0.1*1 = 12.85 points.
    assert_eq!(r.overall_risk_score, 12_850_000);
    // 5 ETH * (100 - 12.85) / 100 = 4.3575 ETH.
    assert_eq!(r.recommended_max_exposure, 4_357_500);
}

#[test]
fn execution_priority_precedence() {
    let config = default_config();
    let calm = metrics_from_percentages(1_000_000, 1_000_000, 1_000_000);
    let conditions = analyze_market_conditions(1_000_000, deep_pool(), 3_030_000_000, 3_000_000_000);
    let risk = calculate_risk_metrics_with_volatility(
        500_000,
        3_000_000_000,
        &calm,
        &deep_pool(),
        &config,
    );
    // Fast urgency with a 1% deviation acts immediately.
    let p = determine_execution_priority_with_volatility(
        &conditions,
        &balanced_inventory(),
        &risk,
        &calm,
        3_030_000_000,
        3_000_000_000,
    );
    assert_eq!(p, ExecutionPriority::Immediate);

    // Cautious urgency stands down whatever else holds.
    let stormy = metrics_from_percentages(12_000_000, 12_000_000, 12_000_000);
    let p = determine_execution_priority_with_volatility(
        &conditions,
        &balanced_inventory(),
        &risk,
        &stormy,
        3_030_000_000,
        3_000_000_000,
    );
    assert_eq!(p, ExecutionPriority::Low);

    // Normal urgency with a 0.2% deviation is routine.
    let moderate = metrics_from_percentages(3_000_000, 3_000_000, 1_500_000);
    let p = determine_execution_priority_with_volatility(
        &conditions,
        &balanced_inventory(),
        &risk,
        &moderate,
        3_006_000_000,
        3_000_000_000,
    );
    assert_eq!(p, ExecutionPriority::Medium);
}

#[test]
fn engine_generates_and_caches_signal() {
    let config = default_config();
    let mut engine = MarketMakingEngine::new();
    for i in 0..12u64 {
        engine.update_price_history(3_000_000_000 + (i % 4) * 1_000_000);
    }
    let pool = PoolInfo {
        address: Address { bytes: [1u8; 20] },
        name: String::from("vAMM-WETH/USDbC"),
        token0: Address { bytes: [2u8; 20] },
        token1: Address { bytes: [3u8; 20] },
        is_stable: false,
        min_liquidity_usd: 1_000_000_000,
    };
    let signal = engine.generate_market_making_signal(
        &pool,
        3_000_000_000,
        3_004_000_000,
        deep_pool(),
        &config,
    );
    assert_eq!(signal.pool, "vAMM-WETH/USDbC");
    assert_eq!(signal.id.len(), 36);
    assert_eq!(signal.fair_value_price, 3_000_000_000);
    assert_eq!(signal.current_pool_price, 3_004_000_000);
    assert!(signal.effective_spread_bps >= 10 && signal.effective_spread_bps <= 200);
    // Bid and ask sit half the spread around fair value.
    let half = 3_000_000_000u64 * signal.effective_spread_bps as u64 / 20_000;
    assert_eq!(signal.target_bid_price, 3_000_000_000 - half);
    assert_eq!(signal.target_ask_price, 3_000_000_000 + half);
    assert!(!signal.rationale.is_empty());

    let cached = engine.last_signal_for(&String::from("vAMM-WETH/USDbC"));
    assert!(cached.is_some());
    assert_eq!(cached.unwrap().id, signal.id);
    assert!(engine.last_signal_for(&String::from("other")).is_none());

    // Last write wins: a second signal replaces the first.
    let second = engine.generate_market_making_signal(
        &pool,
        3_000_000_000,
        3_010_000_000,
        deep_pool(),
        &config,
    );
    let cached = engine.last_signal_for(&String::from("vAMM-WETH/USDbC")).unwrap();
    assert_eq!(cached.id, second.id);
    assert_eq!(cached.current_pool_price, 3_010_000_000);
}

#[test]
fn spread_environment_boundaries() {
    // 0.2% of $3000 is $6: exactly at the boundary leaves the tight tier.
    let c = analyze_market_conditions(0, deep_pool(), 3_005_999_000, 3_000_000_000);
    assert_eq!(c.spread_environment, SpreadEnvironment::Tight);
    let c = analyze_market_conditions(0, deep_pool(), 3_006_000_000, 3_000_000_000);
    assert_eq!(c.spread_environment, SpreadEnvironment::Normal);
    let c = analyze_market_conditions(0, deep_pool(), 3_015_000_000, 3_000_000_000);
    assert_eq!(c.spread_environment, SpreadEnvironment::Wide);
    let c = analyze_market_conditions(0, deep_pool(), 3_030_000_000, 3_000_000_000);
    assert_eq!(c.spread_environment, SpreadEnvironment::VeryWide);
}

#[test]
fn rationale_is_a_market_analysis_narrative() {
    let config = default_config();
    let mut engine = MarketMakingEngine::new();
    let pool = PoolInfo {
        address: Address { bytes: [1u8; 20] },
        name: String::from("WETH/USDC"),
        token0: Address { bytes: [2u8; 20] },
        token1: Address { bytes: [3u8; 20] },
        is_stable: false,
        min_liquidity_usd: 1_000_000_000,
    };
    let signal = engine.generate_market_making_signal(
        &pool,
        3_000_000_000,
        3_004_000_000,
        deep_pool(),
        &config,
    );
    // 3004 vs 3000 is a +0.133333% deviation.
    assert!(signal.rationale.starts_with(
        "Market Analysis: Current price $3004.000000 vs fair value $3000.000000 \
         (+0.133333% deviation). Volatility: Short="
    ));
    assert!(signal.rationale.contains("(Trend: "));
    assert!(signal.rationale.contains(", Impact: "));
    assert!(signal.rationale.contains("Effective spread:"));
}
