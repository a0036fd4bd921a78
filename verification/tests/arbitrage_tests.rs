use aero_arb_mm_bot::arbitrage::calculate_arbitrage;
use aero_arb_mm_bot::validation::{
    validate_price, validate_liquidity, validate_opportunity_with_volatility,
};
use aero_arb_mm_bot::volatility::metrics_from_percentages;
use aero_arb_mm_bot::errors::BotError;

// Scenario: reference $3000, DEX $3010, size 0.1 ETH: gross $1.00, net
// $0.98 after the fixed $0.02 gas cost.
#[test]
fn detect_scenario_3000_vs_3010() {
    let opp = calculate_arbitrage("WETH/USDC", 3_010_000_000, 3_000_000_000, 100_000)
        .expect("0.33% divergence is above the threshold");
    assert_eq!(opp.pool, "WETH/USDC");
    assert_eq!(opp.direction, "Buy on Binance -> Sell on Aerodrome");
    assert_eq!(opp.price_diff_pct, 333_333);
    assert_eq!(opp.gross_profit_usd, 1_000_000);
    assert_eq!(opp.gas_cost_usd, 20_000);
    assert_eq!(opp.net_profit_usd, 980_000);
    // ROI: 0.98 / (0.1 * 3000) * 100 = 0.326666%.
    assert_eq!(opp.roi_pct, 326_666);
    assert_eq!(opp.id.len(), 36);
    assert!(opp.volatility_assessment.is_none());
    assert!(opp.execution_simulation.is_none());
    assert!(!opp.validation_checks.all_passed);
}

#[test]
fn detect_rejects_divergence_below_threshold() {
    // $3001 vs $3000 is 0.0333%, under the 0.05% floor.
    assert!(calculate_arbitrage("p", 3_001_000_000, 3_000_000_000, 100_000).is_none());
    // $3001.50 vs $3000 is exactly 0.05%.
    assert!(calculate_arbitrage("p", 3_001_500_000, 3_000_000_000, 100_000).is_some());
}

// Widening the gap past the threshold never turns Some back into None.
#[test]
fn detect_monotonic_in_divergence() {
    let mut last_detected = false;
    for step in 0..60u64 {
        let dex = 3_000_000_000 + step * 100_000;
        let detected = calculate_arbitrage("p", dex, 3_000_000_000, 100_000).is_some();
        assert!(
            !last_detected || detected,
            "detection flipped back to none at step {}",
            step
        );
        last_detected = detected;
    }
    assert!(last_detected);
}

#[test]
fn detect_direction_follows_price_sign() {
    let cheap_dex = calculate_arbitrage("p", 2_980_000_000, 3_000_000_000, 100_000).unwrap();
    assert_eq!(cheap_dex.direction, "Buy on Aerodrome -> Sell on Binance");
    let rich_dex = calculate_arbitrage("p", 3_020_000_000, 3_000_000_000, 100_000).unwrap();
    assert_eq!(rich_dex.direction, "Buy on Binance -> Sell on Aerodrome");
}

#[test]
fn price_validation_band() {
    assert!(validate_price(3_000_000_000, "CEX").is_ok());
    assert!(validate_price(100_000_000, "CEX").is_ok());
    assert!(validate_price(100_000_000_000, "CEX").is_ok());
    match validate_price(99_999_999, "CEX") {
        Err(BotError::PriceValidation { price, reason }) => {
            assert_eq!(price, 99_999_999);
            assert_eq!(reason, "CEX price out of reasonable range");
        }
        other => panic!("expected a price validation error, got {:?}", other),
    }
    assert!(validate_price(100_000_000_001, "DEX").is_err());
}

#[test]
fn liquidity_floors_and_messages() {
    assert!(validate_liquidity(100_000, 100_000_000).is_ok());
    match validate_liquidity(50_000, 200_000_000) {
        Err(m) => assert_eq!(m, "Insufficient WETH liquidity: 0.050000 WETH"),
        Ok(()) => panic!("0.05 WETH is under the floor"),
    }
    match validate_liquidity(200_000, 50_000_000) {
        Err(m) => assert_eq!(m, "Insufficient USD liquidity: $50.000000"),
        Ok(()) => panic!("$50 is under the floor"),
    }
}

// Scenario: reserves under the floor fail the liquidity check and the
// aggregate flag, with a warning naming the shortfall.
#[test]
fn validation_low_liquidity_scenario() {
    let opp = calculate_arbitrage("p", 3_010_000_000, 3_000_000_000, 100_000).unwrap();
    let metrics = metrics_from_percentages(1_000_000, 1_000_000, 1_000_000);
    let result = validate_opportunity_with_volatility(
        &opp,
        Some((50_000, 50_000_000)),
        &metrics,
        5_000_000,
    );
    assert!(!result.liquidity_check);
    assert!(!result.all_passed);
    assert!(result
        .warnings
        .iter()
        .any(|w| w == "Low liquidity: 0.050000 WETH, $50.000000 USD"));
    // The other checks stand on their own.
    assert!(result.price_sanity);
    assert!(result.gas_economics);
    assert!(result.slippage_acceptable);
    assert!(result.volatility_acceptable);
}

#[test]
fn validation_all_checks_pass_on_healthy_input() {
    let opp = calculate_arbitrage("p", 3_010_000_000, 3_000_000_000, 100_000).unwrap();
    let metrics = metrics_from_percentages(1_000_000, 1_000_000, 1_000_000);
    // 1000 WETH and $3M: floors met, 0.1 ETH is far under 1% of the pool.
    let result = validate_opportunity_with_volatility(
        &opp,
        Some((1_000_000_000, 3_000_000_000_000)),
        &metrics,
        5_000_000,
    );
    assert!(result.price_sanity);
    assert!(result.liquidity_check);
    assert!(result.gas_economics);
    assert!(result.slippage_acceptable);
    assert!(result.volatility_acceptable);
    assert!(result.all_passed);
    assert!(result.warnings.is_empty());
}

#[test]
fn validation_missing_snapshot_fails_liquidity() {
    let opp = calculate_arbitrage("p", 3_010_000_000, 3_000_000_000, 100_000).unwrap();
    let metrics = metrics_from_percentages(1_000_000, 1_000_000, 1_000_000);
    let result = validate_opportunity_with_volatility(&opp, None, &metrics, 5_000_000);
    assert!(!result.liquidity_check);
    assert!(!result.all_passed);
    assert!(result.warnings.iter().any(|w| w == "Failed to fetch liquidity data"));
}

#[test]
fn validation_high_volatility_only_warns() {
    let opp = calculate_arbitrage("p", 3_010_000_000, 3_000_000_000, 100_000).unwrap();
    // 8% short-term volatility against a 5% threshold.
    let metrics = metrics_from_percentages(8_000_000, 8_000_000, 8_000_000);
    let result = validate_opportunity_with_volatility(
        &opp,
        Some((1_000_000_000, 3_000_000_000_000)),
        &metrics,
        5_000_000,
    );
    assert!(!result.volatility_acceptable);
    // High volatility alone does not gate the aggregate flag.
    assert!(result.all_passed);
    assert_eq!(result.warnings.len(), 1);
}

#[test]
fn validation_oversized_trade_gates_aggregate() {
    // 10 ETH against a 100 WETH pool is 10% of the reserve.
    let opp = calculate_arbitrage("p", 3_010_000_000, 3_000_000_000, 10_000_000).unwrap();
    let metrics = metrics_from_percentages(1_000_000, 1_000_000, 1_000_000);
    let result = validate_opportunity_with_volatility(
        &opp,
        Some((100_000_000, 3_000_000_000_000)),
        &metrics,
        5_000_000,
    );
    assert!(result.liquidity_check);
    assert!(!result.all_passed);
    assert!(result.warnings.iter().any(|w| w.contains("of pool liquidity")));
}

#[test]
fn validation_unprofitable_fails_gas_economics() {
    // 0.051% divergence on 0.01 ETH: gross $0.0153 is under the $0.02 gas.
    let opp = calculate_arbitrage("p", 3_001_530_000, 3_000_000_000, 10_000).unwrap();
    assert!(opp.net_profit_usd < 0);
    let metrics = metrics_from_percentages(1_000_000, 1_000_000, 1_000_000);
    let result = validate_opportunity_with_volatility(
        &opp,
        Some((1_000_000_000, 3_000_000_000_000)),
        &metrics,
        5_000_000,
    );
    assert!(!result.gas_economics);
    assert!(!result.all_passed);
    assert!(result.warnings.iter().any(|w| w == "Insufficient profit after gas"));
}
