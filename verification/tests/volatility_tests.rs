use aero_arb_mm_bot::volatility::{
    MultiTimeframeVolatilityCalculator, VolatilityCalculator, VolatilityImpact, VolatilityTrend,
    ExecutionUrgency, metrics_from_percentages,
};

// A window never retains a sample older than its lookback.
#[test]
fn window_evicts_samples_older_than_lookback() {
    let mut w = VolatilityCalculator::new(300);
    w.add_value_at(0, 3_000_000_000);
    w.add_value_at(100_000, 3_000_000_000);
    w.add_value_at(200_000, 3_000_000_000);
    assert_eq!(w.sample_count(), 3);
    // At t=400s the t=0 sample is over the 300s lookback; t=100s is exactly
    // at the boundary and stays.
    w.add_value_at(400_000, 3_000_000_000);
    assert_eq!(w.sample_count(), 3);
    assert_eq!(w.window_duration(), Some(300_000));
}

#[test]
fn window_drops_future_samples() {
    let mut w = VolatilityCalculator::new(300);
    w.add_value_at(500_000, 3_000_000_000);
    w.add_value_at(600_000, 3_000_000_000);
    // Clock skew: a sample stamped earlier than the retained ones drops the
    // future-stamped entries.
    w.add_value_at(550_000, 3_000_000_000);
    assert_eq!(w.sample_count(), 2);
}

// Volatility is undefined below ten samples.
#[test]
fn volatility_undefined_below_ten_samples() {
    let mut w = VolatilityCalculator::new(3600);
    for i in 0..9u64 {
        w.add_value_at(i * 1000, 3_000_000_000 + i * 1_000_000);
    }
    assert_eq!(w.calculate_volatility(), None);
    assert_eq!(w.calculate_volatility_percentage(), None);
    w.add_value_at(9_000, 3_000_000_000);
    assert!(w.calculate_volatility().is_some());
    assert!(w.calculate_volatility_percentage().is_some());
}

#[test]
fn volatility_of_constant_prices_is_zero() {
    let mut w = VolatilityCalculator::new(3600);
    for i in 0..10u64 {
        w.add_value_at(i * 1000, 3_000_000_000);
    }
    assert_eq!(w.calculate_volatility(), Some(0));
    assert_eq!(w.calculate_volatility_percentage(), Some(0));
}

#[test]
fn volatility_exact_two_level_population() {
    let mut w = VolatilityCalculator::new(3600);
    // Five samples at $2900 and five at $3100: mean $3000, every deviation
    // $100, so the population standard deviation is exactly $100 and the
    // percentage 100/3000 = 3.3333%.
    for i in 0..5u64 {
        w.add_value_at(i * 1000, 2_900_000_000);
    }
    for i in 5..10u64 {
        w.add_value_at(i * 1000, 3_100_000_000);
    }
    assert_eq!(w.calculate_volatility(), Some(100_000_000));
    assert_eq!(w.calculate_volatility_percentage(), Some(3_333_333));
}

// Scenario: 1%/1%/1% volatility gives low impact, a stable trend, a 1.0
// spread multiplier and fast urgency.
#[test]
fn metrics_scenario_one_percent_everywhere() {
    let m = metrics_from_percentages(1_000_000, 1_000_000, 1_000_000);
    assert_eq!(m.impact_assessment, VolatilityImpact::Low);
    assert_eq!(m.volatility_trend, VolatilityTrend::Stable);
    assert_eq!(m.recommended_adjustments.spread_multiplier, 1_000_000);
    assert_eq!(m.recommended_adjustments.position_size_factor, 1_000_000);
    assert_eq!(m.recommended_adjustments.execution_urgency, ExecutionUrgency::Fast);
}

#[test]
fn metrics_trend_and_impact_tiers() {
    // Each horizon more than a fifth over the next: increasing.
    let m = metrics_from_percentages(3_000_000, 2_000_000, 1_000_000);
    assert_eq!(m.volatility_trend, VolatilityTrend::Increasing);
    assert_eq!(m.impact_assessment, VolatilityImpact::Moderate);
    // Falling by more than a fifth each: decreasing.
    let m = metrics_from_percentages(1_000_000, 2_000_000, 4_000_000);
    assert_eq!(m.volatility_trend, VolatilityTrend::Decreasing);
    // Neither pattern and far apart: volatile.
    let m = metrics_from_percentages(7_000_000, 8_000_000, 3_000_000);
    assert_eq!(m.volatility_trend, VolatilityTrend::Volatile);
    assert_eq!(m.impact_assessment, VolatilityImpact::High);
    let m = metrics_from_percentages(12_000_000, 12_000_000, 12_000_000);
    assert_eq!(m.impact_assessment, VolatilityImpact::Extreme);
    assert_eq!(m.recommended_adjustments.execution_urgency, ExecutionUrgency::Cautious);
}

#[test]
fn high_and_increasing_is_cautious() {
    let m = metrics_from_percentages(8_000_000, 5_000_000, 2_000_000);
    assert_eq!(m.impact_assessment, VolatilityImpact::High);
    assert_eq!(m.volatility_trend, VolatilityTrend::Increasing);
    assert_eq!(m.recommended_adjustments.execution_urgency, ExecutionUrgency::Cautious);
}

// Idempotence: two metric queries with no feed in between agree.
#[test]
fn metrics_idempotent_without_new_prices() {
    let mut t = MultiTimeframeVolatilityCalculator::new();
    for i in 0..12u64 {
        t.add_price_at(i * 2000, 3_000_000_000 + (i % 3) * 5_000_000);
    }
    let a = t.get_volatility_metrics();
    let b = t.get_volatility_metrics();
    assert_eq!(a, b);
}

#[test]
fn tracker_wall_clock_feed_retains_sample() {
    let mut t = MultiTimeframeVolatilityCalculator::new();
    // The wall-clock path stamps all three windows with the same fresh
    // time; a second query still sees the sample.
    t.add_price(3_000_000_000);
    let m = t.get_volatility_metrics();
    // One sample is below the ten-sample floor, so everything reads zero.
    assert_eq!(m.short_term_volatility, 0);
    assert_eq!(m.volatility_trend, VolatilityTrend::Stable);
}

#[test]
fn impact_tier_boundaries() {
    let tier = |v: u64| metrics_from_percentages(v, 0, 0).impact_assessment;
    assert_eq!(tier(1_999_999), VolatilityImpact::Low);
    assert_eq!(tier(2_000_000), VolatilityImpact::Moderate);
    assert_eq!(tier(4_999_999), VolatilityImpact::Moderate);
    assert_eq!(tier(5_000_000), VolatilityImpact::High);
    assert_eq!(tier(9_999_999), VolatilityImpact::High);
    assert_eq!(tier(10_000_000), VolatilityImpact::Extreme);
}

#[test]
fn stable_band_is_one_percentage_point() {
    // |short - long| strictly under one point is stable.
    let m = metrics_from_percentages(4_000_000, 4_000_000, 4_999_999);
    assert_eq!(m.volatility_trend, VolatilityTrend::Stable);
    let m = metrics_from_percentages(4_000_000, 4_000_000, 5_000_000);
    assert_eq!(m.volatility_trend, VolatilityTrend::Volatile);
}
