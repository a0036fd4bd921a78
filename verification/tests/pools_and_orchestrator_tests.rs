use aero_arb_mm_bot::addresses::Address;
use aero_arb_mm_bot::circuit_breaker::CircuitBreaker;
use aero_arb_mm_bot::config::{
    Config, MIN_TRADE_SIZE_ETH, MAX_TRADE_SIZE_ETH, MIN_SPREAD_BPS, MAX_SPREAD_BPS,
};
use aero_arb_mm_bot::execution::{
    TradeExecution, TradeType, ExecutionStatus, create_simulated_execution,
    create_failed_execution, simulated_latency_ms,
};
use aero_arb_mm_bot::arbitrage::calculate_arbitrage;
use aero_arb_mm_bot::market_making::DepthQuality;
use aero_arb_mm_bot::orchestrator::{
    ErrorCountTable, MonitoringState, CexRecoveryOutcome, PoolErrorDisposition, plan_cex_recovery,
    plan_pool_error_response, run_health_check, errors_exceed_ceiling,
};
use aero_arb_mm_bot::pools::{
    PoolInfo, accept_pool, orient_reserves, calculate_pool_price, reserve_amounts,
    analyze_liquidity_depth,
};
use aero_arb_mm_bot::recovery::{RecoveryAction, LogLevel};
use aero_arb_mm_bot::errors::BotError;
use aero_arb_mm_bot::text::{u64_to_string, micros_to_string};
use aero_arb_mm_bot::volatility::metrics_from_percentages;
use aero_arb_mm_bot::externals::random_fraction_micros;

fn addr(tag: u8) -> Address {
    Address { bytes: [tag; 20] }
}

fn pool(token0: u8, token1: u8) -> PoolInfo {
    PoolInfo {
        address: addr(9),
        name: String::from("WETH/USDC"),
        token0: addr(token0),
        token1: addr(token1),
        is_stable: false,
        min_liquidity_usd: 1_000_000_000,
    }
}

#[test]
fn pool_acceptance_and_orientation() {
    let weth = addr(1);
    let usdc = addr(2);
    let usdbc = addr(3);

    assert!(accept_pool(&pool(1, 2), 10, 10, &weth, &usdc, &usdbc).is_ok());
    assert_eq!(
        accept_pool(&pool(4, 2), 10, 10, &weth, &usdc, &usdbc),
        Err(String::from("Not a WETH/USD pool"))
    );
    assert_eq!(
        accept_pool(&pool(1, 2), 0, 10, &weth, &usdc, &usdbc),
        Err(String::from("Pool has zero liquidity"))
    );

    // WETH first: reserves keep their order, USDC has six decimals.
    assert_eq!(
        orient_reserves(&pool(1, 2), 11, 22, &weth, &usdc, &usdbc),
        Ok((11, 22, 6))
    );
    // WETH second: reserves swap.
    assert_eq!(
        orient_reserves(&pool(3, 1), 11, 22, &weth, &usdc, &usdbc),
        Ok((22, 11, 6))
    );
    // An unrecognized quote asset defaults to eighteen decimals.
    assert_eq!(
        orient_reserves(&pool(1, 7), 11, 22, &weth, &usdc, &usdbc),
        Ok((11, 22, 18))
    );
}

#[test]
fn pool_price_from_reserves() {
    // 3000 WETH (18 decimals) against $9,000,000 (6 decimals): $3000.
    let price = calculate_pool_price(
        3_000_000_000_000_000_000_000,
        9_000_000_000_000,
        6,
    );
    assert_eq!(price, Ok(3_000_000_000));
    assert_eq!(
        calculate_pool_price(0, 9_000_000_000_000, 6),
        Err(String::from("Pool has zero reserves"))
    );
    // A raw base reserve under one micro-ETH reads as zero.
    assert_eq!(
        calculate_pool_price(999_999_999_999, 9_000_000_000_000, 6),
        Err(String::from("WETH amount is zero"))
    );
    // $50 per ETH is under the sanity floor.
    assert_eq!(
        calculate_pool_price(3_000_000_000_000_000_000_000, 150_000_000_000, 6),
        Err(String::from("DEX price out of reasonable range"))
    );
}

#[test]
fn reserve_amounts_and_depth() {
    let amounts = reserve_amounts(3_000_000_000_000_000_000_000, 9_000_000_000_000, 6);
    assert_eq!(amounts, Some((3_000_000_000, 9_000_000_000_000)));

    let depth = analyze_liquidity_depth(3_000_000_000, 9_000_000_000_000, 3_000_000_000);
    // $9M in WETH plus $9M in USD: $18M total, excellent depth.
    assert_eq!(depth.total_liquidity_usd, 18_000_000_000_000);
    assert_eq!(depth.depth_quality, DepthQuality::Excellent);

    let thin = analyze_liquidity_depth(10_000_000, 30_000_000_000, 3_000_000_000);
    assert_eq!(thin.total_liquidity_usd, 60_000_000_000);
    assert_eq!(thin.depth_quality, DepthQuality::Poor);
}

#[test]
fn monitoring_state_counters() {
    let mut s = MonitoringState::new();
    assert_eq!(s.total_opportunities, 0);
    s.record_opportunity();
    s.record_profitable_opportunity(980_000);
    s.record_profitable_opportunity(500_000);
    s.record_signal();
    s.record_execution(true);
    s.record_execution(false);
    assert_eq!(s.total_opportunities, 1);
    assert_eq!(s.profitable_opportunities, 2);
    assert_eq!(s.total_potential_profit_usd, 1_480_000);
    assert_eq!(s.total_market_making_signals, 1);
    assert_eq!(s.total_executions, 2);
    assert_eq!(s.successful_executions, 1);

    s.note_cex_failure();
    s.note_cex_failure();
    assert_eq!(s.consecutive_cex_failures, 2);
    s.note_cex_success(3_000_000_000, 42_000);
    assert_eq!(s.consecutive_cex_failures, 0);
    assert_eq!(s.last_known_cex_price, Some(3_000_000_000));
    assert_eq!(s.cex_last_update_ms, Some(42_000));
}

// Per-site failures accumulate toward the running total behind the
// health-warning ceiling: reference-price failures, each pool's failures
// and storage failures all count.
#[test]
fn error_table_counts_each_site() {
    let mut t = ErrorCountTable::new();
    assert_eq!(t.total(), 0);
    t.note_error("cex_price");
    t.note_error("pool_WETH/USDC");
    t.note_error("pool_WETH/USDC");
    t.note_error("pool_vAMM-WETH/USDbC");
    t.note_error("save_opportunity");
    assert_eq!(t.count_for("cex_price"), 1);
    assert_eq!(t.count_for("pool_WETH/USDC"), 2);
    assert_eq!(t.count_for("pool_vAMM-WETH/USDbC"), 1);
    assert_eq!(t.count_for("save_opportunity"), 1);
    assert_eq!(t.count_for("save_execution"), 0);
    assert_eq!(t.total(), 5);
    assert!(!errors_exceed_ceiling(t.total()));
}

#[test]
fn error_table_feeds_the_ceiling() {
    let mut t = ErrorCountTable::new();
    for _ in 0..1001 {
        t.note_error("pool_WETH/USDC");
    }
    assert_eq!(t.count_for("pool_WETH/USDC"), 1001);
    assert!(errors_exceed_ceiling(t.total()));
}

#[test]
fn statistics_cadence() {
    let mut s = MonitoringState::new();
    assert!(!s.should_print_statistics());
    for _ in 0..50 {
        s.record_opportunity();
    }
    assert!(s.should_print_statistics());
    s.record_opportunity();
    assert!(!s.should_print_statistics());
}

#[test]
fn cex_recovery_planning() {
    // A retry waits out its delay.
    match plan_cex_recovery(RecoveryAction::Retry { delay_ms: 1000 }, Some(3_000_000_000), 1) {
        CexRecoveryOutcome::Wait { delay_ms } => assert_eq!(delay_ms, 1000),
        other => panic!("expected a wait, got {:?}", other),
    }
    // A skip falls back to the stale price while the streak is short.
    match plan_cex_recovery(
        RecoveryAction::Skip { log_level: LogLevel::Warn },
        Some(2_999_000_000),
        3,
    ) {
        CexRecoveryOutcome::UseFallbackPrice { price } => assert_eq!(price, 2_999_000_000),
        other => panic!("expected the fallback price, got {:?}", other),
    }
    // Past three failures the breaker takes over.
    assert!(matches!(
        plan_cex_recovery(
            RecoveryAction::Skip { log_level: LogLevel::Warn },
            Some(2_999_000_000),
            4,
        ),
        CexRecoveryOutcome::TripBreaker
    ));
    assert!(matches!(
        plan_cex_recovery(RecoveryAction::Skip { log_level: LogLevel::Warn }, None, 1),
        CexRecoveryOutcome::TripBreaker
    ));
    match plan_cex_recovery(
        RecoveryAction::Shutdown { reason: String::from("fatal") },
        None,
        0,
    ) {
        CexRecoveryOutcome::Shutdown { reason } => assert_eq!(reason, "fatal"),
        other => panic!("expected a shutdown, got {:?}", other),
    }
    assert!(matches!(
        plan_cex_recovery(RecoveryAction::Escalate, None, 0),
        CexRecoveryOutcome::Ignore
    ));
}

#[test]
fn pool_error_dispositions() {
    assert_eq!(
        plan_pool_error_response(&BotError::InsufficientLiquidity {
            pool: String::from("p"),
            details: String::from("d"),
        }),
        PoolErrorDisposition::LogRoutine
    );
    assert_eq!(
        plan_pool_error_response(&BotError::Contract {
            contract: addr(1),
            message: String::from("revert"),
        }),
        PoolErrorDisposition::RecordBreakerError
    );
    assert_eq!(
        plan_pool_error_response(&BotError::DataParsing { context: String::from("c") }),
        PoolErrorDisposition::LogError
    );
    assert!(!errors_exceed_ceiling(1000));
    assert!(errors_exceed_ceiling(1001));
}

#[test]
fn health_check_freshness() {
    let breaker = CircuitBreaker::new(300, 5);
    let h = run_health_check(Some(95_000), Some(80_000), &breaker, 100_000, 40_000);
    assert!(h.dex_connection);
    // 20 seconds old is past the 10-second staleness ceiling.
    assert!(!h.cex_connection);
    assert_eq!(h.uptime_seconds, 60);
    assert_eq!(h.consecutive_errors, 0);
    assert!(!h.circuit_breaker_active);

    let h = run_health_check(None, None, &breaker, 100_000, 100_000);
    assert!(!h.dex_connection);
    assert!(!h.cex_connection);
    assert_eq!(h.uptime_seconds, 0);
}

#[test]
fn config_defaults_and_clamps() {
    let c = Config::from_overrides(
        None, None, None, None, None, None, None, None, None, None, None, None, None, None, None,
    );
    assert_eq!(c.trade_size_eth, 100_000);
    assert_eq!(c.min_profit_usd, 500_000);
    assert_eq!(c.max_consecutive_errors, 5);
    assert_eq!(c.circuit_breaker_cooldown_secs, 300);
    assert!(c.enable_safety_checks);
    assert!(c.enable_market_making);
    assert!(!c.enable_trade_execution);
    assert_eq!(c.base_spread_bps, 30);
    assert_eq!(c.max_position_size_eth, 5_000_000);
    assert_eq!(c.inventory_target_ratio, 500_000);
    assert_eq!(c.rebalance_threshold, 100_000);
    assert_eq!(c.network, "mainnet");
    assert_eq!(c.execution_network, "sepolia");
    assert_eq!(c.max_gas_price_gwei, 50);
    assert_eq!(c.slippage_tolerance_bps, 50);
    assert_eq!(c.volatility_threshold, 5_000_000);
    assert_eq!(c.volatility_spread_multiplier, 2_000_000);

    let c = Config::from_overrides(
        Some(50_000_000),
        Some(1_000),
        None,
        None,
        Some(5),
        None,
        None,
        None,
        None,
        Some(String::from("sepolia")),
        None,
        Some(900),
        Some(400),
        None,
        None,
    );
    assert_eq!(c.trade_size_eth, MAX_TRADE_SIZE_ETH);
    assert_eq!(c.min_profit_usd, 100_000);
    assert_eq!(c.base_spread_bps, MIN_SPREAD_BPS);
    assert_eq!(c.network, "sepolia");
    assert_eq!(c.max_gas_price_gwei, 200);
    assert_eq!(c.slippage_tolerance_bps, 100);
    let c = Config::from_overrides(
        Some(1),
        None,
        None,
        None,
        Some(900),
        None,
        None,
        None,
        None,
        None,
        None,
        None,
        None,
        None,
        None,
    );
    assert_eq!(c.trade_size_eth, MIN_TRADE_SIZE_ETH);
    assert_eq!(c.base_spread_bps, MAX_SPREAD_BPS);
}

#[test]
fn simulated_execution_outcomes() {
    let opp = calculate_arbitrage("p", 3_010_000_000, 3_000_000_000, 100_000).unwrap();
    let calm = metrics_from_percentages(1_000_000, 1_000_000, 1_000_000);
    assert_eq!(simulated_latency_ms(&calm), 100);
    let stormy = metrics_from_percentages(12_000_000, 12_000_000, 12_000_000);
    assert_eq!(simulated_latency_ms(&stormy), 400);

    let record: TradeExecution =
        create_simulated_execution(String::from("exec-1"), &opp, &calm, 137);
    assert_eq!(record.id, "exec-1");
    assert_eq!(record.opportunity_id, opp.id);
    assert_eq!(record.network, "Base Sepolia");
    assert_eq!(record.trade_type, TradeType::BuyCexSellDex);
    assert_eq!(record.gas_used, Some(156_000));
    assert_eq!(record.gas_price_gwei_micros, Some(120_000));
    assert_eq!(record.execution_time_ms, 137);
    assert_eq!(record.expected_profit_usd, 980_000);
    match record.status {
        ExecutionStatus::Simulated => {
            // Low volatility slips 25 bps: $0.98 * 0.9975 = $0.97755.
            assert_eq!(record.slippage_bps, Some(25));
            assert_eq!(record.actual_profit_usd, Some(977_550));
            let hash = record.tx_hash.expect("a successful simulation carries a hash");
            assert_eq!(hash.len(), 34);
            assert!(hash.starts_with("0x"));
            assert!(record.error_message.is_none());
        }
        ExecutionStatus::Failed => {
            assert!(record.slippage_bps.is_none());
            assert!(record.actual_profit_usd.is_none());
            assert!(record.tx_hash.is_none());
            assert_eq!(
                record.error_message.as_deref(),
                Some("Simulated failure due to high volatility")
            );
        }
        ExecutionStatus::Success => panic!("a pure simulation never reports a real success"),
    }

    let failed = create_failed_execution(
        String::from("exec-2"),
        &opp,
        99,
        String::from("connection refused"),
    );
    assert_eq!(failed.status, ExecutionStatus::Failed);
    assert_eq!(failed.error_message.as_deref(), Some("connection refused"));
    assert!(failed.tx_hash.is_none());
    assert_eq!(failed.execution_time_ms, 99);
}

#[test]
fn decimal_rendering() {
    assert_eq!(u64_to_string(0), "0");
    assert_eq!(u64_to_string(42), "42");
    assert_eq!(u64_to_string(10_000), "10000");
    assert_eq!(micros_to_string(3_141_592), "3.141592");
    assert_eq!(micros_to_string(1), "0.000001");
    assert_eq!(micros_to_string(3_000_000_000), "3000.000000");
}

#[test]
fn random_fraction_stays_in_range() {
    for _ in 0..200 {
        assert!(random_fraction_micros() < 1_000_000);
    }
}

#[test]
fn trade_size_bounds_hold() {
    assert!(MIN_TRADE_SIZE_ETH < MAX_TRADE_SIZE_ETH);
    // Detection accepts the full configured size range.
    assert!(calculate_arbitrage("p", 3_010_000_000, 3_000_000_000, MIN_TRADE_SIZE_ETH).is_some());
    assert!(calculate_arbitrage("p", 3_010_000_000, 3_000_000_000, MAX_TRADE_SIZE_ETH).is_some());
}
