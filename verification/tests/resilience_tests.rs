use aero_arb_mm_bot::circuit_breaker::CircuitBreaker;
use aero_arb_mm_bot::errors::{BotError, ErrorClass, classify_error, class_name};
use aero_arb_mm_bot::recovery::{ErrorRecovery, RecoveryAction, LogLevel};
use aero_arb_mm_bot::retry::{RetryConfig, RetrySchedule, RetryDecision, retry_exhausted_error};
use aero_arb_mm_bot::addresses::Address;

fn network_error() -> BotError {
    BotError::Network { message: String::from("timeout"), retry_count: 1 }
}

// Exactly the configured number of consecutive errors opens the breaker;
// the first query after the cooldown goes through and clears the counter.
#[test]
fn breaker_opens_after_threshold_and_resets_after_cooldown() {
    let mut b = CircuitBreaker::new(300, 3);
    assert!(!b.record_error_at(1_000));
    assert!(!b.record_error_at(2_000));
    assert!(b.record_error_at(3_000));
    assert_eq!(b.error_count(), 3);
    assert!(b.open_now());
    // Within the cooldown no caller may proceed.
    assert!(!b.can_proceed_at(3_000 + 300_000));
    assert!(b.open_now());
    // One millisecond past the cooldown it reopens and clears.
    assert!(b.can_proceed_at(3_000 + 300_001));
    assert!(!b.open_now());
    assert_eq!(b.error_count(), 0);
}

#[test]
fn breaker_success_clears_the_streak() {
    let mut b = CircuitBreaker::new(300, 3);
    b.record_error_at(1_000);
    b.record_error_at(2_000);
    b.record_success();
    assert_eq!(b.error_count(), 0);
    assert!(!b.record_error_at(3_000));
    assert!(!b.record_error_at(4_000));
    assert!(b.record_error_at(5_000));
}

#[test]
fn breaker_closed_always_proceeds() {
    let mut b = CircuitBreaker::new(300, 5);
    assert!(b.can_proceed_at(0));
    b.record_error_at(1_000);
    assert!(b.can_proceed_at(2_000));
}

// A failing operation is attempted exactly max_attempts times, and the
// terminal error carries that count.
#[test]
fn retry_gives_up_after_exactly_max_attempts() {
    let config = RetryConfig::default();
    assert_eq!(config.max_attempts, 3);
    let mut schedule = RetrySchedule::new(config);
    let mut invocations = 0u32;
    let outcome = loop {
        // One invocation of the always-failing operation.
        invocations += 1;
        match schedule.on_failure() {
            RetryDecision::RetryAfter { delay_ms } => {
                assert!(delay_ms > 0);
            }
            RetryDecision::GiveUp { retry_count } => break retry_count,
        }
    };
    assert_eq!(invocations, 3);
    assert_eq!(outcome, 3);
    let e = retry_exhausted_error("Binance price fetch", outcome, "connection refused");
    match e {
        BotError::Network { message, retry_count } => {
            assert_eq!(retry_count, 3);
            assert_eq!(
                message,
                "Binance price fetch failed after 3 attempts: connection refused"
            );
        }
        _ => panic!("expected a network error"),
    }
}

// Delays grow geometrically within the five-percent jitter band and stay
// at the ceiling once they reach it.
#[test]
fn retry_delays_grow_until_capped() {
    let config = RetryConfig {
        max_attempts: 6,
        initial_delay_ms: 100,
        max_delay_ms: 400,
        exponential_base_milli: 2000,
    };
    let mut schedule = RetrySchedule::new(config);
    let expected: [u64; 5] = [100, 200, 400, 400, 400];
    for (k, want) in expected.iter().enumerate() {
        match schedule.on_failure() {
            RetryDecision::RetryAfter { delay_ms } => {
                let span = want / 20;
                assert!(
                    delay_ms >= want - span && delay_ms <= want + span,
                    "attempt {}: delay {} outside {}±5%",
                    k + 1,
                    delay_ms,
                    want
                );
            }
            RetryDecision::GiveUp { .. } => panic!("gave up too early"),
        }
    }
    assert!(matches!(schedule.on_failure(), RetryDecision::GiveUp { retry_count: 6 }));
}

#[test]
fn classification_covers_every_variant() {
    let addr = Address { bytes: [0u8; 20] };
    assert_eq!(classify_error(&network_error()), ErrorClass::NetworkTimeout);
    assert_eq!(
        classify_error(&BotError::Contract { contract: addr, message: String::from("revert") }),
        ErrorClass::ContractError
    );
    assert_eq!(
        classify_error(&BotError::PriceValidation {
            price: 5,
            reason: String::from("too low"),
        }),
        ErrorClass::InvalidPrice
    );
    assert_eq!(
        classify_error(&BotError::InsufficientLiquidity {
            pool: String::from("p"),
            details: String::from("d"),
        }),
        ErrorClass::LowLiquidity
    );
    assert_eq!(
        classify_error(&BotError::DataParsing { context: String::from("c") }),
        ErrorClass::ParseError
    );
    assert_eq!(
        classify_error(&BotError::CircuitBreakerOpen {
            reason: String::from("r"),
            cooldown_remaining_ms: 7,
        }),
        ErrorClass::CircuitBreaker
    );
    assert_eq!(class_name(ErrorClass::NetworkTimeout), "network_timeout");
    assert_eq!(class_name(ErrorClass::InvalidPrice), "invalid_price");
    assert_eq!(class_name(ErrorClass::ContractError), "contract_error");
    assert_eq!(class_name(ErrorClass::LowLiquidity), "low_liquidity");
    assert_eq!(class_name(ErrorClass::ParseError), "parse_error");
    assert_eq!(class_name(ErrorClass::CircuitBreaker), "circuit_breaker");
}

// Network timeouts retry five times at one second, then escalate.
#[test]
fn recovery_retries_then_escalates() {
    let mut recovery = ErrorRecovery::new();
    for _ in 0..5 {
        match recovery.handle_error(&network_error()) {
            RecoveryAction::Retry { delay_ms } => assert_eq!(delay_ms, 1000),
            other => panic!("expected a retry, got {:?}", other),
        }
    }
    assert!(matches!(recovery.handle_error(&network_error()), RecoveryAction::Escalate));
}

#[test]
fn recovery_table_dispatch() {
    let mut recovery = ErrorRecovery::new();
    match recovery.handle_error(&BotError::PriceValidation {
        price: 1,
        reason: String::from("bad"),
    }) {
        RecoveryAction::Skip { log_level } => assert_eq!(log_level, LogLevel::Warn),
        other => panic!("expected a skip, got {:?}", other),
    }
    let addr = Address { bytes: [7u8; 20] };
    match recovery.handle_error(&BotError::Contract { contract: addr, message: String::from("x") })
    {
        RecoveryAction::Fallback { source } => assert_eq!(source, "backup_pool"),
        other => panic!("expected a fallback, got {:?}", other),
    }
    assert!(matches!(
        recovery.handle_error(&BotError::InsufficientLiquidity {
            pool: String::from("p"),
            details: String::from("d"),
        }),
        RecoveryAction::Escalate
    ));
    assert!(matches!(
        recovery.handle_error(&BotError::DataParsing { context: String::from("c") }),
        RecoveryAction::Escalate
    ));
    assert_eq!(recovery.total_errors(), 4);
}
