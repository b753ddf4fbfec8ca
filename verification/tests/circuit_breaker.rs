use risk_management::risk::circuit_breaker::{CircuitBreaker, CircuitBreakerConfig};

#[test]
fn test_consecutive_losses() {
    let mut cb = CircuitBreaker::new().max_consecutive_losses(3);

    assert!(cb.check().passed);

    cb.record_trade(-10);
    cb.record_trade(-20);
    assert!(cb.check().passed);

    cb.record_trade(-15);
    assert!(!cb.check().passed); // 3 consecutive losses
}

#[test]
fn test_reset_on_profit() {
    let mut cb = CircuitBreaker::new().max_consecutive_losses(2);

    cb.record_trade(-10);
    cb.record_trade(-20);
    assert!(!cb.check().passed);

    cb.record_trade(5); // Reset
    assert!(cb.check().passed);
}

#[test]
fn test_losses_message() {
    let mut cb = CircuitBreaker::new().max_consecutive_losses(2);
    cb.record_trade(-1);
    cb.record_trade(-1);
    let check = cb.check();
    assert!(!check.passed);
    assert_eq!(check.message, "Max consecutive losses reached: 2");
}

#[test]
fn test_cooldown_window() {
    let start = 1_700_000_000_000;
    let config = CircuitBreakerConfig {
        max_consecutive_losses: 3,
        max_daily_drawdown_pct: 500,
        cooldown_duration: 5_000,
        min_trades_for_evaluation: 5,
    };
    let mut cb = CircuitBreaker::with_config_at(config, start);

    cb.trigger_at("halt", start);
    let during = cb.check_at(start + 1_000);
    assert!(!during.passed);
    assert_eq!(during.message, "Circuit breaker active. 4s remaining");

    // The whole window fails; the first evaluation after it passes.
    assert!(!cb.check_at(start + 4_999).passed);
    assert!(cb.check_at(start + 5_000).passed);
}

#[test]
fn test_zero_cooldown_passes_immediately() {
    let start = 1_700_000_000_000;
    let config = CircuitBreakerConfig {
        max_consecutive_losses: 3,
        max_daily_drawdown_pct: 500,
        cooldown_duration: 0,
        min_trades_for_evaluation: 5,
    };
    let mut cb = CircuitBreaker::with_config_at(config, start);
    cb.trigger_at("halt", start);
    assert!(cb.check_at(start).passed);
}

#[test]
fn test_check_and_trigger_stamps_once() {
    let start = 1_700_000_000_000;
    let config = CircuitBreakerConfig {
        max_consecutive_losses: 1,
        max_daily_drawdown_pct: 500,
        cooldown_duration: 60_000,
        min_trades_for_evaluation: 5,
    };
    let mut cb = CircuitBreaker::with_config_at(config, start);
    cb.record_trade_at(-10, start);

    let first = cb.check_and_trigger_at(start + 1);
    assert!(!first.passed);
    assert_eq!(cb.status_at(start + 1).triggered_at, Some(start + 1));

    // An already-tripped breaker is not re-stamped.
    let second = cb.check_and_trigger_at(start + 2_000);
    assert!(!second.passed);
    assert_eq!(cb.status_at(start + 2_000).triggered_at, Some(start + 1));
}

#[test]
fn test_history_ring_capped() {
    let start = 1_700_000_000_000;
    let mut cb = CircuitBreaker::with_config_at(CircuitBreakerConfig::default(), start);
    for i in 0..250 {
        cb.record_trade_at(if i % 2 == 0 { 7 } else { -3 }, start + i);
        assert!(cb.history_len() <= 100);
    }
    assert_eq!(cb.history_len(), 100);
}

#[test]
fn test_daily_pnl_resets_on_new_day() {
    let day = 86_400_000;
    let start = 20_000 * day + 5_000;
    let mut cb = CircuitBreaker::with_config_at(CircuitBreakerConfig::default(), start);

    cb.record_trade_at(100, start + 1_000);
    cb.record_trade_at(-30, start + 2_000);
    assert_eq!(cb.status_at(start + 2_000).daily_pnl, 70);

    // The first trade of the next calendar day starts a fresh tally.
    cb.record_trade_at(10, start + day);
    assert_eq!(cb.status_at(start + day).daily_pnl, 10);
}

#[test]
fn test_daily_pnl_saturates() {
    let start = 1_700_000_000_000;
    let mut cb = CircuitBreaker::with_config_at(CircuitBreakerConfig::default(), start);
    cb.record_trade_at(i64::MAX, start + 1);
    cb.record_trade_at(100, start + 2);
    assert_eq!(cb.status_at(start + 2).daily_pnl, i64::MAX);
}

#[test]
fn test_reset_clears_trip_and_losses() {
    let start = 1_700_000_000_000;
    let config = CircuitBreakerConfig {
        max_consecutive_losses: 1,
        max_daily_drawdown_pct: 500,
        cooldown_duration: 60_000,
        min_trades_for_evaluation: 5,
    };
    let mut cb = CircuitBreaker::with_config_at(config, start);
    cb.record_trade_at(-10, start);
    cb.check_and_trigger_at(start + 1);
    assert!(!cb.check_at(start + 2).passed);

    cb.reset();
    assert!(cb.check_at(start + 3).passed);
    let status = cb.status_at(start + 3);
    assert_eq!(status.consecutive_losses, 0);
    assert_eq!(status.triggered_at, None);
    assert!(!status.is_open);
}

#[test]
fn test_status_is_open_recomputes() {
    let start = 1_700_000_000_000;
    let config = CircuitBreakerConfig {
        max_consecutive_losses: 3,
        max_daily_drawdown_pct: 500,
        cooldown_duration: 5_000,
        min_trades_for_evaluation: 5,
    };
    let mut cb = CircuitBreaker::with_config_at(config, start);
    cb.trigger_at("halt", start);

    // Open while the cooldown runs, closed once it has elapsed, even
    // though the internal stamp is still set.
    assert!(cb.status_at(start + 1_000).is_open);
    let after = cb.status_at(start + 5_000);
    assert!(!after.is_open);
    assert_eq!(after.triggered_at, Some(start));
}
