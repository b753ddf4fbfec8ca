use risk_management::{RiskCheck, RiskLevel, RiskReport};
use risk_management::risk::types::TradingLimits;

#[test]
fn test_risk_level_ordering() {
    assert!(RiskLevel::Normal < RiskLevel::Critical);
    assert!(RiskLevel::High.allows_trading() == false);
    assert!(RiskLevel::Normal.allows_trading() == true);
}

#[test]
fn test_risk_report() {
    let report = RiskReport::new()
        .add_check("Balance", RiskCheck::pass("Sufficient"))
        .add_check("Drawdown", RiskCheck::fail(RiskLevel::High, "Exceeded"));

    assert!(!report.all_passed());
    assert_eq!(report.overall_level, RiskLevel::High);
    assert_eq!(report.failed_checks().len(), 1);
}

#[test]
fn test_risk_report_keeps_order_and_level() {
    let report = RiskReport::new()
        .add_check("First", RiskCheck::fail(RiskLevel::Critical, "Bad"))
        .add_check("Second", RiskCheck::pass("Fine"));

    // The overall level is the worst seen, not the last seen.
    assert_eq!(report.overall_level, RiskLevel::Critical);
    assert_eq!(report.checks.len(), 2);
    assert_eq!(report.checks[0].0, "First");
    assert_eq!(report.checks[1].0, "Second");
    let failed = report.failed_checks();
    assert_eq!(failed.len(), 1);
    assert_eq!(failed[0].0, "First");
}

#[test]
fn test_empty_report_passes() {
    let report = RiskReport::new();
    assert!(report.all_passed());
    assert_eq!(report.overall_level, RiskLevel::Normal);
    assert_eq!(report.failed_checks().len(), 0);
}

#[test]
fn test_risk_check_constructors() {
    let pass = RiskCheck::pass("ok");
    assert!(pass.passed);
    assert_eq!(pass.level, RiskLevel::Normal);
    assert_eq!(pass.message, "ok");

    let fail = RiskCheck::fail(RiskLevel::Critical, "bad");
    assert!(!fail.passed);
    assert_eq!(fail.level, RiskLevel::Critical);

    let from_true = RiskCheck::from_bool(true, "fine");
    assert_eq!(from_true.level, RiskLevel::Normal);
    let from_false = RiskCheck::from_bool(false, "not fine");
    assert!(!from_false.passed);
    assert_eq!(from_false.level, RiskLevel::High);
}

#[test]
fn test_risk_level_severity() {
    assert_eq!(RiskLevel::Normal.severity(), 0);
    assert_eq!(RiskLevel::Elevated.severity(), 1);
    assert_eq!(RiskLevel::High.severity(), 2);
    assert_eq!(RiskLevel::Critical.severity(), 3);
    assert!(RiskLevel::Elevated.allows_trading());
}

#[test]
fn test_trading_limits_default() {
    let limits = TradingLimits::default();
    assert_eq!(limits.max_position_size, 1000);
    assert_eq!(limits.max_daily_loss, 500);
    assert_eq!(limits.max_drawdown_pct, 1000);
    assert_eq!(limits.max_open_positions, 5);
    assert_eq!(limits.max_consecutive_losses, 3);
}
