use risk_management::risk::kill_switch::{GuardCheck, KillSwitch, RiskGuard};
use risk_management::{RiskCheck, RiskLevel};

#[test]
fn test_balance_floor() {
    let mut ks = KillSwitch::new().balance_floor(100);

    ks.update_state(150, 0);
    assert!(ks.check().passed);

    ks.update_state(50, 0);
    assert!(!ks.check().passed);
}

#[test]
fn test_max_positions() {
    let mut ks = KillSwitch::new().max_positions(3);

    ks.update_state(1000, 2);
    assert!(ks.check().passed);

    ks.update_state(1000, 4);
    assert!(!ks.check().passed);
}

#[test]
fn test_api_errors() {
    let mut ks = KillSwitch::new();

    for _ in 0..5 {
        ks.record_error();
    }

    assert!(!ks.check().passed);

    ks.update_state(1000, 0);
    assert_eq!(ks.check().message, "Max API errors reached: 5");

    ks.clear_errors();
    assert!(ks.check().passed);
}

#[test]
fn test_manual_trigger() {
    let mut ks = KillSwitch::new();

    ks.manual_trigger("Emergency stop");
    assert!(ks.is_triggered());
    assert!(ks.trigger_reason().unwrap().contains("Emergency"));
    assert_eq!(ks.trigger_reason(), Some("Manual: Emergency stop"));
}

#[test]
fn test_reset() {
    let mut ks = KillSwitch::new().balance_floor(100);

    ks.update_state(50, 0);
    ks.check_and_trigger();
    assert!(ks.is_triggered());

    ks.reset();
    assert!(!ks.is_triggered());
}

struct PassingCheck;

impl GuardCheck for PassingCheck {
    fn run(&self) -> RiskCheck {
        RiskCheck::pass("Custom OK")
    }
}

struct FailingCheck;

impl GuardCheck for FailingCheck {
    fn run(&self) -> RiskCheck {
        RiskCheck::fail(RiskLevel::High, "Custom fail")
    }
}

#[test]
fn test_risk_guard() {
    let mut ks = KillSwitch::new();
    ks.update_state(1000, 0);
    let mut guard = RiskGuard::new(ks);

    guard.add_check(PassingCheck);

    assert!(guard.all_passed());

    guard.add_check(FailingCheck);

    assert!(!guard.all_passed());
    assert!(guard.first_failure().is_some());
    assert_eq!(guard.first_failure().unwrap().message, "Custom fail");
}

#[test]
fn test_risk_guard_kill_switch_first() {
    let ks = KillSwitch::new().balance_floor(100); // balance 0 < 100
    let mut guard = RiskGuard::new(ks);
    guard.add_check(PassingCheck);

    let results = guard.check_all();
    assert_eq!(results.len(), 2);
    assert!(!results[0].passed);
    assert!(results[1].passed);

    let first = guard.first_failure().unwrap();
    assert_eq!(first.message, "Balance below floor: 0 < 100");
}

#[test]
fn test_priority_balance_before_positions() {
    // Both the balance floor and the position limit are violated; the
    // balance failure is the one reported.
    let mut ks = KillSwitch::new().balance_floor(100).max_positions(3);
    ks.update_state(50, 10);
    let check = ks.check();
    assert!(!check.passed);
    assert_eq!(check.level, RiskLevel::Critical);
    assert_eq!(check.message, "Balance below floor: 50 < 100");
}

#[test]
fn test_latch_keeps_original_reason() {
    let mut ks = KillSwitch::new().balance_floor(100);
    ks.update_state(50, 0);
    ks.check_and_trigger();
    assert!(ks.is_triggered());

    // The balance recovers, but the latch holds the original reason.
    ks.update_state(10_000, 0);
    let check = ks.check();
    assert!(!check.passed);
    assert_eq!(
        check.message,
        "Kill switch already triggered: Balance below floor: 50 < 100"
    );

    ks.reset();
    assert!(ks.check().passed);
}

#[test]
fn test_manual_trigger_disabled() {
    let config = risk_management::KillSwitchConfig {
        balance_floor: 0,
        max_open_positions: 10,
        max_api_errors: 5,
        manual_override: false,
    };
    let mut ks = KillSwitch::with_config(config);
    ks.update_state(1000, 0);
    ks.manual_trigger("ignored");
    assert!(!ks.is_triggered());
    assert!(ks.check().passed);
}

#[test]
fn test_status_snapshot() {
    let mut ks = KillSwitch::new();
    ks.update_state(750, 2);
    ks.record_error();
    let status = ks.status();
    assert!(!status.is_triggered);
    assert_eq!(status.current_balance, 750);
    assert_eq!(status.open_positions, 2);
    assert_eq!(status.consecutive_errors, 1);
    assert_eq!(status.reason, None);
}
