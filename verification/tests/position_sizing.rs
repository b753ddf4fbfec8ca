use risk_management::{
    AntiMartingaleSizing, FixedFractionalSizing, KellySizing, PositionSizer, SizingStrategy,
    VolatilityBasedSizing,
};

#[test]
fn test_kelly_criterion() {
    let kelly = KellySizing::new().win_rate(6_000).avg_win(100).avg_loss(50);

    // f* = (0.6 * 2 - 0.4) / 2 = 0.4, in basis points of 10_000
    assert_eq!(kelly.kelly_fraction(), 4_000);

    // Half-Kelly on 10_000 capital
    let size = kelly.calculate_size(10_000, true);
    assert_eq!(size, 2_000);
}

#[test]
fn test_kelly_full_size_and_clamps() {
    let kelly = KellySizing::new().win_rate(6_000).avg_win(100).avg_loss(50);
    assert_eq!(kelly.calculate_size(10_000, false), 4_000);
    assert_eq!(kelly.calculate(10_000), 4_000);
    assert_eq!(kelly.name(), "Kelly Criterion");

    // A win rate above 1.0 clamps, and a losing edge floors at zero.
    let clamped = KellySizing::new().win_rate(20_000).avg_win(100).avg_loss(50);
    assert_eq!(clamped.kelly_fraction(), 10_000);
    let losing = KellySizing::new().win_rate(1_000).avg_win(50).avg_loss(100);
    assert_eq!(losing.kelly_fraction(), 0);
    assert_eq!(losing.calculate_size(10_000, false), 0);
}

#[test]
fn test_fixed_fractional() {
    let sizer = FixedFractionalSizing::moderate();
    assert_eq!(sizer.calculate(10_000), 200);
}

#[test]
fn test_fixed_fractional_presets() {
    assert_eq!(FixedFractionalSizing::conservative().calculate(10_000), 100);
    assert_eq!(FixedFractionalSizing::aggressive().calculate(10_000), 500);
    // The risk share clamps at 100%.
    assert_eq!(FixedFractionalSizing::new(25_000).calculate(10_000), 10_000);
    assert_eq!(FixedFractionalSizing::moderate().name(), "Fixed Fractional");
}

#[test]
fn test_position_sizer_bounds() {
    let sizer = PositionSizer::new(FixedFractionalSizing::aggressive())
        .with_min_size(100)
        .with_max_size(300);

    // Should be clamped to max
    assert_eq!(sizer.calculate(10_000), 300);

    // Should be clamped to min
    assert_eq!(sizer.calculate(1_000), 100);

    // In between it is the strategy's own output
    assert_eq!(sizer.calculate(4_000), 200);
}

#[test]
fn test_volatility_sizing() {
    // An average true range of 0.1, fixed-point at 10_000
    let sizer = VolatilityBasedSizing::new(1_000).with_risk_pct(200);

    let size = sizer.calculate(10_000);
    // Higher volatility = smaller position
    assert!(size < 200);
    assert_eq!(size, 181); // 10_000 * 200 / 11_000
    assert_eq!(sizer.name(), "Volatility-Based");
}

#[test]
fn test_volatility_update_atr() {
    let mut sizer = VolatilityBasedSizing::new(1_000).with_risk_pct(200);
    let calm = sizer.calculate(10_000);
    sizer.update_atr(5_000);
    let stormy = sizer.calculate(10_000);
    assert!(stormy < calm);
    assert_eq!(stormy, 133); // 10_000 * 200 / 15_000
}

#[test]
fn test_volatility_stop_sizing() {
    let sizer = VolatilityBasedSizing::new(1_000).with_risk_pct(200);
    // 2% of 10_000 risked over a stop distance of 4 price units
    assert_eq!(sizer.calculate_with_stop(10_000, 104, 100), 50);
    // Entry and stop coinciding guards the division
    assert_eq!(sizer.calculate_with_stop(10_000, 100, 100), 0);
}

#[test]
fn test_anti_martingale() {
    let mut sizer = AntiMartingaleSizing::new(100);
    assert_eq!(sizer.calculate(1_000), 100);

    sizer.record_result(true);
    sizer.record_result(true);
    // 1.5^2 = 2.25x
    assert_eq!(sizer.calculate(1_000), 225);

    sizer.record_result(false);
    // Reset to base, halved by one loss
    assert_eq!(sizer.calculate(1_000), 50);
}

#[test]
fn test_anti_martingale_clamps() {
    let mut sizer = AntiMartingaleSizing::new(100);
    for _ in 0..10 {
        sizer.record_result(true);
    }
    // The multiplier caps at 4x the base.
    assert_eq!(sizer.calculate(0), 400);

    for _ in 0..10 {
        sizer.record_result(false);
    }
    // And floors at a quarter of it.
    assert_eq!(sizer.calculate(0), 25);
    assert_eq!(sizer.name(), "Anti-Martingale");
}
