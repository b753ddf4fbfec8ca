use risk_management::control::alerts::{
    escape_markdown, fixed_dec, format_percentage, format_price, price_alert, risk_alert,
    trade_executed, AlertBuilder, AlertLevel, AMOUNT_SCALE,
};

#[test]
fn test_alert_builder() {
    let alert = AlertBuilder::success("Test Alert").field("Key", "Value").build();

    assert!(alert.contains("\u{2705} **Test Alert**"));
    assert!(alert.contains("Key"));
    assert!(alert.contains("Value"));
}

#[test]
fn test_alert_builder_exact() {
    let alert = AlertBuilder::warning("Heads Up").field("Change", "-1.5").build();
    assert_eq!(
        alert,
        "\u{26A0}\u{FE0F} **Heads Up**\n\u{2022} *Change*: \\-1\\.5\n"
    );
}

#[test]
fn test_format_price() {
    // 100.5 and 0.00123456, fixed-point at AMOUNT_SCALE
    assert_eq!(format_price(10_050_000_000, "USD"), "$100.50");
    assert_eq!(format_price(123_456, "BTC"), "\u{20BF}0.00123456");
}

#[test]
fn test_format_price_branches() {
    assert_eq!(format_price(10_050_000_000, "usdc"), "$100.50");
    assert_eq!(format_price(150_000_000, "ETH"), "\u{39E}1.500000");
    assert_eq!(format_price(150_000_000, "DOGE"), "1.5000 DOGE");
    assert_eq!(format_price(-250_000_000, "USD"), "$-2.50");
}

#[test]
fn test_format_percentage() {
    assert_eq!(format_percentage(5 * AMOUNT_SCALE as i64), "+5.00%");
    assert_eq!(format_percentage(-(AMOUNT_SCALE as i64) / 2), "-0.50%");
    assert_eq!(format_percentage(0), "+0.00%");
}

#[test]
fn test_fixed_dec_rendering() {
    assert_eq!(fixed_dec(0, 2), "0.00");
    assert_eq!(fixed_dec(AMOUNT_SCALE as i64, 2), "1.00");
    assert_eq!(fixed_dec(-123_456_789, 4), "-1.2345");
    assert_eq!(fixed_dec(987_654_321, 8), "9.87654321");
}

#[test]
fn test_escape_markdown() {
    assert_eq!(escape_markdown("a_b*c"), "a\\_b\\*c");
    assert_eq!(escape_markdown("1.5!"), "1\\.5\\!");
    assert_eq!(escape_markdown("plain"), "plain");
    assert_eq!(escape_markdown(""), "");
}

#[test]
fn test_alert_level_emoji() {
    assert_eq!(AlertLevel::Info.emoji(), "\u{2139}\u{FE0F}");
    assert_eq!(AlertLevel::Critical.emoji(), "\u{1F6A8}");
}

#[test]
fn test_trade_executed_template() {
    let msg = trade_executed("BUY", "TEST", 150_000_000, 10_050_000_000, 10_050_000_000);
    assert!(msg.contains("\u{2705} **Trade Executed**"));
    assert!(msg.contains("*Side*: BUY"));
    assert!(msg.contains("*Symbol*: TEST"));
    // The amount has no currency; the price and total are in dollars.
    assert!(msg.contains("*Amount*: 1\\.5000 "));
    assert!(msg.contains("*Price*: $100\\.50"));
}

#[test]
fn test_price_alert_levels() {
    let threshold = 5 * AMOUNT_SCALE as i64;
    let info = price_alert("TEST", 10_050_000_000, AMOUNT_SCALE as i64, threshold);
    assert!(info.starts_with("\u{2139}\u{FE0F} **TEST Price Alert**"));

    let warning = price_alert("TEST", 10_050_000_000, -6 * AMOUNT_SCALE as i64, threshold);
    assert!(warning.starts_with("\u{26A0}\u{FE0F}"));
    assert!(warning.contains("\u{1F4C9} "));

    let critical = price_alert("TEST", 10_050_000_000, 11 * AMOUNT_SCALE as i64, threshold);
    assert!(critical.starts_with("\u{1F6A8}"));
    assert!(critical.contains("\u{1F4C8} 11\\.00%"));
}

#[test]
fn test_risk_alert_template() {
    let msg = risk_alert("Drawdown", 12 * AMOUNT_SCALE as i64 + AMOUNT_SCALE as i64 / 2, 10 * AMOUNT_SCALE as i64);
    assert!(msg.starts_with("\u{26A0}\u{FE0F} **Risk Threshold Reached**"));
    assert!(msg.contains("*Metric*: Drawdown"));
    assert!(msg.contains("*Current Value*: 12\\.50"));
    assert!(msg.contains("*Threshold*: 10\\.00"));
}
