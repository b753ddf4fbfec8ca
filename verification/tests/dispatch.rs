use risk_management::control::dispatch::{command_token, match_callback, starts_with};
use risk_management::decimal::{dec_i64, dec_u64, dec_usize};

#[test]
fn test_command_token() {
    assert_eq!(command_token("/start now"), Some("/start".to_string()));
    assert_eq!(command_token("  /help"), Some("/help".to_string()));
    assert_eq!(command_token("solo"), Some("solo".to_string()));
    assert_eq!(command_token("   "), None);
    assert_eq!(command_token(""), None);
}

#[test]
fn test_starts_with() {
    assert!(starts_with("trade:buy:TEST", "trade:"));
    assert!(starts_with("abc", "abc"));
    assert!(starts_with("abc", ""));
    assert!(!starts_with("abc", "abcd"));
    assert!(!starts_with("chart:TEST", "trade:"));
}

#[test]
fn test_match_callback_first_match_wins() {
    let patterns = vec![
        "chart:".to_string(),
        "trade:".to_string(),
        "trade:buy".to_string(),
    ];
    assert_eq!(match_callback(&patterns, "trade:buy:TEST"), Some(1));
    assert_eq!(match_callback(&patterns, "chart:TEST"), Some(0));
    assert_eq!(match_callback(&patterns, "settings:open"), None);
}

#[test]
fn test_decimal_rendering() {
    assert_eq!(dec_u64(0), "0");
    assert_eq!(dec_u64(9_007_199_254_740_993), "9007199254740993");
    assert_eq!(dec_i64(-5), "-5");
    assert_eq!(dec_i64(i64::MIN), "-9223372036854775808");
    assert_eq!(dec_usize(42), "42");
}
