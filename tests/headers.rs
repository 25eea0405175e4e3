use playlist_sync::decimal::{parse_i32, parse_u64};
use playlist_sync::ratelimit::{
    get_burst_capacity, get_remaining_tokens, get_replenish_rate, get_requested_tokens, rate_limit_decision,
    RateBudget, RetryDecision,
};

#[test]
fn unsigned_literals() {
    assert_eq!(parse_u64("0"), Some(0));
    assert_eq!(parse_u64("+42"), Some(42));
    assert_eq!(parse_u64("18446744073709551615"), Some(u64::MAX));
    assert_eq!(parse_u64("18446744073709551616"), None);
    assert_eq!(parse_u64("-1"), None);
    assert_eq!(parse_u64(""), None);
    assert_eq!(parse_u64("+"), None);
    assert_eq!(parse_u64(" 1"), None);
    assert_eq!(parse_u64("1x"), None);
}

#[test]
fn signed_literals() {
    assert_eq!(parse_i32("-2147483648"), Some(i32::MIN));
    assert_eq!(parse_i32("2147483647"), Some(i32::MAX));
    assert_eq!(parse_i32("2147483648"), None);
    assert_eq!(parse_i32("-2147483649"), None);
    assert_eq!(parse_i32("-0"), Some(0));
    assert_eq!(parse_i32("+17"), Some(17));
    assert_eq!(parse_i32("-"), None);
    assert_eq!(parse_i32("--1"), None);
    assert_eq!(parse_i32("99999999999999999999999"), None);
}

#[test]
fn header_defaults() {
    assert_eq!(get_remaining_tokens(None), 0);
    assert_eq!(get_replenish_rate(None), 1);
    assert_eq!(get_burst_capacity(None), 1);
    assert_eq!(get_requested_tokens(None), 1);
    assert_eq!(get_remaining_tokens(Some("abc")), 0);
    assert_eq!(get_remaining_tokens(Some("25")), 25);
    assert_eq!(get_replenish_rate(Some("4")), 4);
    assert_eq!(get_burst_capacity(Some("50")), 50);
    assert_eq!(get_requested_tokens(Some("2")), 2);
}

#[test]
fn budget_waits_at_one_token() {
    let mut b = RateBudget::from_headers(Some("1"), Some("2"));
    assert!(b.needs_wait());
    b.replenish();
    assert_eq!(b.remaining, 3);
    assert!(!b.needs_wait());
    let b = RateBudget::from_headers(Some("2"), None);
    assert!(!b.needs_wait());
    assert_eq!(b.replenish_rate, 1);
}

#[test]
fn budget_resynchronizes_from_response() {
    let mut b = RateBudget::from_headers(Some("10"), Some("1"));
    b.after_response(Some("4"), Some("3"));
    assert_eq!(b.remaining, 4);
    b.after_response(None, Some("3"));
    assert_eq!(b.remaining, 1);
    b.after_response(Some("junk"), None);
    assert_eq!(b.remaining, 0);
}

#[test]
fn budget_saturates() {
    let mut b = RateBudget { remaining: i64::MIN + 1, replenish_rate: 1 };
    b.after_response(None, Some("5"));
    assert_eq!(b.remaining, i64::MIN);
    let mut b = RateBudget { remaining: 1, replenish_rate: i64::MAX };
    b.replenish();
    assert_eq!(b.remaining, i64::MAX);
}

#[test]
fn retry_policy() {
    assert_eq!(rate_limit_decision(200, None), RetryDecision::Proceed);
    assert_eq!(rate_limit_decision(500, Some("9")), RetryDecision::Proceed);
    assert_eq!(rate_limit_decision(429, None), RetryDecision::RetryAfter(1));
    assert_eq!(rate_limit_decision(429, Some("30")), RetryDecision::RetryAfter(30));
    assert_eq!(rate_limit_decision(429, Some("soon")), RetryDecision::BadRetryAfter);
}
