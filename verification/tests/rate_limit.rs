use mabar_backend::rate_limit::{create_api_rate_limiter, create_auth_rate_limiter, RateLimiter};

#[test]
fn third_rapid_call_is_refused_and_window_reopens() {
    let mut limiter = RateLimiter::new(2, 1000);
    assert!(limiter.check_rate_limit("10.0.0.1", 5_000));
    assert!(limiter.check_rate_limit("10.0.0.1", 5_001));
    assert!(!limiter.check_rate_limit("10.0.0.1", 5_002));
    assert!(limiter.check_rate_limit("10.0.0.1", 6_001));
}

#[test]
fn window_edge_is_exclusive() {
    let mut limiter = RateLimiter::new(1, 1000);
    assert!(limiter.check_rate_limit("a", 100));
    assert!(!limiter.check_rate_limit("a", 1_099));
    assert!(limiter.check_rate_limit("a", 1_100));
}

#[test]
fn clients_are_counted_apart() {
    let mut limiter = RateLimiter::new(1, 60_000);
    assert!(limiter.check_rate_limit("a", 0));
    assert!(limiter.check_rate_limit("b", 1));
    assert!(!limiter.check_rate_limit("a", 2));
    assert!(!limiter.check_rate_limit("b", 3));
    assert!(limiter.check_rate_limit("", 4));
}

#[test]
fn refused_calls_are_not_recorded() {
    let mut limiter = RateLimiter::new(2, 1000);
    assert!(limiter.check_rate_limit("a", 0));
    assert!(limiter.check_rate_limit("a", 900));
    // refused, and must not extend the block
    assert!(!limiter.check_rate_limit("a", 950));
    assert!(!limiter.check_rate_limit("a", 999));
    // the request at 0 has left the window, the one at 900 has not
    assert!(limiter.check_rate_limit("a", 1_000));
    assert!(!limiter.check_rate_limit("a", 1_001));
    assert!(limiter.check_rate_limit("a", 1_900));
}

#[test]
fn zero_ceiling_refuses_everything() {
    let mut limiter = RateLimiter::new(0, 1000);
    assert!(!limiter.check_rate_limit("a", 0));
    assert!(!limiter.check_rate_limit("a", 10_000));
}

#[test]
fn stamps_from_the_future_count_as_fresh() {
    let mut limiter = RateLimiter::new(1, 1000);
    assert!(limiter.check_rate_limit("a", 50_000));
    assert!(!limiter.check_rate_limit("a", 10));
}

#[test]
fn preconfigured_limiters() {
    let mut auth = create_auth_rate_limiter();
    assert_eq!(auth.max_requests(), 5);
    assert_eq!(auth.window_ms(), 15 * 60 * 1000);
    for i in 0..5 {
        assert!(auth.check_rate_limit("1.2.3.4", i));
    }
    assert!(!auth.check_rate_limit("1.2.3.4", 5));
    assert!(!auth.check_rate_limit("1.2.3.4", 899_999));
    assert!(auth.check_rate_limit("1.2.3.4", 900_000));

    let mut api = create_api_rate_limiter();
    assert_eq!(api.max_requests(), 100);
    assert_eq!(api.window_ms(), 15 * 60 * 1000);
    for i in 0..100 {
        assert!(api.check_rate_limit("1.2.3.4", i));
    }
    assert!(!api.check_rate_limit("1.2.3.4", 100));
}
