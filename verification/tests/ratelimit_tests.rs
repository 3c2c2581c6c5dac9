use tokensbyte::ratelimit::{GlobalRateLimiter, REDEEM_BANNED_MSG, REDEEM_BAN_MS, REDEEM_WINDOW_MS};

#[test]
fn non_positive_limits_let_everything_through() {
    let mut l = GlobalRateLimiter::new();
    for _ in 0..100 {
        assert!(l.check_rps(7, 0));
        assert!(l.check_rpm(7, -3));
    }
}

#[test]
fn rps_limit_refuses_a_burst() {
    let mut l = GlobalRateLimiter::new();
    let allowed = (0..50).filter(|_| l.check_rps(9, 2)).count();
    assert!(allowed >= 2);
    assert!(allowed < 50);
}

#[test]
fn login_limit_zero_means_one() {
    let mut l = GlobalRateLimiter::new();
    assert!(l.check_login_ip("10.0.0.1", 0));
    assert!(!l.check_login_ip("10.0.0.1", 0));
    assert!(l.check_login_ip("10.0.0.2", 0));
}

#[test]
fn redeem_twenty_first_attempt_bans_for_a_day() {
    let mut l = GlobalRateLimiter::new();
    let t0 = 1_000_000u64;
    for i in 0..20 {
        assert!(l.check_redeem_ip(" 1.2.3.4 ", t0 + i).is_ok());
    }
    let err = l.check_redeem_ip("1.2.3.4", t0 + 20).unwrap_err();
    assert_eq!(err, REDEEM_BANNED_MSG);
    assert!(l.check_redeem_ip("1.2.3.4", t0 + 20 + REDEEM_BAN_MS - 1).is_err());
    assert!(l.check_redeem_ip("1.2.3.4", t0 + 20 + REDEEM_BAN_MS).is_ok());
}

#[test]
fn redeem_window_restarts_after_a_minute() {
    let mut l = GlobalRateLimiter::new();
    for i in 0..20 {
        assert!(l.check_redeem_ip("5.6.7.8", i).is_ok());
    }
    assert!(l.check_redeem_ip("5.6.7.8", REDEEM_WINDOW_MS + 1).is_ok());
    assert!(l.check_redeem_ip("5.6.7.8", REDEEM_WINDOW_MS + 2).is_ok());
}

#[test]
fn redeem_unknown_ip_unlimited() {
    let mut l = GlobalRateLimiter::new();
    for i in 0..30 {
        assert!(l.check_redeem_ip("unknown", i).is_ok());
        assert!(l.check_redeem_ip("   ", i).is_ok());
    }
}

#[test]
fn first_request_of_a_new_limiter_passes() {
    let mut l = GlobalRateLimiter::new();
    assert!(l.check_rpm(1, 1));
    assert!(!l.check_rpm(1, 1));
    // the token keeps the quota of its first limiter
    assert!(!l.check_rpm(1, 100));
    assert!(l.check_rpm(2, 1));
    assert!(l.check_rps(1, 1));
}
