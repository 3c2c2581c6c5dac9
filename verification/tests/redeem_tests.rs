use tokensbyte::errors::AppError;
use tokensbyte::redeem::{
    check_generation_request,
    is_expired, normalize_expiry_date, normalize_redeem_code, redeem_precheck, redeem_tx_check, RedeemUserLimiter, RedeemerUse,
    RedemptionState, REDEEM_USER_MAX_PER_WINDOW,
};

fn msg<T>(r: Result<T, AppError>) -> String {
    match r {
        Err(AppError::BadRequest(m)) => m,
        other => panic!("expected a bad request, got {:?}", other.is_ok()),
    }
}

#[test]
fn sixth_attempt_in_a_minute_is_refused() {
    let mut l = RedeemUserLimiter::new();
    for i in 0..REDEEM_USER_MAX_PER_WINDOW {
        assert!(l.allow("u1", 1_000 + i as u64), "attempt {} should pass", i + 1);
    }
    assert!(!l.allow("u1", 30_000));
    // another user is unaffected
    assert!(l.allow("u2", 30_000));
    // a new window starts after a minute
    assert!(l.allow("u1", 1_000 + 60_001));
}

#[test]
fn codes_are_trimmed_and_upper_cased() {
    assert_eq!(normalize_redeem_code("  abc-12x ").ok().unwrap(), "ABC-12X");
    assert_eq!(msg(normalize_redeem_code("   ")), "请输入兑换码");
    let long = "a".repeat(33);
    assert_eq!(msg(normalize_redeem_code(&long)), "兑换码无效，请检查后重试");
    assert_eq!(normalize_redeem_code(&"b".repeat(32)).ok().unwrap(), "B".repeat(32));
}

fn state(status: i32, expired: bool, max_uses: i32, used_count: i32, is_used: i32) -> RedemptionState {
    RedemptionState { status, expired, max_uses, used_count, is_used }
}

#[test]
fn precheck_refusals_in_order() {
    assert_eq!(msg(redeem_precheck(&state(0, true, 1, 1, 1))), "该兑换码已被禁用");
    assert_eq!(msg(redeem_precheck(&state(-1, false, 0, 0, 0))), "该兑换码已作废");
    assert_eq!(msg(redeem_precheck(&state(1, true, 0, 0, 0))), "兑换码已过期");
    assert_eq!(msg(redeem_precheck(&state(1, false, 3, 3, 0))), "该兑换码兑换次数已用完");
    assert_eq!(msg(redeem_precheck(&state(1, false, 1, 0, 1))), "该兑换码已被使用");
    assert!(redeem_precheck(&state(1, false, 0, 100, 1)).is_ok());
    assert!(redeem_precheck(&state(1, false, 3, 2, 0)).is_ok());
}

fn usage(per_user_limit: i32, user_used: i64, used_by_self: bool, act_limit: i32, act_used: i64) -> RedeemerUse {
    RedeemerUse {
        per_user_limit,
        user_used,
        used_by_self,
        per_user_activity_limit: act_limit,
        activity_used: act_used,
    }
}

#[test]
fn transaction_check_refusals() {
    let free = usage(0, 0, false, 0, 0);
    assert_eq!(msg(redeem_tx_check(&state(2, false, 0, 0, 0), &free)), "该兑换码已被禁用");
    assert_eq!(msg(redeem_tx_check(&state(-1, false, 0, 0, 0), &free)), "该兑换码已作废");
    assert_eq!(msg(redeem_tx_check(&state(1, true, 0, 0, 0), &free)), "兑换码已过期");
    assert_eq!(msg(redeem_tx_check(&state(1, false, 2, 2, 0), &free)), "该兑换码兑换次数已用完");
    assert_eq!(
        msg(redeem_tx_check(&state(1, false, 5, 1, 0), &usage(2, 2, false, 0, 0))),
        "您已达到该兑换码的兑换次数上限"
    );
    assert_eq!(
        msg(redeem_tx_check(&state(1, false, 1, 0, 1), &usage(1, 0, true, 0, 0))),
        "您已达到该兑换码的兑换次数上限"
    );
    assert_eq!(
        msg(redeem_tx_check(&state(1, false, 0, 0, 0), &usage(0, 0, false, 3, 3))),
        "您已达到该活动的参与次数上限"
    );
    assert!(redeem_tx_check(&state(1, false, 5, 1, 0), &usage(2, 1, false, 3, 2)).is_ok());
}

#[test]
fn expiry_date_forms() {
    // a date lasts to the end of the day in the site's zone
    assert_eq!(normalize_expiry_date("2024-01-01", "Asia/Shanghai").ok(), Some((1704124800, 0)));
    // an unknown zone falls back to Asia/Shanghai
    assert_eq!(normalize_expiry_date(" 2024-01-01 ", "Nowhere/Zone").ok(), Some((1704124800, 0)));
    assert_eq!(normalize_expiry_date("2024-01-01T10:00:00Z", "UTC").ok(), Some((1704103200, 0)));
    assert_eq!(normalize_expiry_date("2024-01-01 08:00:00", "UTC").ok(), Some((1704096000, 0)));
    assert_eq!(normalize_expiry_date("2024-01-01T08:00:00", "Asia/Shanghai").ok(), Some((1704067200, 0)));
    assert_eq!(msg(normalize_expiry_date("   ", "UTC")), "请设置有效期，或选择长期有效");
    assert_eq!(msg(normalize_expiry_date("next week", "UTC")), "有效期格式不正确");
}

#[test]
fn expiry_checks() {
    assert!(!is_expired(None, "UTC", (2_000_000_000, 0)));
    assert!(!is_expired(Some("  "), "UTC", (2_000_000_000, 0)));
    assert!(!is_expired(Some("soon"), "UTC", (2_000_000_000, 0)));
    assert!(!is_expired(Some("2024-01-01"), "Asia/Shanghai", (1704124799, 999_999_999)));
    assert!(is_expired(Some("2024-01-01"), "Asia/Shanghai", (1704124800, 0)));
    assert!(!is_expired(Some("2024-01-01T10:00:00Z"), "UTC", (1704103200, 0)));
    assert!(is_expired(Some("2024-01-01T10:00:00Z"), "UTC", (1704103200, 1)));
    assert!(is_expired(Some("2024-01-01 08:00:00"), "bogus", (1704067201, 0)));
}

#[test]
fn generation_requests() {
    match check_generation_request("user", 5, true, true, None, "UTC", false, 1, 1, -1) {
        Err(AppError::Forbidden(m)) => assert_eq!(m, "Admin only"),
        _ => panic!("expected forbidden"),
    }
    assert_eq!(msg(check_generation_request("admin", 0, true, true, None, "UTC", false, 1, 1, -1)), "Count must be between 1 and 1000");
    assert_eq!(msg(check_generation_request("admin", 1001, true, true, None, "UTC", false, 1, 1, -1)), "Count must be between 1 and 1000");
    assert_eq!(msg(check_generation_request("admin", 5, false, true, None, "UTC", false, 1, 1, -1)), "额度必须大于 0");
    assert_eq!(msg(check_generation_request("admin", 5, true, false, None, "UTC", false, 1, 1, -1)), "请设置有效期，或选择长期有效");
    assert_eq!(msg(check_generation_request("admin", 5, true, false, Some(" "), "UTC", false, 1, 1, -1)), "请设置有效期，或选择长期有效");
    assert_eq!(msg(check_generation_request("admin", 5, true, false, Some("tomorrow"), "UTC", false, 1, 1, -1)), "有效期格式不正确");
    assert_eq!(msg(check_generation_request("admin", 5, true, true, None, "UTC", true, -2, 1, -1)), "兑换次数无效（-1 表示不限制）");
    assert_eq!(msg(check_generation_request("admin", 5, true, true, None, "UTC", true, 3, -5, -1)), "单用户兑换次数无效（-1 表示不限制）");
    assert_eq!(msg(check_generation_request("admin", 5, true, true, None, "UTC", false, -9, -9, -2)), "活动参与次数无效（-1 表示不限制）");
    let p = check_generation_request("admin", 5, true, true, Some("2024-01-01"), "UTC", false, 7, 7, 0).ok().unwrap();
    assert_eq!((p.expires_at, p.max_uses, p.per_user_limit, p.per_user_activity_limit), (None, 1, 1, -1));
    let p = check_generation_request("admin", 1000, true, false, Some("2024-01-01"), "UTC", true, 0, 4, 3).ok().unwrap();
    assert_eq!((p.expires_at, p.max_uses, p.per_user_limit, p.per_user_activity_limit), (Some((1704153600, 0)), -1, 4, 3));
}
