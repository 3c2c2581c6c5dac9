//! Redemption codes: the per-user attempt limit, code normalisation and the
//! checks a code passes before and inside the redeeming transaction.
use vstd::prelude::*;
use dashmap::DashMap;
use crate::errors::AppError;
use crate::relay_cache::elapsed;
use crate::text::{
    ascii_upper, chars_ascii_upper, chars_of, str_eq, string_from_chars, to_owned_string, trim, trim_str,
};
use crate::calendar::{
    date_fields, date_successor, datetime_fields, is_tz_name, local_latest, local_latest_instant, next_date,
    parse_naive_date, parse_naive_datetime, parse_rfc3339, rfc3339_instant, tz_known,
};

verus! {

/// Attempts a user may make within one window.
pub const REDEEM_USER_MAX_PER_WINDOW: u32 = 5;

/// Length of the per-user attempt window.
pub const REDEEM_USER_WINDOW_MS: u64 = 60_000;

/// Above this many users, stale windows are dropped first.
pub const REDEEM_USER_SOFT_CAP: usize = 10_000;

/// The longest code accepted (bytes).
pub const MAX_CODE_BYTES: usize = 32;

/// The attempt windows of a per-user map: user → (attempts, window start).
pub uninterp spec fn user_windows(m: DashMap<String, (u32, u64)>) -> Map<Seq<char>, (u32, u64)>;

/// No windows.
pub open spec fn no_user_windows() -> Map<Seq<char>, (u32, u64)> {
    Map::empty()
}

/// `DashMap::new`.
#[verifier::external_body]
fn user_windows_new() -> (r: DashMap<String, (u32, u64)>)
    ensures
        user_windows(r) == no_user_windows(),
{
    DashMap::new()
}

/// `DashMap::get`, copying the window out.
#[verifier::external_body]
fn user_windows_get(m: &DashMap<String, (u32, u64)>, key: &str) -> (r: Option<(u32, u64)>)
    ensures
        r == (if user_windows(*m).dom().contains(key@) {
            Some(user_windows(*m)[key@])
        } else {
            None
        }),
{
    m.get(key).map(|e| *e.value())
}

/// `DashMap::insert`.
#[verifier::external_body]
fn user_windows_insert(m: &mut DashMap<String, (u32, u64)>, key: String, value: (u32, u64))
    ensures
        user_windows(*final(m)) == user_windows(*old(m)).insert(key@, value),
    no_unwind
{
    m.insert(key, value);
}

/// `DashMap::len`.
#[verifier::external_body]
fn user_windows_len(m: &DashMap<String, (u32, u64)>) -> (r: usize)
    ensures
        r as nat == user_windows(*m).len(),
{
    m.len()
}

/// The windows started at most two window lengths before `now`.
pub open spec fn recent_user_windows(m: Map<Seq<char>, (u32, u64)>, now: u64) -> Map<
    Seq<char>,
    (u32, u64),
> {
    Map::new(
        |k: Seq<char>| m.dom().contains(k) && elapsed(m[k].1, now) <= 2 * REDEEM_USER_WINDOW_MS,
        |k: Seq<char>| m[k],
    )
}

/// A window started at `start` is still recent at `now`.
pub fn user_window_is_recent(start: u64, now: u64) -> (r: bool)
    ensures
        r == (elapsed(start, now) <= 2 * REDEEM_USER_WINDOW_MS),
{
    let e = if now >= start {
        now - start
    } else {
        0
    };
    e <= 2 * REDEEM_USER_WINDOW_MS
}

/// `DashMap::retain` keeping the recent windows.
#[verifier::external_body]
fn user_windows_retain_recent(m: &mut DashMap<String, (u32, u64)>, now: u64)
    ensures
        user_windows(*final(m)) == recent_user_windows(user_windows(*old(m)), now),
    no_unwind
{
    m.retain(|_, w| user_window_is_recent(w.1, now));
}

/// One attempt of `user` at `now`: the windows after it and whether it is
/// allowed.  A window older than a minute restarts; a full window refuses
/// and stays as it is.
pub open spec fn user_attempt_model(m: Map<Seq<char>, (u32, u64)>, user: Seq<char>, now: u64) -> (
    Map<Seq<char>, (u32, u64)>,
    bool,
) {
    let m1 = if m.len() > REDEEM_USER_SOFT_CAP {
        recent_user_windows(m, now)
    } else {
        m
    };
    if m1.dom().contains(user) {
        let (count, start) = m1[user];
        if elapsed(start, now) > REDEEM_USER_WINDOW_MS {
            (m1.insert(user, (1u32, now)), true)
        } else if count >= REDEEM_USER_MAX_PER_WINDOW {
            (m1, false)
        } else {
            (m1.insert(user, ((count + 1) as u32, start)), true)
        }
    } else {
        (m1.insert(user, (1u32, now)), true)
    }
}

/// Per-user redemption attempts: at most five a minute.
pub struct RedeemUserLimiter {
    windows: DashMap<String, (u32, u64)>,
}

impl RedeemUserLimiter {
    /// The current windows.
    pub closed spec fn windows(&self) -> Map<Seq<char>, (u32, u64)> {
        user_windows(self.windows)
    }

    /// No attempts recorded.
    pub fn new() -> (r: Self)
        ensures
            r.windows() == no_user_windows(),
    {
        RedeemUserLimiter { windows: user_windows_new() }
    }

    /// Records an attempt of `user_id` at `now_ms`; `false` when the user
    /// already made five attempts within the current minute.
    pub fn allow(&mut self, user_id: &str, now_ms: u64) -> (r: bool)
        ensures
            (final(self).windows(), r) == user_attempt_model(old(self).windows(), user_id@, now_ms),
    {
        if user_windows_len(&self.windows) > REDEEM_USER_SOFT_CAP {
            user_windows_retain_recent(&mut self.windows, now_ms);
        }
        match user_windows_get(&self.windows, user_id) {
            Some((count, start)) => {
                let e = if now_ms >= start {
                    now_ms - start
                } else {
                    0
                };
                if e > REDEEM_USER_WINDOW_MS {
                    user_windows_insert(&mut self.windows, crate::text::to_owned_string(user_id), (1, now_ms));
                    true
                } else if count >= REDEEM_USER_MAX_PER_WINDOW {
                    false
                } else {
                    user_windows_insert(
                        &mut self.windows,
                        crate::text::to_owned_string(user_id),
                        (count + 1, start),
                    );
                    true
                }
            },
            None => {
                user_windows_insert(&mut self.windows, crate::text::to_owned_string(user_id), (1, now_ms));
                true
            },
        }
    }
}

/// Within one minute a user gets exactly five attempts: after five allowed
/// attempts in the current window the next one is refused.
pub proof fn law_sixth_attempt_refused(m: Map<Seq<char>, (u32, u64)>, user: Seq<char>, start: u64, now: u64)
    requires
        m.len() <= REDEEM_USER_SOFT_CAP,
        m.dom().contains(user),
        m[user] == (REDEEM_USER_MAX_PER_WINDOW, start),
        elapsed(start, now) <= REDEEM_USER_WINDOW_MS,
    ensures
        !user_attempt_model(m, user, now).1,
        user_attempt_model(m, user, now).0 == m,
{
}

/// A redemption code as looked up: trimmed and in ASCII upper case.
pub open spec fn code_model(raw: Seq<char>) -> Seq<char> {
    ascii_upper(trim(raw))
}

/// The lookup form of a submitted code, or why it is refused: an empty code
/// asks for one; a code over 32 bytes is invalid.
pub fn normalize_redeem_code(raw: &str) -> (r: Result<String, AppError>)
    ensures
        match r {
            Ok(c) => c@ == code_model(raw@) && code_model(raw@).len() > 0 && vstd::utf8::encode_utf8(
                code_model(raw@),
            ).len() as usize <= MAX_CODE_BYTES,
            Err(AppError::BadRequest(m)) => (code_model(raw@).len() == 0 && m@ == "请输入兑换码"@) || (
            code_model(raw@).len() > 0 && vstd::utf8::encode_utf8(code_model(raw@)).len() as usize
                > MAX_CODE_BYTES && m@ == "兑换码无效，请检查后重试"@),
            Err(_) => false,
        },
{
    let t = trim_str(raw);
    let v = chars_of(t);
    let u = chars_ascii_upper(v.as_slice());
    let code = string_from_chars(u.as_slice());
    if u.len() == 0 {
        return Err(AppError::BadRequest(crate::text::to_owned_string("请输入兑换码")));
    }
    if code.as_str().len() > MAX_CODE_BYTES {
        return Err(AppError::BadRequest(crate::text::to_owned_string("兑换码无效，请检查后重试")));
    }
    Ok(code)
}

/// The fields of a redemption code the checks read.
pub struct RedemptionState {
    /// 1 = active, 0 = disabled, −1 = void.
    pub status: i32,
    /// Whether the code has expired (evaluated in the site's time zone).
    pub expired: bool,
    /// Uses allowed in total; 0 or less = unlimited.
    pub max_uses: i32,
    pub used_count: i32,
    pub is_used: i32,
}

/// Why a looked-up code is refused before the transaction, checked in
/// order; `None` when it may be redeemed.
pub open spec fn precheck_error(c: RedemptionState) -> Option<Seq<char>> {
    if c.status == 0 {
        Some("该兑换码已被禁用"@)
    } else if c.status == -1 {
        Some("该兑换码已作废"@)
    } else if c.expired {
        Some("兑换码已过期"@)
    } else if c.max_uses > 0 && c.used_count >= c.max_uses {
        Some("该兑换码兑换次数已用完"@)
    } else if c.max_uses == 1 && c.is_used != 0 && c.used_count == 0 {
        Some("该兑换码已被使用"@)
    } else {
        None
    }
}

fn refuse(msg: &str) -> (r: Result<(), AppError>)
    ensures
        r matches Err(AppError::BadRequest(m)) && m@ == msg@,
{
    Err(AppError::BadRequest(crate::text::to_owned_string(msg)))
}

/// The checks on a looked-up code before the transaction.
pub fn redeem_precheck(c: &RedemptionState) -> (r: Result<(), AppError>)
    ensures
        match precheck_error(*c) {
            None => r is Ok,
            Some(msg) => r matches Err(AppError::BadRequest(m)) && m@ == msg,
        },
{
    if c.status == 0 {
        return refuse("该兑换码已被禁用");
    }
    if c.status == -1 {
        return refuse("该兑换码已作废");
    }
    if c.expired {
        return refuse("兑换码已过期");
    }
    if c.max_uses > 0 && c.used_count >= c.max_uses {
        return refuse("该兑换码兑换次数已用完");
    }
    if c.max_uses == 1 && c.is_used != 0 && c.used_count == 0 {
        return refuse("该兑换码已被使用");
    }
    Ok(())
}

/// The per-user figures read inside the transaction.
pub struct RedeemerUse {
    /// Uses one user may make of this code; 0 or less = unlimited.
    pub per_user_limit: i32,
    /// This user's uses of this code.
    pub user_used: i64,
    /// The code's legacy single user is this user.
    pub used_by_self: bool,
    /// Uses one user may make across the code's activity; 0 or less = unlimited.
    pub per_user_activity_limit: i32,
    /// This user's uses across the activity.
    pub activity_used: i64,
}

/// Why the code is refused inside the transaction (re-read state), checked
/// in order; `None` when it may be redeemed.
pub open spec fn tx_check_error(c: RedemptionState, u: RedeemerUse) -> Option<Seq<char>> {
    if c.status != 1 {
        Some(
            if c.status == -1 {
                "该兑换码已作废"@
            } else {
                "该兑换码已被禁用"@
            },
        )
    } else if c.expired {
        Some("兑换码已过期"@)
    } else if c.max_uses > 0 && c.used_count >= c.max_uses {
        Some("该兑换码兑换次数已用完"@)
    } else if u.per_user_limit > 0 && ((u.used_by_self && u.user_used == 0 && c.is_used != 0
        && c.max_uses == 1) || u.user_used >= u.per_user_limit) {
        Some("您已达到该兑换码的兑换次数上限"@)
    } else if u.per_user_activity_limit > 0 && u.activity_used >= u.per_user_activity_limit {
        Some("您已达到该活动的参与次数上限"@)
    } else {
        None
    }
}

/// The checks inside the redeeming transaction.
pub fn redeem_tx_check(c: &RedemptionState, u: &RedeemerUse) -> (r: Result<(), AppError>)
    ensures
        match tx_check_error(*c, *u) {
            None => r is Ok,
            Some(msg) => r matches Err(AppError::BadRequest(m)) && m@ == msg,
        },
{
    if c.status != 1 {
        if c.status == -1 {
            return refuse("该兑换码已作废");
        }
        return refuse("该兑换码已被禁用");
    }
    if c.expired {
        return refuse("兑换码已过期");
    }
    if c.max_uses > 0 && c.used_count >= c.max_uses {
        return refuse("该兑换码兑换次数已用完");
    }
    if u.per_user_limit > 0 {
        let legacy_used = u.used_by_self && u.user_used == 0 && c.is_used != 0 && c.max_uses == 1;
        if legacy_used || u.user_used >= u.per_user_limit as i64 {
            return refuse("您已达到该兑换码的兑换次数上限");
        }
    }
    if u.per_user_activity_limit > 0 && u.activity_used >= u.per_user_activity_limit as i64 {
        return refuse("您已达到该活动的参与次数上限");
    }
    Ok(())
}

// ───────────────────────── expiry dates ─────────────────────────

/// The zone expiry dates are read in: the site's zone when `chrono_tz`
/// knows it, else Asia/Shanghai.
pub open spec fn expiry_zone(tz: Seq<char>) -> Seq<char> {
    if is_tz_name(tz) {
        tz
    } else {
        "Asia/Shanghai"@
    }
}

/// Midnight at the start of a date, as a wall-clock time.
pub open spec fn midnight_of(d: (i32, u32, u32)) -> (i32, u32, u32, u32, u32, u32, u32) {
    (d.0, d.1, d.2, 0, 0, 0, 0)
}

/// The instant a date ends in zone `tz`: midnight of the next day.
pub open spec fn day_end(tz: Seq<char>, d: (i32, u32, u32)) -> Option<(i64, u32)> {
    match date_successor(d.0, d.1, d.2) {
        Some(n) => local_latest(tz, midnight_of(n)),
        None => None,
    }
}

/// The wall-clock format with a space between date and time.
pub open spec fn spaced_format() -> Seq<char> {
    "%Y-%m-%d %H:%M:%S"@
}

/// The wall-clock format with a `T` between date and time.
pub open spec fn t_format() -> Seq<char> {
    "%Y-%m-%dT%H:%M:%S"@
}

/// The date-only format.
pub open spec fn date_format() -> Seq<char> {
    "%Y-%m-%d"@
}

/// The instant a (trimmed) expiry text names, read as the first of these
/// that parses: RFC 3339; a wall-clock time with a space, then with a `T`,
/// in zone `tz`; a date, meaning the end of that day in `tz`.  `None` when
/// none parses, or when the first that parses has no instant in `tz`.
pub open spec fn expiry_instant(s: Seq<char>, tz: Seq<char>) -> Option<(i64, u32)> {
    if let Some(i) = rfc3339_instant(s) {
        Some(i)
    } else if let Some(t) = datetime_fields(s, spaced_format()) {
        local_latest(tz, t)
    } else if let Some(t) = datetime_fields(s, t_format()) {
        local_latest(tz, t)
    } else if let Some(d) = date_fields(s, date_format()) {
        day_end(tz, d)
    } else {
        None
    }
}

/// The expiry instant to store for a submitted expiry text, or why it is
/// refused: an empty text asks for a date (or "no expiry"); a text that
/// names no instant is malformed.
pub fn normalize_expiry_date(raw: &str, tz_name: &str) -> (r: Result<(i64, u32), AppError>)
    ensures
        trim(raw@).len() == 0 ==> (r matches Err(AppError::BadRequest(m)) && m@
            == "请设置有效期，或选择长期有效"@),
        trim(raw@).len() > 0 ==> match expiry_instant(trim(raw@), expiry_zone(tz_name@)) {
            Some(i) => r == Ok::<(i64, u32), AppError>(i),
            None => (r matches Err(AppError::BadRequest(m)) && m@ == "有效期格式不正确"@),
        },
{
    let trimmed = trim_str(raw);
    if trimmed.unicode_len() == 0 {
        return Err(AppError::BadRequest(to_owned_string("请设置有效期，或选择长期有效")));
    }
    let zone = if tz_known(tz_name) {
        tz_name
    } else {
        "Asia/Shanghai"
    };
    let found = if let Some(i) = parse_rfc3339(trimmed) {
        Some(i)
    } else if let Some(t) = parse_naive_datetime(trimmed, "%Y-%m-%d %H:%M:%S") {
        local_latest_instant(zone, t)
    } else if let Some(t) = parse_naive_datetime(trimmed, "%Y-%m-%dT%H:%M:%S") {
        local_latest_instant(zone, t)
    } else if let Some(d) = parse_naive_date(trimmed, "%Y-%m-%d") {
        match next_date(d.0, d.1, d.2) {
            Some(n) => local_latest_instant(zone, (n.0, n.1, n.2, 0, 0, 0, 0)),
            None => None,
        }
    } else {
        None
    };
    match found {
        Some(i) => Ok(i),
        None => Err(AppError::BadRequest(to_owned_string("有效期格式不正确"))),
    }
}

/// Whether instant `a` comes before instant `b`.
pub open spec fn instant_before(a: (i64, u32), b: (i64, u32)) -> bool {
    a.0 < b.0 || (a.0 == b.0 && a.1 < b.1)
}

/// Whether a wall-clock text in format `fmt` names an instant in `tz`.
pub open spec fn local_instant_of(s: Seq<char>, fmt: Seq<char>, tz: Seq<char>) -> Option<(i64, u32)> {
    match datetime_fields(s, fmt) {
        Some(t) => local_latest(tz, t),
        None => None,
    }
}

/// The end instant of a date text in `tz`.
pub open spec fn date_end_of(s: Seq<char>, tz: Seq<char>) -> Option<(i64, u32)> {
    match date_fields(s, date_format()) {
        Some(d) => day_end(tz, d),
        None => None,
    }
}

/// Whether a (trimmed, non-empty) expiry text has passed at `now` in zone
/// `tz`: an RFC 3339 instant or a wall-clock time has passed once it lies
/// before `now`; a date has passed from the midnight that ends it.  The
/// forms are tried in that order, a wall-clock time that has no instant in
/// `tz` falling through to the next form; a text of no form has not passed.
pub open spec fn expired_at(s: Seq<char>, tz: Seq<char>, now: (i64, u32)) -> bool {
    if let Some(i) = rfc3339_instant(s) {
        instant_before(i, now)
    } else if let Some(i) = local_instant_of(s, spaced_format(), tz) {
        instant_before(i, now)
    } else if let Some(i) = local_instant_of(s, t_format(), tz) {
        instant_before(i, now)
    } else if let Some(e) = date_end_of(s, tz) {
        !instant_before(now, e)
    } else {
        false
    }
}

/// Once an expiry text has passed it stays passed: expiry is monotone in
/// time.
pub proof fn lemma_expired_stays(s: Seq<char>, tz: Seq<char>, earlier: (i64, u32), later: (i64, u32))
    requires
        !instant_before(later, earlier),
        expired_at(s, tz, earlier),
    ensures
        expired_at(s, tz, later),
{
}

/// Whether a code with expiry text `expires_at` has expired at instant
/// `now`, read in the site's zone `tz_name`; no expiry (absent or blank)
/// never expires.
pub fn is_expired(expires_at: Option<&str>, tz_name: &str, now: (i64, u32)) -> (r: bool)
    ensures
        r == match expires_at {
            Some(e) => trim(e@).len() > 0 && expired_at(trim(e@), expiry_zone(tz_name@), now),
            None => false,
        },
{
    let exp = match expires_at {
        Some(e) => trim_str(e),
        None => return false,
    };
    if exp.unicode_len() == 0 {
        return false;
    }
    let zone = if tz_known(tz_name) {
        tz_name
    } else {
        "Asia/Shanghai"
    };
    let before = |a: (i64, u32), b: (i64, u32)| -> (r: bool)
        ensures
            r == instant_before(a, b),
        { a.0 < b.0 || (a.0 == b.0 && a.1 < b.1) };
    if let Some(i) = parse_rfc3339(exp) {
        return before(i, now);
    }
    if let Some(t) = parse_naive_datetime(exp, "%Y-%m-%d %H:%M:%S") {
        if let Some(i) = local_latest_instant(zone, t) {
            return before(i, now);
        }
    }
    if let Some(t) = parse_naive_datetime(exp, "%Y-%m-%dT%H:%M:%S") {
        if let Some(i) = local_latest_instant(zone, t) {
            return before(i, now);
        }
    }
    if let Some(d) = parse_naive_date(exp, "%Y-%m-%d") {
        if let Some(n) = next_date(d.0, d.1, d.2) {
            if let Some(e) = local_latest_instant(zone, (n.0, n.1, n.2, 0, 0, 0, 0)) {
                return !before(now, e);
            }
        }
    }
    false
}


// ───────────────────────── generating codes ─────────────────────────

/// A uses limit as stored: with several redemptions allowed, 0 means
/// unlimited (−1); otherwise a code is used once.
pub open spec fn uses_limit(allow_multiple: bool, v: i32) -> i32 {
    if !allow_multiple {
        1
    } else if v == 0 {
        -1i32
    } else {
        v
    }
}

/// What a request to generate codes is stored with — (expiry, uses per
/// code, uses per user, participations per user) — or the message it is
/// refused with, checked in this order: the count (1 to 1000), the quota,
/// the expiry (required unless the codes are permanent; see
/// [`expiry_instant`]), and the three limits (−1 = unlimited; below −1 is
/// invalid; the first two only count when several redemptions are
/// allowed; a participation limit of 0 or less is unlimited).
pub open spec fn generation_model(
    count: i32,
    quota_ok: bool,
    permanent: bool,
    expires_at: Option<Seq<char>>,
    tz: Seq<char>,
    allow_multiple: bool,
    max_uses: i32,
    per_user_limit: i32,
    per_user_activity_limit: i32,
) -> Result<(Option<(i64, u32)>, i32, i32, i32), Seq<char>> {
    if count <= 0 || count > 1000 {
        Err("Count must be between 1 and 1000"@)
    } else if !quota_ok {
        Err("额度必须大于 0"@)
    } else if !permanent && (match expires_at {
        Some(e) => trim(e).len() == 0,
        None => true,
    }) {
        Err("请设置有效期，或选择长期有效"@)
    } else if !permanent && expiry_instant(trim(expires_at->0), expiry_zone(tz)) is None {
        Err("有效期格式不正确"@)
    } else if allow_multiple && max_uses < -1 {
        Err("兑换次数无效（-1 表示不限制）"@)
    } else if allow_multiple && per_user_limit < -1 {
        Err("单用户兑换次数无效（-1 表示不限制）"@)
    } else if per_user_activity_limit < -1 {
        Err("活动参与次数无效（-1 表示不限制）"@)
    } else {
        Ok(
            (
                if permanent {
                    None
                } else {
                    expiry_instant(trim(expires_at->0), expiry_zone(tz))
                },
                uses_limit(allow_multiple, max_uses),
                uses_limit(allow_multiple, per_user_limit),
                if per_user_activity_limit <= 0 {
                    -1i32
                } else {
                    per_user_activity_limit
                },
            ),
        )
    }
}

/// The limits a batch of generated codes is stored with.
pub struct GenerationPlan {
    /// The expiry instant; `None` for permanent codes.
    pub expires_at: Option<(i64, u32)>,
    pub max_uses: i32,
    pub per_user_limit: i32,
    pub per_user_activity_limit: i32,
}

/// Checks an administrator's request to generate codes (see
/// [`generation_model`]); only administrators may (403 "Admin only").
/// `quota_ok` tells whether the requested quota is above 0, `tz_name` is the
/// site's time zone.
pub fn check_generation_request(
    role: &str,
    count: i32,
    quota_ok: bool,
    permanent: bool,
    expires_at: Option<&str>,
    tz_name: &str,
    allow_multiple: bool,
    max_uses: i32,
    per_user_limit: i32,
    per_user_activity_limit: i32,
) -> (r: Result<GenerationPlan, AppError>)
    ensures
        role@ != "admin"@ ==> (r matches Err(AppError::Forbidden(m)) && m@ == "Admin only"@),
        role@ == "admin"@ ==> match generation_model(
            count,
            quota_ok,
            permanent,
            match expires_at {
                Some(e) => Some(e@),
                None => None,
            },
            tz_name@,
            allow_multiple,
            max_uses,
            per_user_limit,
            per_user_activity_limit,
        ) {
            Ok(p) => r matches Ok(g) && (g.expires_at, g.max_uses, g.per_user_limit, g.per_user_activity_limit) == p,
            Err(msg) => r matches Err(AppError::BadRequest(m)) && m@ == msg,
        },
{
    if !str_eq(role, "admin") {
        return Err(AppError::Forbidden(to_owned_string("Admin only")));
    }
    if count <= 0 || count > 1000 {
        return Err(AppError::BadRequest(to_owned_string("Count must be between 1 and 1000")));
    }
    if !quota_ok {
        return Err(AppError::BadRequest(to_owned_string("额度必须大于 0")));
    }
    let expiry = if permanent {
        None
    } else {
        match expires_at {
            Some(e) => match normalize_expiry_date(e, tz_name) {
                Ok(i) => Some(i),
                Err(err) => return Err(err),
            },
            None => return Err(AppError::BadRequest(to_owned_string("请设置有效期，或选择长期有效"))),
        }
    };
    if allow_multiple && max_uses < -1 {
        return Err(AppError::BadRequest(to_owned_string("兑换次数无效（-1 表示不限制）")));
    }
    if allow_multiple && per_user_limit < -1 {
        return Err(AppError::BadRequest(to_owned_string("单用户兑换次数无效（-1 表示不限制）")));
    }
    if per_user_activity_limit < -1 {
        return Err(AppError::BadRequest(to_owned_string("活动参与次数无效（-1 表示不限制）")));
    }
    let mu = if !allow_multiple {
        1
    } else if max_uses == 0 {
        -1
    } else {
        max_uses
    };
    let pu = if !allow_multiple {
        1
    } else if per_user_limit == 0 {
        -1
    } else {
        per_user_limit
    };
    let pa = if per_user_activity_limit <= 0 {
        -1
    } else {
        per_user_activity_limit
    };
    Ok(GenerationPlan { expires_at: expiry, max_uses: mu, per_user_limit: pu, per_user_activity_limit: pa })
}

} // verus!
