//! Request rate limits: per-token requests per second and per minute,
//! login attempts per IP, and the redemption-code IP guard that bans an IP
//! for a day after a burst of attempts.  Times are milliseconds on a
//! monotonic clock supplied by the caller.
use vstd::prelude::*;
use dashmap::DashMap;
use governor::{state::InMemoryState, state::NotKeyed, Quota, RateLimiter};
use std::num::NonZeroU32;
use std::sync::Arc;
use crate::meltdown::{
    table_entries, table_get, table_insert, table_len, table_new, table_remove,
    table_retain_unexpired, unexpired,
};
use crate::relay_cache::elapsed;
use crate::text::{str_eq, to_owned_string, trim, trim_str};

verus! {

/// Length of the redemption attempt window.
pub const REDEEM_WINDOW_MS: u64 = 60_000;

/// Attempts allowed per IP within one window.
pub const REDEEM_IP_MAX_PER_MINUTE: u32 = 20;

/// How long a redemption ban lasts.
pub const REDEEM_BAN_MS: u64 = 86_400_000;

/// Above this many bans, expired bans are dropped first.
pub const REDEEM_BANS_SOFT_CAP: usize = 4096;

/// Above this many windows, stale windows are dropped first.
pub const REDEEM_WINDOWS_SOFT_CAP: usize = 8192;

/// The refusal of a banned IP.
pub const REDEEM_BANNED_MSG: &'static str = "当前 IP 因异常兑换请求已被封禁 24 小时，请稍后再试";

/// Governor rate limiters keyed by API token id.  `governor`'s limiter type
/// is bounded by its own traits, which cannot be declared here, so the map
/// is held behind this opaque struct.
#[verifier::external_body]
pub struct TokenLimiters {
    map: DashMap<i64, Arc<RateLimiter<NotKeyed, InMemoryState, governor::clock::DefaultClock>>>,
}

/// Governor rate limiters keyed by client IP (opaque for the same reason).
#[verifier::external_body]
pub struct IpLimiters {
    map: DashMap<String, Arc<RateLimiter<NotKeyed, InMemoryState, governor::clock::DefaultClock>>>,
}

/// The quota each token's limiter was made with (per second or per
/// minute, by map): a limiter keeps the quota of its first use.
pub uninterp spec fn token_quotas(l: TokenLimiters) -> Map<i64, u32>;

/// The per-minute quota each IP's limiter was made with.
pub uninterp spec fn ip_quotas(l: IpLimiters) -> Map<Seq<char>, u32>;

/// A limiter map after a check of `key` with `quota`: a limiter is made
/// for a key seen the first time; a known key keeps its limiter.
pub open spec fn quota_after<K>(m: Map<K, u32>, key: K, quota: u32) -> Map<K, u32> {
    if m.dom().contains(key) {
        m
    } else {
        m.insert(key, quota)
    }
}

/// No token limiters.
pub open spec fn no_token_quotas() -> Map<i64, u32> {
    Map::empty()
}

/// No IP limiters.
pub open spec fn no_ip_quotas() -> Map<Seq<char>, u32> {
    Map::empty()
}

/// An empty token limiter map (`DashMap::new`).
#[verifier::external_body]
fn token_limiters_new() -> (r: TokenLimiters)
    ensures
        token_quotas(r) == no_token_quotas(),
{
    TokenLimiters { map: DashMap::new() }
}

/// An empty IP limiter map (`DashMap::new`).
#[verifier::external_body]
fn ip_limiters_new() -> (r: IpLimiters)
    ensures
        ip_quotas(r) == no_ip_quotas(),
{
    IpLimiters { map: DashMap::new() }
}

/// `governor`'s `RateLimiter::check` on the token's limiter, which is made
/// with `Quota::per_second(per_second)` the first time the token is seen
/// (`DashMap::entry(..).or_insert`).  Whether a later cell conforms depends
/// on the clock and is not claimed; a fresh limiter's GCRA state has no
/// arrival time yet, so its first cell always conforms.
#[verifier::external_body]
fn token_check_per_second(l: &mut TokenLimiters, token_id: i64, per_second: u32) -> (r: bool)
    requires
        per_second > 0,
    ensures
        token_quotas(*final(l)) == quota_after(token_quotas(*old(l)), token_id, per_second),
        !token_quotas(*old(l)).dom().contains(token_id) ==> r,
{
    let quota = Quota::per_second(NonZeroU32::new(per_second).unwrap());
    l.map.entry(token_id).or_insert(Arc::new(RateLimiter::direct(quota))).check().is_ok()
}

/// `governor`'s `RateLimiter::check` on the token's limiter, which is made
/// with `Quota::per_minute(per_minute)` the first time the token is seen.
/// Later cells depend on the clock and are not claimed; the first cell of
/// a fresh limiter always conforms.
#[verifier::external_body]
fn token_check_per_minute(l: &mut TokenLimiters, token_id: i64, per_minute: u32) -> (r: bool)
    requires
        per_minute > 0,
    ensures
        token_quotas(*final(l)) == quota_after(token_quotas(*old(l)), token_id, per_minute),
        !token_quotas(*old(l)).dom().contains(token_id) ==> r,
{
    let quota = Quota::per_minute(NonZeroU32::new(per_minute).unwrap());
    l.map.entry(token_id).or_insert(Arc::new(RateLimiter::direct(quota))).check().is_ok()
}

/// `governor`'s `RateLimiter::check` on the IP's limiter, which is made with
/// `Quota::per_minute(per_minute)` the first time the IP is seen.  Later
/// cells depend on the clock and are not claimed; the first cell of a fresh
/// limiter always conforms.
#[verifier::external_body]
fn ip_check_per_minute(l: &mut IpLimiters, ip: &str, per_minute: u32) -> (r: bool)
    requires
        per_minute > 0,
    ensures
        ip_quotas(*final(l)) == quota_after(ip_quotas(*old(l)), ip@, per_minute),
        !ip_quotas(*old(l)).dom().contains(ip@) ==> r,
{
    let quota = Quota::per_minute(NonZeroU32::new(per_minute).unwrap());
    l.map.entry(ip.to_string()).or_insert(Arc::new(RateLimiter::direct(quota))).check().is_ok()
}

/// The attempt windows of a window map: IP → (attempts, window start ms).
pub uninterp spec fn window_entries(m: DashMap<String, (u32, u64)>) -> Map<Seq<char>, (u32, u64)>;

/// No windows.
pub open spec fn no_windows() -> Map<Seq<char>, (u32, u64)> {
    Map::empty()
}

/// `DashMap::new`: an empty window map.
#[verifier::external_body]
fn windows_new() -> (r: DashMap<String, (u32, u64)>)
    ensures
        window_entries(r) == no_windows(),
{
    DashMap::new()
}

/// `DashMap::get`, copying the window out.
#[verifier::external_body]
fn windows_get(m: &DashMap<String, (u32, u64)>, key: &str) -> (r: Option<(u32, u64)>)
    ensures
        r == (if window_entries(*m).dom().contains(key@) {
            Some(window_entries(*m)[key@])
        } else {
            None
        }),
{
    m.get(key).map(|e| *e.value())
}

/// `DashMap::insert`.
#[verifier::external_body]
fn windows_insert(m: &mut DashMap<String, (u32, u64)>, key: String, value: (u32, u64))
    ensures
        window_entries(*final(m)) == window_entries(*old(m)).insert(key@, value),
    no_unwind
{
    m.insert(key, value);
}

/// `DashMap::remove`.
#[verifier::external_body]
fn windows_remove(m: &mut DashMap<String, (u32, u64)>, key: &str)
    ensures
        window_entries(*final(m)) == window_entries(*old(m)).remove(key@),
    no_unwind
{
    m.remove(key);
}

/// `DashMap::len`.
#[verifier::external_body]
fn windows_len(m: &DashMap<String, (u32, u64)>) -> (r: usize)
    ensures
        r as nat == window_entries(*m).len(),
{
    m.len()
}

/// The windows started at most two window lengths before `now`.
pub open spec fn recent_windows(m: Map<Seq<char>, (u32, u64)>, now: u64) -> Map<Seq<char>, (u32, u64)> {
    Map::new(
        |k: Seq<char>| m.dom().contains(k) && elapsed(m[k].1, now) <= 2 * REDEEM_WINDOW_MS,
        |k: Seq<char>| m[k],
    )
}

/// A window started at `start` is still recent at `now`.
pub fn window_is_recent(start: u64, now: u64) -> (r: bool)
    ensures
        r == (elapsed(start, now) <= 2 * REDEEM_WINDOW_MS),
{
    let e = if now >= start {
        now - start
    } else {
        0
    };
    e <= 2 * REDEEM_WINDOW_MS
}

/// `DashMap::retain` keeping the recent windows.
#[verifier::external_body]
fn windows_retain_recent(m: &mut DashMap<String, (u32, u64)>, now: u64)
    ensures
        window_entries(*final(m)) == recent_windows(window_entries(*old(m)), now),
    no_unwind
{
    m.retain(|_, w| window_is_recent(w.1, now));
}

/// What one redemption attempt from `ip` at `now` does to the bans and
/// windows, and whether it is allowed.
pub open spec fn redeem_model(
    bans: Map<Seq<char>, u64>,
    wins: Map<Seq<char>, (u32, u64)>,
    ip: Seq<char>,
    now: u64,
) -> (Map<Seq<char>, u64>, Map<Seq<char>, (u32, u64)>, bool) {
    let key = trim(ip);
    if key.len() == 0 || key == "unknown"@ {
        (bans, wins, true)
    } else {
        let b1 = if bans.len() > REDEEM_BANS_SOFT_CAP {
            unexpired(bans, now)
        } else {
            bans
        };
        let w1 = if wins.len() > REDEEM_WINDOWS_SOFT_CAP {
            recent_windows(wins, now)
        } else {
            wins
        };
        if b1.dom().contains(key) && b1[key] > now {
            (b1, w1, false)
        } else {
            let b2 = if b1.dom().contains(key) {
                b1.remove(key)
            } else {
                b1
            };
            let (count, start) = if w1.dom().contains(key) {
                w1[key]
            } else {
                (0u32, now)
            };
            if elapsed(start, now) > REDEEM_WINDOW_MS {
                (b2, w1.insert(key, (1u32, now)), true)
            } else {
                let nc: u32 = if count == u32::MAX {
                    count
                } else {
                    (count + 1) as u32
                };
                if nc > REDEEM_IP_MAX_PER_MINUTE {
                    (b2.insert(key, (now + REDEEM_BAN_MS) as u64), w1.remove(key), false)
                } else {
                    (b2, w1.insert(key, (nc, start)), true)
                }
            }
        }
    }
}

/// Per-token, per-IP and redemption rate limits.
pub struct GlobalRateLimiter {
    token_rps_limits: TokenLimiters,
    token_rpm_limits: TokenLimiters,
    login_ip_limits: IpLimiters,
    redeem_ip_windows: DashMap<String, (u32, u64)>,
    redeem_ip_bans: DashMap<String, u64>,
}

impl GlobalRateLimiter {
    /// Redemption bans: IP → banned-until time.
    pub closed spec fn bans(&self) -> Map<Seq<char>, u64> {
        table_entries(self.redeem_ip_bans)
    }

    /// Redemption attempt windows: IP → (attempts, window start).
    pub closed spec fn windows(&self) -> Map<Seq<char>, (u32, u64)> {
        window_entries(self.redeem_ip_windows)
    }

    /// The per-minute quotas of the login limiters, by IP.
    pub closed spec fn login_quotas(&self) -> Map<Seq<char>, u32> {
        ip_quotas(self.login_ip_limits)
    }

    /// The per-second quotas of the token limiters.
    pub closed spec fn rps_quotas(&self) -> Map<i64, u32> {
        token_quotas(self.token_rps_limits)
    }

    /// The per-minute quotas of the token limiters.
    pub closed spec fn rpm_quotas(&self) -> Map<i64, u32> {
        token_quotas(self.token_rpm_limits)
    }

    /// A limiter with no limits recorded yet.
    pub fn new() -> (r: Self)
        ensures
            r.bans() == crate::meltdown::no_entries(),
            r.windows() == no_windows(),
            r.login_quotas() == no_ip_quotas(),
            r.rps_quotas() == no_token_quotas(),
            r.rpm_quotas() == no_token_quotas(),
    {
        GlobalRateLimiter {
            token_rps_limits: token_limiters_new(),
            token_rpm_limits: token_limiters_new(),
            login_ip_limits: ip_limiters_new(),
            redeem_ip_windows: windows_new(),
            redeem_ip_bans: table_new(),
        }
    }

    /// Login attempts: at most `per_minute` (at least 1) per IP per minute.
    /// The IP's limiter is made with that quota when the IP is first seen
    /// (and then allows the attempt); later attempts are the limiter's
    /// decision.  Nothing else changes.
    pub fn check_login_ip(&mut self, ip: &str, per_minute: u32) -> (r: bool)
        ensures
            final(self).login_quotas() == quota_after(
                old(self).login_quotas(),
                ip@,
                if per_minute >= 1 {
                    per_minute
                } else {
                    1
                },
            ),
            !old(self).login_quotas().dom().contains(ip@) ==> r,
            final(self).rps_quotas() == old(self).rps_quotas(),
            final(self).rpm_quotas() == old(self).rpm_quotas(),
            final(self).bans() == old(self).bans(),
            final(self).windows() == old(self).windows(),
    {
        let limit = if per_minute >= 1 {
            per_minute
        } else {
            1
        };
        ip_check_per_minute(&mut self.login_ip_limits, ip, limit)
    }

    /// Requests per second of a token; a limit of zero or less lets every
    /// request through and records nothing.  Otherwise the token's limiter
    /// is made with that quota when the token is first seen (and then lets
    /// the request through); later requests are the limiter's decision.
    pub fn check_rps(&mut self, token_id: i64, rps: i32) -> (r: bool)
        ensures
            rps <= 0 ==> r && final(self).rps_quotas() == old(self).rps_quotas(),
            rps > 0 ==> final(self).rps_quotas() == quota_after(old(self).rps_quotas(), token_id, rps as u32),
            rps > 0 && !old(self).rps_quotas().dom().contains(token_id) ==> r,
            final(self).login_quotas() == old(self).login_quotas(),
            final(self).rpm_quotas() == old(self).rpm_quotas(),
            final(self).bans() == old(self).bans(),
            final(self).windows() == old(self).windows(),
    {
        if rps <= 0 {
            return true;
        }
        token_check_per_second(&mut self.token_rps_limits, token_id, rps as u32)
    }

    /// Requests per minute of a token; a limit of zero or less lets every
    /// request through and records nothing.  Otherwise the token's limiter
    /// is made with that quota when the token is first seen (and then lets
    /// the request through); later requests are the limiter's decision.
    pub fn check_rpm(&mut self, token_id: i64, rpm: i32) -> (r: bool)
        ensures
            rpm <= 0 ==> r && final(self).rpm_quotas() == old(self).rpm_quotas(),
            rpm > 0 ==> final(self).rpm_quotas() == quota_after(old(self).rpm_quotas(), token_id, rpm as u32),
            rpm > 0 && !old(self).rpm_quotas().dom().contains(token_id) ==> r,
            final(self).login_quotas() == old(self).login_quotas(),
            final(self).rps_quotas() == old(self).rps_quotas(),
            final(self).bans() == old(self).bans(),
            final(self).windows() == old(self).windows(),
    {
        if rpm <= 0 {
            return true;
        }
        token_check_per_minute(&mut self.token_rpm_limits, token_id, rpm as u32)
    }

    /// The redemption-code IP guard: a banned IP is refused; every attempt
    /// counts; more than 20 attempts within a minute ban the IP for 24
    /// hours.  An empty or `unknown` IP is not limited.
    pub fn check_redeem_ip(&mut self, ip: &str, now_ms: u64) -> (r: Result<(), String>)
        requires
            now_ms + REDEEM_BAN_MS <= u64::MAX,
        ensures
            ({
                let (b, w, ok) = redeem_model(old(self).bans(), old(self).windows(), ip@, now_ms);
                &&& final(self).bans() == b
                &&& final(self).windows() == w
                &&& (r is Ok) == ok
                &&& r matches Err(m) ==> m@ == REDEEM_BANNED_MSG@
            }),
    {
        let key = trim_str(ip);
        if key.is_empty() || str_eq(key, "unknown") {
            return Ok(());
        }
        if table_len(&self.redeem_ip_bans) > REDEEM_BANS_SOFT_CAP {
            table_retain_unexpired(&mut self.redeem_ip_bans, now_ms);
        }
        if windows_len(&self.redeem_ip_windows) > REDEEM_WINDOWS_SOFT_CAP {
            windows_retain_recent(&mut self.redeem_ip_windows, now_ms);
        }
        if let Some(until) = table_get(&self.redeem_ip_bans, key) {
            if until > now_ms {
                return Err(to_owned_string(REDEEM_BANNED_MSG));
            }
            table_remove(&mut self.redeem_ip_bans, key);
        }
        let (count, start) = match windows_get(&self.redeem_ip_windows, key) {
            Some(w) => w,
            None => (0u32, now_ms),
        };
        let e = if now_ms >= start {
            now_ms - start
        } else {
            0
        };
        if e > REDEEM_WINDOW_MS {
            windows_insert(&mut self.redeem_ip_windows, to_owned_string(key), (1, now_ms));
            return Ok(());
        }
        let new_count = count.saturating_add(1);
        if new_count > REDEEM_IP_MAX_PER_MINUTE {
            table_insert(&mut self.redeem_ip_bans, to_owned_string(key), now_ms + REDEEM_BAN_MS);
            windows_remove(&mut self.redeem_ip_windows, key);
            return Err(to_owned_string(REDEEM_BANNED_MSG));
        }
        windows_insert(&mut self.redeem_ip_windows, to_owned_string(key), (new_count, start));
        Ok(())
    }
}

/// A banned IP is refused at every time before its ban ends.
pub proof fn law_banned_ip_refused(
    bans: Map<Seq<char>, u64>,
    wins: Map<Seq<char>, (u32, u64)>,
    ip: Seq<char>,
    now: u64,
)
    requires
        trim(ip).len() > 0,
        trim(ip) != "unknown"@,
        bans.dom().contains(trim(ip)),
        bans[trim(ip)] > now,
    ensures
        !redeem_model(bans, wins, ip, now).2,
{
}

/// The attempt after twenty within one window is refused and bans the IP
/// for 24 hours, clearing its window.
pub proof fn law_burst_bans_for_a_day(
    bans: Map<Seq<char>, u64>,
    wins: Map<Seq<char>, (u32, u64)>,
    ip: Seq<char>,
    start: u64,
    now: u64,
)
    requires
        trim(ip).len() > 0,
        trim(ip) != "unknown"@,
        !(bans.dom().contains(trim(ip)) && bans[trim(ip)] > now),
        wins.dom().contains(trim(ip)),
        wins[trim(ip)] == (REDEEM_IP_MAX_PER_MINUTE, start),
        elapsed(start, now) <= REDEEM_WINDOW_MS,
        now + REDEEM_BAN_MS <= u64::MAX,
    ensures
        ({
            let (b, w, ok) = redeem_model(bans, wins, ip, now);
            !ok && b.dom().contains(trim(ip)) && b[trim(ip)] == now + REDEEM_BAN_MS && !w.dom().contains(
                trim(ip),
            )
        }),
{
    let key = trim(ip);
    if bans.len() > REDEEM_BANS_SOFT_CAP {
        assert(!(unexpired(bans, now).dom().contains(key) && unexpired(bans, now)[key] > now));
    }
    if wins.len() > REDEEM_WINDOWS_SOFT_CAP {
        assert(recent_windows(wins, now).dom().contains(key));
    }
}

/// An IP that is not banned and has no current window is allowed and opens
/// a window of one attempt.
pub proof fn law_fresh_window_allows(
    bans: Map<Seq<char>, u64>,
    wins: Map<Seq<char>, (u32, u64)>,
    ip: Seq<char>,
    now: u64,
)
    requires
        trim(ip).len() > 0,
        trim(ip) != "unknown"@,
        !bans.dom().contains(trim(ip)),
        !wins.dom().contains(trim(ip)),
    ensures
        ({
            let (b, w, ok) = redeem_model(bans, wins, ip, now);
            ok && w.dom().contains(trim(ip)) && w[trim(ip)] == (1u32, now)
        }),
{
}


/// The bans, windows and answers after attempts from `ip` at `times`, in
/// order.
pub open spec fn redeem_run(
    bans: Map<Seq<char>, u64>,
    wins: Map<Seq<char>, (u32, u64)>,
    ip: Seq<char>,
    times: Seq<u64>,
) -> (Map<Seq<char>, u64>, Map<Seq<char>, (u32, u64)>, Seq<bool>)
    decreases times.len(),
{
    if times.len() == 0 {
        (bans, wins, Seq::empty())
    } else {
        let (b, w, oks) = redeem_run(bans, wins, ip, times.drop_last());
        let (b2, w2, ok) = redeem_model(b, w, ip, times.last());
        (b2, w2, oks.push(ok))
    }
}

/// Attempt times that never go back and all lie within one window of the
/// first.
pub open spec fn within_one_window(times: Seq<u64>) -> bool {
    &&& forall|i: int, j: int| 0 <= i <= j < times.len() ==> times[i] <= times[j]
    &&& forall|i: int| 0 <= i < times.len() ==> #[trigger] times[i] - times[0] <= REDEEM_WINDOW_MS
}

proof fn lemma_run_prefix(ip: Seq<char>, times: Seq<u64>, n: int)
    requires
        trim(ip).len() > 0,
        trim(ip) != "unknown"@,
        0 <= n <= 20,
        n <= times.len(),
        within_one_window(times),
    ensures
        ({
            let (b, w, oks) = redeem_run(Map::empty(), Map::empty(), ip, times.take(n));
            &&& b == Map::<Seq<char>, u64>::empty()
            &&& (n == 0 ==> w == Map::<Seq<char>, (u32, u64)>::empty())
            &&& (n > 0 ==> w == Map::<Seq<char>, (u32, u64)>::empty().insert(trim(ip), (n as u32, times[0])))
            &&& oks.len() == n
            &&& forall|i: int| 0 <= i < n ==> oks[i]
        }),
    decreases n,
{
    let key = trim(ip);
    if n == 0 {
        assert(times.take(0).len() == 0);
    } else {
        lemma_run_prefix(ip, times, n - 1);
        let t = times.take(n);
        assert(t.drop_last() =~= times.take(n - 1));
        assert(t.last() == times[n - 1]);
        let (b, w, oks) = redeem_run(Map::empty(), Map::empty(), ip, times.take(n - 1));
        let now = times[n - 1];
        assert(b.len() == 0);
        if n == 1 {
            assert(w.len() == 0);
            assert(w.insert(key, (1u32, now)) =~= Map::<Seq<char>, (u32, u64)>::empty().insert(key, (1u32, times[0])));
        } else {
            assert(w.len() == 1) by {
                assert(w.dom() =~= set![key]);
            }
            assert(times[0] <= now);
            assert(w.insert(key, (n as u32, times[0])) =~= Map::<Seq<char>, (u32, u64)>::empty().insert(
                key,
                (n as u32, times[0]),
            ));
        }
        let (b2, w2, ok) = redeem_model(b, w, ip, now);
        assert(ok);
        assert(redeem_run(Map::empty(), Map::empty(), ip, t).2 =~= oks.push(ok));
    }
}

/// Twenty attempts from one IP within a minute (starting with no bans and
/// no windows) are allowed; the twenty-first is refused and bans the IP
/// for 24 hours from that attempt.
pub proof fn law_twenty_first_attempt_banned(ip: Seq<char>, times: Seq<u64>)
    requires
        trim(ip).len() > 0,
        trim(ip) != "unknown"@,
        times.len() == 21,
        within_one_window(times),
        times[20] + REDEEM_BAN_MS <= u64::MAX,
    ensures
        ({
            let (b, w, oks) = redeem_run(Map::empty(), Map::empty(), ip, times);
            &&& forall|i: int| 0 <= i < 20 ==> oks[i]
            &&& !oks[20]
            &&& b.dom().contains(trim(ip))
            &&& b[trim(ip)] == times[20] + REDEEM_BAN_MS
            &&& !w.dom().contains(trim(ip))
        }),
{
    let key = trim(ip);
    lemma_run_prefix(ip, times, 20);
    assert(times.drop_last() =~= times.take(20));
    let (b, w, oks) = redeem_run(Map::empty(), Map::empty(), ip, times.take(20));
    assert(w.len() == 1) by {
        assert(w.dom() =~= set![key]);
    }
    assert(times[0] <= times[20]);
    law_burst_bans_for_a_day(b, w, ip, times[0], times[20]);
    assert(redeem_run(Map::empty(), Map::empty(), ip, times).2 =~= oks.push(
        redeem_model(b, w, ip, times[20]).2,
    ));
}

/// Once a ban has run out (and its window was cleared with it), the IP is
/// allowed again and opens a fresh window.
pub proof fn law_ban_lifts(bans: Map<Seq<char>, u64>, wins: Map<Seq<char>, (u32, u64)>, ip: Seq<char>, now: u64)
    requires
        trim(ip).len() > 0,
        trim(ip) != "unknown"@,
        bans.dom().contains(trim(ip)),
        bans[trim(ip)] <= now,
        !wins.dom().contains(trim(ip)),
    ensures
        ({
            let (b, w, ok) = redeem_model(bans, wins, ip, now);
            ok && !b.dom().contains(trim(ip)) && w.dom().contains(trim(ip)) && w[trim(ip)] == (1u32, now)
        }),
{
    let key = trim(ip);
    if wins.len() > REDEEM_WINDOWS_SOFT_CAP {
        assert(!recent_windows(wins, now).dom().contains(key));
    }
}

} // verus!
