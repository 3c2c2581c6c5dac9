//! High-availability (HA) failover: which sub-channel failures switch to
//! another sub-channel, which ones melt a sub-channel down for a cooldown,
//! the wall-clock budget of the whole attempt loop, and the loop's state.
//!
//! Failover is possible only when the HA plugin is enabled and the token
//! allows it.  Time is given in milliseconds of a monotonic clock.
use vstd::prelude::*;
use crate::errors::AppError;
use crate::meltdown::{MeltdownTable, meltdown_effect};
use crate::text::{
    chars_contains, chars_find, chars_of, chars_rfind, chars_starts_with, contains, first_index,
    int_string, last_index, parse_i32_chars, parse_signed, push_i64, slice_range, starts_with,
    string_append, string_from_chars, str_starts_with, to_lowercase, to_owned_string, trim,
    trim_str, unicode_lower,
};

verus! {

/// The channel fields the failover logic reads.
pub struct Channel {
    pub id: i64,
    pub name: String,
    pub provider_type: String,
    /// Runtime id of an HA group sub-channel (`ha_group_…`), if any.
    pub group_aid: Option<String>,
    /// Upstream configuration id shown in logs.
    pub yid: Option<String>,
    pub preset_id: Option<i64>,
    pub api_key: String,
}

/// The HA tuning the administrator sets.
pub struct HaConfig {
    /// The HA plugin is enabled.
    pub plugin_enabled: bool,
    pub max_retries: i64,
    /// Whole-loop budget in seconds; `0` = automatic.
    pub total_timeout_secs: i64,
    pub cooldown_429: i64,
    pub cooldown_auth: i64,
    pub cooldown_404: i64,
    pub cooldown_network: i64,
    /// Error keywords (lower case) that stop switching.
    pub meltdown_blacklist: Vec<String>,
    /// Error keywords (lower case) that never melt a sub-channel down.
    pub meltdown_whitelist: Vec<String>,
}

/// Prefix of HA group sub-channel ids.
pub open spec fn is_ha_aid_model(aid: Seq<char>) -> bool {
    starts_with(aid, "ha_group_"@)
}

/// Whether `aid` names an HA group sub-channel.
pub fn is_ha_aid(aid: &str) -> (r: bool)
    ensures
        r == is_ha_aid_model(aid@),
{
    str_starts_with(aid, "ha_group_")
}

/// The id shown in logs: the trimmed `yid`, `-` when missing or blank.
pub open spec fn yid_label_model(yid: Option<&str>) -> Seq<char> {
    match yid {
        Some(y) => if trim(y@).len() > 0 {
            trim(y@)
        } else {
            "-"@
        },
        None => "-"@,
    }
}

/// The upstream id shown in logs (blank → `-`).
pub fn yid_label(yid: Option<&str>) -> (r: &str)
    ensures
        r@ == yid_label_model(yid),
{
    match yid {
        Some(y) => {
            let t = trim_str(y);
            if t.unicode_len() > 0 {
                t
            } else {
                "-"
            }
        },
        None => "-",
    }
}

/// The channel is an HA group or one of its sub-channels.
pub open spec fn is_ha_channel(provider_type: Seq<char>, group_aid: Option<Seq<char>>) -> bool {
    provider_type == "high_availability_group"@ || (group_aid matches Some(a) && is_ha_aid_model(a))
}

/// `1` for an HA channel, `0` otherwise (the `logs.is_ha` column).
pub fn channel_is_ha_flag(channel: &Channel) -> (r: i32)
    ensures
        r == (if is_ha_channel(channel.provider_type@, channel.group_aid.deep_view()) {
            1i32
        } else {
            0i32
        }),
{
    let group = match &channel.group_aid {
        Some(a) => is_ha_aid(a.as_str()),
        None => false,
    };
    let is_ha = crate::text::str_eq(channel.provider_type.as_str(), "high_availability_group")
        || group;
    if is_ha {
        1
    } else {
        0
    }
}

/// The key under which a sub-channel's attempts are grouped.
pub open spec fn group_key_model(group_aid: Option<Seq<char>>, id: i64) -> Seq<char> {
    match group_aid {
        Some(a) => if contains(a, "_config_"@) {
            a.subrange(0, first_index(a, "_config_"@))
        } else if is_ha_aid_model(a) {
            a
        } else {
            "ha_group_"@ + int_string(id as int)
        },
        None => "ha_group_"@ + int_string(id as int),
    }
}

/// The HA group of a channel: the aid before `_config_`, an HA aid itself,
/// else `ha_group_{id}`.
pub fn group_key(channel: &Channel) -> (r: String)
    ensures
        r@ == group_key_model(channel.group_aid.deep_view(), channel.id),
{
    if let Some(aid) = &channel.group_aid {
        let av = chars_of(aid.as_str());
        let marker = chars_of("_config_");
        if let Some(pos) = chars_find(av.as_slice(), marker.as_slice()) {
            let head = slice_range(av.as_slice(), 0, pos);
            return string_from_chars(head.as_slice());
        }
        if is_ha_aid(aid.as_str()) {
            return aid.clone();
        }
    }
    let mut out = to_owned_string("ha_group_");
    push_i64(&mut out, channel.id);
    out
}

/// The upstream configuration id of a sub-channel: the number after the
/// last `_config_` of an HA aid, else the preset id.
pub open spec fn config_id_model(group_aid: Option<Seq<char>>, preset_id: Option<i64>) -> Option<i32> {
    let from_aid: Option<int> = match group_aid {
        Some(a) => if is_ha_aid_model(a) && contains(a, "_config_"@) {
            parse_signed(
                a.subrange(last_index(a, "_config_"@) + 8, a.len() as int),
                i32::MIN as int,
                i32::MAX as int,
            )
        } else {
            None
        },
        None => None,
    };
    match from_aid {
        Some(v) => Some(v as i32),
        None => match preset_id {
            Some(p) => Some(p as i32),
            None => None,
        },
    }
}

/// The configuration id logged for a sub-channel.
pub fn resolve_config_id(channel: &Channel) -> (r: Option<i32>)
    ensures
        r == config_id_model(channel.group_aid.deep_view(), channel.preset_id),
{
    if let Some(aid) = &channel.group_aid {
        let av = chars_of(aid.as_str());
        let marker = chars_of("_config_");
        proof {
            reveal_strlit("_config_");
        }
        if is_ha_aid(aid.as_str()) {
            if let Some(pos) = chars_rfind(av.as_slice(), marker.as_slice()) {
                assert(marker@.len() == 8);
                let n = av.len();
                assert(pos + 8 <= n);
                let start: usize = pos + 8;
                let tail = slice_range(av.as_slice(), start, n);
                if let Some(id) = parse_i32_chars(tail.as_slice()) {
                    return Some(id);
                }
            }
        }
    }
    match channel.preset_id {
        Some(p) => Some(#[verifier::truncate] (p as i32)),
        None => None,
    }
}

/// Upstream client-side statuses: they still switch, but never melt down.
pub open spec fn client_side_status(status: u16) -> bool {
    status == 400 || status == 402 || status == 403 || status == 422
}

/// Whether an upstream status is a client-side error (400/402/403/422).
pub fn is_client_side_http_status(status: u16) -> (r: bool)
    ensures
        r == client_side_status(status),
{
    status == 400 || status == 402 || status == 403 || status == 422
}

/// The meltdown cooldown (seconds) the configuration gives a status.
pub open spec fn cooldown_for(cfg: &HaConfig, status: u16) -> i64 {
    if status == 429 {
        cfg.cooldown_429
    } else if status == 401 || status == 402 {
        cfg.cooldown_auth
    } else if status == 404 {
        cfg.cooldown_404
    } else {
        cfg.cooldown_network
    }
}

/// Meltdown cooldown in seconds for an upstream status.
pub fn cooldown_secs(cfg: &HaConfig, status: u16) -> (r: i64)
    ensures
        r == cooldown_for(cfg, status),
{
    if status == 429 {
        cfg.cooldown_429
    } else if status == 401 || status == 402 {
        cfg.cooldown_auth
    } else if status == 404 {
        cfg.cooldown_404
    } else {
        cfg.cooldown_network
    }
}

/// The first non-empty keyword of `pats` (from index `k`) occurring in `msg`.
pub open spec fn first_keyword(msg: Seq<char>, pats: Seq<Seq<char>>, k: int) -> Option<Seq<char>>
    decreases pats.len() - k,
{
    if k < 0 || k >= pats.len() {
        None
    } else if pats[k].len() > 0 && contains(msg, pats[k]) {
        Some(pats[k])
    } else {
        first_keyword(msg, pats, k + 1)
    }
}

/// The keyword of `list` an error message matches, compared against the
/// message in lower case; an empty message or list matches nothing.
pub open spec fn keyword_match(msg: Seq<char>, list: Seq<Seq<char>>) -> Option<Seq<char>> {
    if msg.len() == 0 || list.len() == 0 {
        None
    } else {
        first_keyword(unicode_lower(msg), list, 0)
    }
}

/// The first keyword of `list` contained in the lower-cased error message.
pub fn match_err_keywords(error_message: &str, list: &Vec<String>) -> (r: Option<String>)
    ensures
        r.deep_view() == keyword_match(error_message@, list.deep_view()),
{
    if error_message.unicode_len() == 0 || list.len() == 0 {
        return None;
    }
    let lower = to_lowercase(error_message);
    let lv = chars_of(lower.as_str());
    let mut k: usize = 0;
    while k < list.len()
        invariant
            k <= list@.len(),
            lv@ == unicode_lower(error_message@),
            error_message@.len() > 0,
            list@.len() > 0,
            keyword_match(error_message@, list.deep_view()) == first_keyword(
                lv@,
                list.deep_view(),
                k as int,
            ),
        decreases list.len() - k,
    {
        let pv = chars_of(list[k].as_str());
        assert(list.deep_view()[k as int] == pv@);
        if pv.len() > 0 && chars_contains(lv.as_slice(), pv.as_slice()) {
            return Some(list[k].clone());
        }
        k = k + 1;
    }
    None
}

/// Failover is on, and how many attempts the loop may make.
pub open spec fn policy_model(plugin_on: bool, token_ha: i32, max_retries: i64) -> (bool, usize) {
    let on = plugin_on && token_ha != 0;
    (on, if on {
        if max_retries < 1 {
            1usize
        } else {
            max_retries as usize
        }
    } else {
        1usize
    })
}

/// `(failover_on, max_attempts)`: failover needs the plugin and a token that
/// allows it; then at least one attempt, else exactly one.
pub fn policy(cfg: &HaConfig, token_ha: i32) -> (r: (bool, usize))
    ensures
        r == policy_model(cfg.plugin_enabled, token_ha, cfg.max_retries),
{
    let on = cfg.plugin_enabled && token_ha != 0;
    let attempts: usize = if on {
        if cfg.max_retries < 1 {
            1
        } else {
            cfg.max_retries as usize
        }
    } else {
        1
    };
    (on, attempts)
}

/// The wall-clock budget in seconds: the configured value when positive,
/// else `upstream − 60` held within `[60, 540]`.
pub open spec fn budget_secs_model(configured: i64, upstream_secs: u64) -> u64 {
    if configured > 0 {
        configured as u64
    } else {
        let base: int = if upstream_secs >= 60 {
            upstream_secs - 60
        } else {
            0
        };
        let capped: int = if base > 540 {
            540
        } else {
            base
        };
        (if capped < 60 {
            60
        } else {
            capped
        }) as u64
    }
}

/// The HA wall-clock budget in seconds.
pub fn resolve_budget_secs(configured: i64, upstream_secs: u64) -> (r: u64)
    ensures
        r == budget_secs_model(configured, upstream_secs),
{
    if configured > 0 {
        configured as u64
    } else {
        let base = if upstream_secs >= 60 {
            upstream_secs - 60
        } else {
            0
        };
        let capped = if base > 540 {
            540
        } else {
            base
        };
        if capped < 60 {
            60
        } else {
            capped
        }
    }
}

/// The shortest per-request timeout once the budget is nearly spent (ms).
pub const MIN_REQ_TIMEOUT_MS: u64 = 1000;

/// The least remaining budget that still allows switching (ms).
pub const MIN_RETRY_BUDGET_MS: u64 = 5000;

/// The per-attempt timeout context taken before sending.
pub struct HaTimeoutCtx {
    pub attempt: usize,
    pub started_at_ms: u64,
    pub budget_ms: Option<u64>,
}

/// Milliseconds elapsed from `start` to `now` (0 when the clock reads earlier).
pub open spec fn elapsed(start: u64, now: u64) -> u64 {
    if now >= start {
        (now - start) as u64
    } else {
        0
    }
}

/// Remaining budget at `now`, `None` without a budget.
pub open spec fn remaining_model(budget: Option<u64>, start: u64, now: u64) -> Option<u64> {
    match budget {
        Some(b) => Some(
            if b >= elapsed(start, now) {
                (b - elapsed(start, now)) as u64
            } else {
                0
            },
        ),
        None => None,
    }
}

impl HaTimeoutCtx {
    /// Remaining budget at `now_ms`.
    pub fn remaining(&self, now_ms: u64) -> (r: Option<u64>)
        ensures
            r == remaining_model(self.budget_ms, self.started_at_ms, now_ms),
    {
        match self.budget_ms {
            Some(b) => {
                let e = if now_ms >= self.started_at_ms {
                    now_ms - self.started_at_ms
                } else {
                    0
                };
                Some(
                    if b >= e {
                        b - e
                    } else {
                        0
                    },
                )
            },
            None => None,
        }
    }

    /// The upstream timeout for this attempt: the base timeout for the first
    /// attempt; later, the remaining budget when it is shorter than the base
    /// (at least one second).
    pub fn resolve(&self, base_ms: u64, now_ms: u64) -> (r: u64)
        ensures
            r == (if self.attempt == 0 {
                base_ms
            } else {
                match remaining_model(self.budget_ms, self.started_at_ms, now_ms) {
                    Some(rem) => if rem < base_ms {
                        if rem < MIN_REQ_TIMEOUT_MS {
                            MIN_REQ_TIMEOUT_MS
                        } else {
                            rem
                        }
                    } else {
                        base_ms
                    },
                    None => base_ms,
                }
            }),
    {
        if self.attempt == 0 {
            return base_ms;
        }
        match self.remaining(now_ms) {
            Some(rem) => {
                if rem < base_ms {
                    if rem < MIN_REQ_TIMEOUT_MS {
                        MIN_REQ_TIMEOUT_MS
                    } else {
                        rem
                    }
                } else {
                    base_ms
                }
            },
            None => base_ms,
        }
    }
}

/// A later attempt never waits longer than the base timeout, nor less than
/// one second when the base allows it; the first attempt always gets the base.
pub proof fn law_timeout_bounded(ctx: HaTimeoutCtx, base_ms: u64, now_ms: u64)
    ensures
        ({
            let t = if ctx.attempt == 0 {
                base_ms
            } else {
                match remaining_model(ctx.budget_ms, ctx.started_at_ms, now_ms) {
                    Some(rem) => if rem < base_ms {
                        if rem < MIN_REQ_TIMEOUT_MS {
                            MIN_REQ_TIMEOUT_MS
                        } else {
                            rem
                        }
                    } else {
                        base_ms
                    },
                    None => base_ms,
                }
            };
            &&& (base_ms >= MIN_REQ_TIMEOUT_MS ==> t <= base_ms)
            &&& (ctx.attempt > 0 ==> t >= MIN_REQ_TIMEOUT_MS || t == base_ms)
        }),
{
}


// ───────────────────────── failover decisions ─────────────────────────

/// The status and message a failed upstream call reports when no parked
/// bill says otherwise.
pub open spec fn status_msg_model(err: AppError) -> (u16, Seq<char>) {
    match err {
        AppError::UpstreamHttpError(s, m) => (s, m@),
        AppError::UpstreamError(m) => (502u16, m@),
        other => (other.status_of(), other.text_of()),
    }
}

/// `(status, message)` of an upstream error.
pub fn status_msg(err: &AppError) -> (r: (u16, String))
    ensures
        (r.0, r.1@) == status_msg_model(*err),
{
    match err {
        AppError::UpstreamHttpError(s, m) => (*s, m.clone()),
        AppError::UpstreamError(m) => (502, m.clone()),
        other => (other.http_status(), other.message()),
    }
}

/// Failover applies to this failure: failover is on, the channel is an HA
/// sub-channel and the message hits no blacklist keyword.
pub open spec fn switch_allowed(
    cfg: &HaConfig,
    failover_on: bool,
    group_aid: Option<Seq<char>>,
    err_msg: Seq<char>,
) -> bool {
    failover_on && (group_aid matches Some(a) && is_ha_aid_model(a)) && keyword_match(
        err_msg,
        cfg.meltdown_blacklist.deep_view(),
    ) is None
}

/// `exclude` with `aid` added unless already there.
pub open spec fn with_excluded(exclude: Seq<Seq<char>>, aid: Seq<char>) -> Seq<Seq<char>> {
    if exclude.contains(aid) {
        exclude
    } else {
        exclude.push(aid)
    }
}

/// Decides whether a failed HA sub-channel is switched away from: when
/// [`switch_allowed`], the sub-channel is excluded from the next choice and,
/// unless the status is client-side, melted down; otherwise nothing changes.
pub fn try_failover(
    cfg: &HaConfig,
    table: &mut MeltdownTable,
    failover_on: bool,
    group_aid: Option<&str>,
    status: u16,
    err_msg: &str,
    exclude_aids: &mut Vec<String>,
    now_ms: u64,
) -> (r: bool)
    requires
        cooldown_for(cfg, status) > 0 ==> now_ms + cooldown_for(cfg, status) * 1000 <= u64::MAX,
    ensures
        r == switch_allowed(
            cfg,
            failover_on,
            match group_aid {
                Some(a) => Some(a@),
                None => None,
            },
            err_msg@,
        ),
        r ==> (group_aid matches Some(a) && final(exclude_aids).deep_view() == with_excluded(
            old(exclude_aids).deep_view(),
            a@,
        ) && (final(table)@, final(table).trigger_count()) == (if client_side_status(status) {
            (old(table)@, old(table).trigger_count())
        } else {
            meltdown_effect(old(table)@, old(table).trigger_count(), cfg, a@, status, err_msg@, now_ms)
        })),
        !r ==> final(exclude_aids).deep_view() == old(exclude_aids).deep_view() && final(table)@
            == old(table)@ && final(table).trigger_count() == old(table).trigger_count(),
{
    if !failover_on {
        return false;
    }
    let aid = match group_aid {
        Some(a) => a,
        None => return false,
    };
    if !is_ha_aid(aid) {
        return false;
    }
    if match_err_keywords(err_msg, &cfg.meltdown_blacklist).is_some() {
        return false;
    }
    if !is_client_side_http_status(status) {
        table.trigger_ha_meltdown(cfg, aid, status, err_msg, now_ms);
    }
    let av = chars_of(aid);
    let mut found = false;
    let mut i: usize = 0;
    while i < exclude_aids.len()
        invariant
            i <= exclude_aids@.len(),
            av@ == aid@,
            found == (exists|k: int| 0 <= k < i && exclude_aids.deep_view()[k] == aid@),
        decreases exclude_aids.len() - i,
    {
        let ev = chars_of(exclude_aids[i].as_str());
        assert(exclude_aids.deep_view()[i as int] == ev@);
        if crate::text::chars_eq(ev.as_slice(), av.as_slice()) {
            found = true;
        }
        i = i + 1;
    }
    let ghost before = exclude_aids.deep_view();
    if !found {
        exclude_aids.push(to_owned_string(aid));
        assert(exclude_aids.deep_view() =~= before.push(aid@));
    }
    true
}

/// One attempt on an HA sub-channel, as kept for the plugin log.
pub struct HaSnap {
    pub n: u16,
    pub yid: String,
    pub name: String,
    pub status: u16,
    pub error: Option<String>,
    pub url: String,
    pub ms: u32,
    pub ok: u8,
}

/// The first failure of the loop: what the client and the log are told
/// when every attempt fails.
pub struct FirstFail {
    pub channel: Channel,
    pub status: u16,
    pub message: String,
    pub endpoint: String,
}

/// What the caller does after a failed attempt.
pub enum FailAction {
    /// Business-side error: stop, no failover, no upstream bookkeeping.
    AccessStop,
    /// Refund this attempt's pre-deduction and try the next sub-channel.
    Continue,
    /// Stop: settle the first failure once and save the attempts.
    Settle,
}

/// The state of one request's failover loop.
pub struct HaAttempt {
    pub exclude_aids: Vec<String>,
    pub attempt: usize,
    pub max_attempts: usize,
    pub failover_on: bool,
    pub pending_log_id: Option<i64>,
    pub had_upstream: bool,
    pub last_err: AppError,
    pub started_at_ms: u64,
    pub budget_ms: Option<u64>,
    pub snaps: Vec<HaSnap>,
    pub first: Option<FirstFail>,
    pub group_aid: Option<String>,
    pub billed: bool,
    pub saved: bool,
}

impl HaAttempt {
    /// When the loop started (ms).
    pub open spec fn start(&self) -> u64 {
        self.started_at_ms
    }

    /// The wall-clock budget (ms), present only with failover on.
    pub open spec fn budget(&self) -> Option<u64> {
        self.budget_ms
    }

    /// `(status, message)` of the first failure, if any.
    pub open spec fn first_failure(&self) -> Option<(u16, Seq<char>)> {
        match self.first {
            Some(f) => Some((f.status, f.message@)),
            None => None,
        }
    }

    /// Number of recorded sub-channel attempts.
    pub open spec fn snap_count(&self) -> nat {
        self.snaps@.len()
    }

    /// The final result was billed (a success was recorded or the first
    /// failure was settled).
    pub open spec fn is_billed(&self) -> bool {
        self.billed
    }

    /// The plugin log was written.
    pub open spec fn is_saved(&self) -> bool {
        self.saved
    }

    /// Opens the loop: resolves the policy, and with failover on the
    /// wall-clock budget.
    pub fn begin(cfg: &HaConfig, token_ha: i32, upstream_timeout_secs: u64, now_ms: u64) -> (r: Self)
        requires
            budget_secs_model(cfg.total_timeout_secs, upstream_timeout_secs) * 1000 <= u64::MAX,
        ensures
            (r.failover_on, r.max_attempts) == policy_model(cfg.plugin_enabled, token_ha, cfg.max_retries),
            r.attempt == 0,
            r.exclude_aids@.len() == 0,
            r.pending_log_id is None,
            !r.had_upstream,
            r.last_err matches AppError::UpstreamError(m) && m@ == "No available models"@,
            r.start() == now_ms,
            r.budget() == (if r.failover_on {
                Some((budget_secs_model(cfg.total_timeout_secs, upstream_timeout_secs) * 1000) as u64)
            } else {
                None
            }),
            r.first_failure() is None,
            r.snap_count() == 0,
            !r.is_billed(),
            !r.is_saved(),
    {
        let (failover_on, max_attempts) = policy(cfg, token_ha);
        let secs = resolve_budget_secs(cfg.total_timeout_secs, upstream_timeout_secs);
        let budget = if failover_on {
            Some(secs * 1000)
        } else {
            None
        };
        HaAttempt {
            exclude_aids: Vec::new(),
            attempt: 0,
            max_attempts,
            failover_on,
            pending_log_id: None,
            had_upstream: false,
            last_err: AppError::UpstreamError(to_owned_string("No available models")),
            started_at_ms: now_ms,
            budget_ms: budget,
            snaps: Vec::new(),
            first: None,
            group_aid: None,
            billed: false,
            saved: false,
        }
    }

    /// The timeout context of the current attempt.
    pub fn timeout_ctx(&self) -> (r: HaTimeoutCtx)
        ensures
            r.attempt == self.attempt,
            r.started_at_ms == self.start(),
            r.budget_ms == self.budget(),
    {
        HaTimeoutCtx { attempt: self.attempt, started_at_ms: self.started_at_ms, budget_ms: self.budget_ms }
    }

    /// Enough budget remains to switch: no budget, or at least 5 s left.
    pub open spec fn budget_left(&self, now_ms: u64) -> bool {
        match remaining_model(self.budget(), self.start(), now_ms) {
            Some(rem) => rem >= MIN_RETRY_BUDGET_MS,
            None => true,
        }
    }

    /// Whether enough budget remains at `now_ms` to switch.
    pub fn has_budget_for_retry(&self, now_ms: u64) -> (r: bool)
        ensures
            r == self.budget_left(now_ms),
    {
        match self.timeout_ctx().remaining(now_ms) {
            Some(rem) => rem >= MIN_RETRY_BUDGET_MS,
            None => true,
        }
    }

    /// Another attempt may start: attempts remain, and a switch (any attempt
    /// after the first) still has budget.
    pub fn cont(&self, now_ms: u64) -> (r: bool)
        ensures
            r == (self.attempt < self.max_attempts && (self.attempt == 0 || self.budget_left(
                now_ms,
            ))),
    {
        if self.attempt >= self.max_attempts {
            return false;
        }
        if self.attempt > 0 && !self.has_budget_for_retry(now_ms) {
            return false;
        }
        true
    }

    /// The upstream timeout of the current attempt (see [`HaTimeoutCtx::resolve`]).
    pub fn attempt_timeout(&self, base_ms: u64, now_ms: u64) -> (r: u64)
        ensures
            r == (if self.attempt == 0 {
                base_ms
            } else {
                match remaining_model(self.budget(), self.start(), now_ms) {
                    Some(rem) => if rem < base_ms {
                        if rem < MIN_REQ_TIMEOUT_MS {
                            MIN_REQ_TIMEOUT_MS
                        } else {
                            rem
                        }
                    } else {
                        base_ms
                    },
                    None => base_ms,
                }
            }),
    {
        self.timeout_ctx().resolve(base_ms, now_ms)
    }

    /// A channel-selection error becomes the client's error only while no
    /// upstream was contacted.
    pub fn on_select_err(&mut self, e: AppError)
        ensures
            final(self).last_err == (if old(self).had_upstream {
                old(self).last_err
            } else {
                e
            }),
            final(self).had_upstream == old(self).had_upstream,
            final(self).attempt == old(self).attempt,
            final(self).pending_log_id == old(self).pending_log_id,
            final(self).first_failure() == old(self).first_failure(),
    {
        if !self.had_upstream {
            self.last_err = e;
        }
    }

    /// A permission / balance error (never failed over) becomes the client's error.
    pub fn on_access_err(&mut self, e: AppError)
        ensures
            final(self).last_err == e,
            final(self).had_upstream == old(self).had_upstream,
            final(self).attempt == old(self).attempt,
            final(self).pending_log_id == old(self).pending_log_id,
            final(self).first_failure() == old(self).first_failure(),
    {
        self.last_err = e;
    }

    /// Moves to the next attempt.
    pub fn bump(&mut self)
        requires
            old(self).attempt < usize::MAX,
        ensures
            final(self).attempt == old(self).attempt + 1,
            final(self).max_attempts == old(self).max_attempts,
            final(self).pending_log_id == old(self).pending_log_id,
            final(self).first_failure() == old(self).first_failure(),
            final(self).start() == old(self).start(),
            final(self).budget() == old(self).budget(),
    {
        self.attempt = self.attempt + 1;
    }

    /// Records the pending log id; `None` never replaces a known id.
    pub fn set_pending(&mut self, id: Option<i64>)
        ensures
            final(self).pending_log_id == (if id is Some {
                id
            } else {
                old(self).pending_log_id
            }),
            final(self).attempt == old(self).attempt,
            final(self).first_failure() == old(self).first_failure(),
    {
        if id.is_some() {
            self.pending_log_id = id;
        }
    }

    /// Records an attempt on an HA sub-channel (other channels are not
    /// recorded); the first recorded channel fixes the group.
    fn push_snap(
        &mut self,
        channel: &Channel,
        status: u16,
        error: Option<String>,
        url: String,
        ms: u32,
        ok: bool,
    )
        ensures
            final(self).snap_count() == old(self).snap_count() + (if is_ha_channel(
                channel.provider_type@,
                channel.group_aid.deep_view(),
            ) {
                1nat
            } else {
                0nat
            }),
            final(self).first == old(self).first,
            final(self).attempt == old(self).attempt,
            final(self).max_attempts == old(self).max_attempts,
            final(self).failover_on == old(self).failover_on,
            final(self).pending_log_id == old(self).pending_log_id,
            final(self).had_upstream == old(self).had_upstream,
            final(self).last_err == old(self).last_err,
            final(self).exclude_aids == old(self).exclude_aids,
            final(self).started_at_ms == old(self).started_at_ms,
            final(self).budget_ms == old(self).budget_ms,
            final(self).billed == old(self).billed,
            final(self).saved == old(self).saved,
    {
        if channel_is_ha_flag(channel) == 0 {
            return;
        }
        if self.group_aid.is_none() {
            self.group_aid = Some(group_key(channel));
        }
        let yid = match &channel.yid {
            Some(y) => crate::text::trim_string(y.as_str()),
            None => String::new(),
        };
        let n: u16 = if self.snaps.len() >= 65535 {
            65535
        } else {
            (self.snaps.len() + 1) as u16
        };
        self.snaps.push(
            HaSnap {
                n,
                yid,
                name: channel.name.clone(),
                status,
                error,
                url,
                ms,
                ok: if ok {
                    1
                } else {
                    0
                },
            },
        );
    }

    /// Whether the loop switches to another sub-channel after a failure:
    /// failover applies (see [`try_failover`]), budget remains, and this was
    /// not the last allowed attempt.
    fn try_switch(
        &mut self,
        cfg: &HaConfig,
        table: &mut MeltdownTable,
        channel: &Channel,
        fail_status: u16,
        msg: &str,
        now_ms: u64,
    ) -> (r: bool)
        requires
            cooldown_for(cfg, fail_status) > 0 ==> now_ms + cooldown_for(cfg, fail_status) * 1000
                <= u64::MAX,
        ensures
            r == (switch_allowed(
                cfg,
                old(self).failover_on,
                channel.group_aid.deep_view(),
                msg@,
            ) && old(self).budget_left(now_ms) && old(self).attempt + 1 < old(self).max_attempts),
            final(self).first == old(self).first,
            final(self).attempt == old(self).attempt,
            final(self).max_attempts == old(self).max_attempts,
            final(self).failover_on == old(self).failover_on,
            final(self).pending_log_id == old(self).pending_log_id,
            final(self).had_upstream == old(self).had_upstream,
            final(self).last_err == old(self).last_err,
            final(self).started_at_ms == old(self).started_at_ms,
            final(self).budget_ms == old(self).budget_ms,
            final(self).snaps == old(self).snaps,
            final(self).billed == old(self).billed,
            final(self).saved == old(self).saved,
    {
        let aid = match &channel.group_aid {
            Some(a) => Some(a.as_str()),
            None => None,
        };
        let mut cont = try_failover(
            cfg,
            table,
            self.failover_on,
            aid,
            fail_status,
            msg,
            &mut self.exclude_aids,
            now_ms,
        );
        if cont && !self.has_budget_for_retry(now_ms) {
            cont = false;
        }
        if cont && (self.attempt >= self.max_attempts || self.max_attempts - self.attempt <= 1) {
            cont = false;
        }
        cont
    }
}


/// The recorded first failure after a failed attempt with `(status, msg)`:
/// the earlier one stays when there is one.
pub open spec fn first_after(
    first: Option<(u16, Seq<char>)>,
    status: u16,
    msg: Seq<char>,
) -> Option<(u16, Seq<char>)> {
    if first is Some {
        first
    } else {
        Some((status, msg))
    }
}

/// The pending log id after recording `id`: `None` never replaces an id.
pub open spec fn pending_after(pending: Option<i64>, id: Option<i64>) -> Option<i64> {
    if id is Some {
        id
    } else {
        pending
    }
}

/// What the plugin log row of a loop holds.
pub struct SaveRecord {
    pub log_id: i64,
    pub group_aid: String,
    pub attempt_count: i16,
    pub final_ok: bool,
    pub final_status: i32,
}

impl Channel {
    /// A copy with the same fields.
    pub fn duplicate(&self) -> (r: Self)
        ensures
            r == *self,
    {
        Channel {
            id: self.id,
            name: self.name.clone(),
            provider_type: self.provider_type.clone(),
            group_aid: self.group_aid.clone(),
            yid: self.yid.clone(),
            preset_id: self.preset_id,
            api_key: self.api_key.clone(),
        }
    }
}

impl HaAttempt {
    /// Handles a failed attempt on `channel`.
    ///
    /// A business-side error stops the loop at once and becomes the client's
    /// error.  Otherwise the failure is `parked` (status and message of the
    /// parked bill) or, without a bill, the error's own status and message;
    /// the first failure of the loop is kept for the client and the log, the
    /// attempt is recorded (`error_text` is the extracted error message,
    /// `masked_url` the upstream URL with the key masked), and the loop
    /// switches when [`HaAttempt::try_switch`] allows it.
    pub fn fail(
        &mut self,
        cfg: &HaConfig,
        table: &mut MeltdownTable,
        channel: &Channel,
        err: AppError,
        parked: Option<(u16, String)>,
        error_text: String,
        masked_url: Option<String>,
        latency_ms: u32,
        endpoint: &str,
        now_ms: u64,
    ) -> (r: FailAction)
        requires
            forall|s: u16| cooldown_for(cfg, s) > 0 ==> now_ms + cooldown_for(cfg, s) * 1000 <= u64::MAX,
        ensures
            err.access_side() ==> ((r matches FailAction::AccessStop) && final(self).last_err == err
                && final(self).first_failure() == old(self).first_failure()
                && final(self).had_upstream == old(self).had_upstream
                && final(self).attempt == old(self).attempt),
            !err.access_side() ==> ({
                let (st, msg) = match parked {
                    Some(p) => (p.0, p.1@),
                    None => status_msg_model(err),
                };
                &&& final(self).had_upstream
                &&& final(self).first_failure() == first_after(old(self).first_failure(), st, msg)
                &&& final(self).last_err == (if old(self).first is None {
                    err
                } else {
                    old(self).last_err
                })
                &&& final(self).attempt == old(self).attempt
                &&& final(self).max_attempts == old(self).max_attempts
                &&& final(self).pending_log_id == old(self).pending_log_id
                &&& (r matches FailAction::Continue) == (switch_allowed(
                    cfg,
                    old(self).failover_on,
                    channel.group_aid.deep_view(),
                    msg,
                ) && old(self).budget_left(now_ms) && old(self).attempt + 1 < old(
                    self,
                ).max_attempts)
                &&& !(r matches FailAction::AccessStop)
            }),
    {
        if err.is_access_side() {
            self.on_access_err(err);
            return FailAction::AccessStop;
        }
        let (fail_status, msg) = match parked {
            Some(p) => p,
            None => status_msg(&err),
        };
        self.had_upstream = true;
        if self.first.is_none() {
            self.first = Some(
                FirstFail {
                    channel: channel.duplicate(),
                    status: fail_status,
                    message: msg.clone(),
                    endpoint: to_owned_string(endpoint),
                },
            );
            self.last_err = err;
        }
        let url = match masked_url {
            Some(u) => u,
            None => String::new(),
        };
        self.push_snap(channel, fail_status, Some(error_text), url, latency_ms, false);
        if self.try_switch(cfg, table, channel, fail_status, msg.as_str(), now_ms) {
            FailAction::Continue
        } else {
            FailAction::Settle
        }
    }

    /// A sub-channel succeeded: the result is billed and the attempt recorded.
    pub fn ok(&mut self, channel: &Channel, masked_url: String, ms: u32)
        ensures
            final(self).billed,
            final(self).first == old(self).first,
            final(self).last_err == old(self).last_err,
            final(self).pending_log_id == old(self).pending_log_id,
            final(self).attempt == old(self).attempt,
    {
        self.billed = true;
        self.push_snap(channel, 200, None, masked_url, ms, true);
    }

    /// The pending row the first failure is settled into (see [`HaAttempt::settle_target`]).
    pub open spec fn settle_target_model(&self) -> Option<i64> {
        if self.billed || self.first is None {
            None
        } else {
            self.pending_log_id
        }
    }

    /// The pending log row the first failure is settled into: none once
    /// billed, without a first failure, or without a pending row (a second
    /// log row is never written).
    pub fn settle_target(&self) -> (r: Option<i64>)
        ensures
            r == self.settle_target_model(),
    {
        if self.billed || self.first.is_none() {
            None
        } else {
            self.pending_log_id
        }
    }

    /// The first failure has been settled.
    pub fn mark_billed(&mut self)
        ensures
            final(self).billed,
            final(self).first == old(self).first,
            final(self).last_err == old(self).last_err,
            final(self).pending_log_id == old(self).pending_log_id,
    {
        self.billed = true;
    }

    /// The plugin log row to write: only once, only with recorded HA
    /// attempts and a pending log id.  The final outcome is the last
    /// successful attempt, else the first failure's status (0 without one).
    pub fn save_record(&self) -> (r: Option<SaveRecord>)
        ensures
            (r is Some) == (!self.saved && self.snaps@.len() > 0 && self.pending_log_id is Some),
            r matches Some(rec) ==> {
                &&& rec.log_id == self.pending_log_id->0
                &&& rec.attempt_count == self.snaps@.len() as i16
                &&& rec.group_aid@ == (match self.group_aid {
                    Some(g) => g@,
                    None => Seq::<char>::empty(),
                })
                &&& rec.final_ok == exists|i: int| 0 <= i < self.snaps@.len() && self.snaps@[i].ok == 1
                &&& rec.final_ok ==> exists|i: int|
                    0 <= i < self.snaps@.len() && self.snaps@[i].ok == 1
                        && rec.final_status == self.snaps@[i].status as i32
                        && forall|j: int| i < j < self.snaps@.len() ==> self.snaps@[j].ok != 1
                &&& !rec.final_ok ==> rec.final_status == (match self.first {
                    Some(f) => f.status as i32,
                    None => 0i32,
                })
            },
    {
        if self.saved || self.snaps.len() == 0 {
            return None;
        }
        let log_id = match self.pending_log_id {
            Some(id) => id,
            None => return None,
        };
        let mut k: usize = self.snaps.len();
        let mut found: Option<u16> = None;
        while k > 0 && found.is_none()
            invariant
                k <= self.snaps@.len(),
                found is None ==> forall|i: int| k <= i < self.snaps@.len() ==> self.snaps@[i].ok != 1,
                found matches Some(s) ==> exists|i: int|
                    0 <= i < self.snaps@.len() && self.snaps@[i].ok == 1 && s == self.snaps@[i].status
                        && forall|j: int| i < j < self.snaps@.len() ==> self.snaps@[j].ok != 1,
            decreases k,
        {
            if self.snaps[k - 1].ok == 1 {
                found = Some(self.snaps[k - 1].status);
                assert(self.snaps@[k - 1].ok == 1);
            }
            k = k - 1;
        }
        let (final_ok, final_status) = match found {
            Some(s) => (true, s as i32),
            None => (
                false,
                match &self.first {
                    Some(f) => f.status as i32,
                    None => 0,
                },
            ),
        };
        let group_aid = match &self.group_aid {
            Some(g) => g.clone(),
            None => String::new(),
        };
        let n = #[verifier::truncate] (self.snaps.len() as i16);
        Some(SaveRecord { log_id, group_aid, attempt_count: n, final_ok, final_status })
    }

    /// The plugin log row was written.
    pub fn mark_saved(&mut self)
        ensures
            final(self).saved,
            final(self).snaps == old(self).snaps,
            final(self).first == old(self).first,
            final(self).last_err == old(self).last_err,
    {
        self.saved = true;
    }

    /// Ends the loop with the client's error: a business-side error as is;
    /// otherwise, after an upstream failure, the first failure (kept as is
    /// when the last error already carries its status).
    pub fn finish(self) -> (r: AppError)
        ensures
            self.last_err.access_side() ==> r == self.last_err,
            !self.last_err.access_side() ==> match self.first {
                Some(f) => if (self.last_err matches AppError::UpstreamHttpError(s, _) && s == f.status) {
                    r == self.last_err
                } else {
                    r matches AppError::UpstreamHttpError(s, m) && s == crate::proxy::norm_status_model(
                        f.status,
                    ) && m@ == crate::proxy::sanitized_model(f.message@)
                },
                None => r == self.last_err,
            },
    {
        if self.last_err.is_access_side() {
            return self.last_err;
        }
        match self.first {
            Some(f) => match self.last_err {
                AppError::UpstreamHttpError(s, m) => {
                    if s == f.status {
                        AppError::UpstreamHttpError(s, m)
                    } else {
                        crate::proxy::upstream_fail(f.status, f.message.as_str())
                    }
                },
                _ => crate::proxy::upstream_fail(f.status, f.message.as_str()),
            },
            None => self.last_err,
        }
    }
}

/// Once a loop has a first failure, later failures never replace it: the
/// status and message that every-attempt-failed requests report are those
/// of the first failed sub-channel.
pub proof fn law_first_failure_kept(first: (u16, Seq<char>), status: u16, msg: Seq<char>)
    ensures
        first_after(Some(first), status, msg) == Some(first),
{
}

/// A pending log id, once known, is never lost by a later `None`.
pub proof fn law_pending_id_kept(pending: i64, id: Option<i64>)
    ensures
        pending_after(Some(pending), id) is Some,
{
}

/// Excluding a sub-channel never duplicates an entry and always leaves it
/// excluded.
pub proof fn law_exclusion_no_duplicates(exclude: Seq<Seq<char>>, aid: Seq<char>)
    requires
        exclude.no_duplicates(),
    ensures
        with_excluded(exclude, aid).no_duplicates(),
        with_excluded(exclude, aid).contains(aid),
{
    if !exclude.contains(aid) {
        let e2 = exclude.push(aid);
        assert(e2.last() == aid);
        assert forall|i: int, j: int| 0 <= i < e2.len() && 0 <= j < e2.len() && i != j implies e2[i]
            != e2[j] by {
            if i < exclude.len() && j < exclude.len() {
            } else if i == exclude.len() {
                assert(!exclude.contains(e2[j]) || e2[j] != aid);
            } else {
                assert(!exclude.contains(e2[i]) || e2[i] != aid);
            }
        }
    }
}

/// Failover never switches without failover on, away from a non-HA
/// channel, or after a blacklisted error.
pub proof fn law_switch_needs_failover(
    cfg: &HaConfig,
    failover_on: bool,
    group_aid: Option<Seq<char>>,
    err_msg: Seq<char>,
)
    ensures
        switch_allowed(cfg, failover_on, group_aid, err_msg) ==> failover_on && group_aid is Some
            && is_ha_aid_model(group_aid->0),
        keyword_match(err_msg, cfg.meltdown_blacklist.deep_view()) is Some ==> !switch_allowed(
            cfg,
            failover_on,
            group_aid,
            err_msg,
        ),
{
}


/// The billing context shared by [`HaAttempt::fail`] and
/// [`HaAttempt::finish`]: application state `S`, API token `T`, the
/// requested model and endpoint, optional category and billing-model hints,
/// and the model record `M` when one was resolved.
pub struct HaBillCtx<'a, S, T, M> {
    pub state: &'a S,
    pub token: &'a T,
    pub model: &'a str,
    pub ep: &'a str,
    pub hint_category: Option<&'a str>,
    pub billing_model_hint: Option<&'a str>,
    pub db_model: Option<&'a M>,
}

impl<'a, S, T, M> HaBillCtx<'a, S, T, M> {
    /// A context with no hints and no model record.
    pub fn new(state: &'a S, token: &'a T, model: &'a str, ep: &'a str) -> (r: Self)
        ensures
            r.state == state,
            r.token == token,
            r.model == model,
            r.ep == ep,
            r.hint_category is None,
            r.billing_model_hint is None,
            r.db_model is None,
    {
        HaBillCtx { state, token, model, ep, hint_category: None, billing_model_hint: None, db_model: None }
    }

    /// Sets the category hint.
    pub fn category(self, c: &'a str) -> (r: Self)
        ensures
            r == (HaBillCtx { hint_category: Some(c), ..self }),
    {
        HaBillCtx { hint_category: Some(c), ..self }
    }

    /// Sets the billing-model hint.
    pub fn billing_model(self, m: &'a str) -> (r: Self)
        ensures
            r == (HaBillCtx { billing_model_hint: Some(m), ..self }),
    {
        HaBillCtx { billing_model_hint: Some(m), ..self }
    }

    /// Sets (or clears) the model record.
    pub fn db(self, m: Option<&'a M>) -> (r: Self)
        ensures
            r == (HaBillCtx { db_model: m, ..self }),
    {
        HaBillCtx { db_model: m, ..self }
    }
}

} // verus!
