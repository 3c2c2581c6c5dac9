//! Query fragments chosen from a fixed list, and small request models of the
//! channel, redemption and upstream-group endpoints.
use vstd::prelude::*;
use crate::text::{chars_of, str_eq, to_owned_string, trim, trim_str, trim_string, contains, chars_contains};

verus! {

/// The SQL filter for the `source` query parameter: only `system` and
/// `custom` select a fragment, any other input selects none (user input is
/// never spliced into SQL).
pub fn source_filter_sql(source: Option<&str>) -> (r: &'static str)
    ensures
        r@ == (match source {
            Some(s) => if s@ == "system"@ {
                " AND is_system = 1"@
            } else if s@ == "custom"@ {
                " AND is_system = 0"@
            } else {
                ""@
            },
            None => ""@,
        }),
{
    match source {
        Some(s) => {
            if str_eq(s, "system") {
                " AND is_system = 1"
            } else if str_eq(s, "custom") {
                " AND is_system = 0"
            } else {
                ""
            }
        },
        None => "",
    }
}

/// The `LEFT JOIN … ON` condition for `source` (table alias `m`).
pub fn source_join_predicate(source: Option<&str>) -> (r: Option<&'static str>)
    ensures
        match source {
            Some(s) => if s@ == "system"@ {
                r matches Some(p) && p@ == "m.is_system = 1"@
            } else if s@ == "custom"@ {
                r matches Some(p) && p@ == "m.is_system = 0"@
            } else {
                r is None
            },
            None => r is None,
        },
{
    match source {
        Some(s) => {
            if str_eq(s, "system") {
                Some("m.is_system = 1")
            } else if str_eq(s, "custom") {
                Some("m.is_system = 0")
            } else {
                None
            }
        },
        None => None,
    }
}

/// Largest upstream sync interval (minutes, one week).
pub const MAX_SYNC_INTERVAL_MINUTES: i32 = 10080;

/// The sync interval clamped to `[0, 10080]` minutes.
pub fn sanitize_sync_interval(minutes: i32) -> (r: i32)
    ensures
        r == (if minutes < 0 {
            0
        } else if minutes > MAX_SYNC_INTERVAL_MINUTES {
            MAX_SYNC_INTERVAL_MINUTES
        } else {
            minutes
        }),
{
    if minutes < 0 {
        0
    } else if minutes > MAX_SYNC_INTERVAL_MINUTES {
        MAX_SYNC_INTERVAL_MINUTES
    } else {
        minutes
    }
}

/// The upstream group name with surrounding blanks removed.
pub fn sanitize_upstream_group(raw: &str) -> (r: String)
    ensures
        r@ == trim(raw@),
{
    trim_string(raw)
}

/// The API key to store: a submitted key that is not blank and not a masked
/// echo (`******`) replaces the stored one, trimmed; otherwise the stored key
/// stays.
pub fn resolve_api_key(submitted: Option<&str>, stored: &str) -> (r: String)
    ensures
        r@ == (match submitted {
            Some(k) => if trim(k@).len() > 0 && !contains(k@, "******"@) {
                trim(k@)
            } else {
                stored@
            },
            None => stored@,
        }),
{
    match submitted {
        Some(key) => {
            let t = trim_str(key);
            let kv = chars_of(key);
            let mask = chars_of("******");
            if t.unicode_len() > 0 && !chars_contains(kv.as_slice(), mask.as_slice()) {
                to_owned_string(t)
            } else {
                to_owned_string(stored)
            }
        },
        None => to_owned_string(stored),
    }
}

/// Default channel weight.
pub fn default_weight() -> (r: i32)
    ensures
        r == 1,
{
    1
}

/// Default channel status (enabled).
pub fn default_status() -> (r: i32)
    ensures
        r == 1,
{
    1
}

/// Request to list an upstream's groups.
pub struct FetchUpstreamGroupsRequest {
    pub config_id: Option<i64>,
    pub base_url: Option<String>,
    pub api_key: Option<String>,
    pub upstream_system: Option<String>,
}

/// `true`, the default of `permanent`.
pub fn default_true() -> (r: bool)
    ensures
        r,
{
    true
}

/// `-1` (unlimited), the default of the per-code limits.
pub fn default_unlimited() -> (r: i32)
    ensures
        r == -1,
{
    -1
}

/// Body of a redeem request.
pub struct RedeemRequest {
    pub code: String,
}

/// Body of a redemption status update (`1` normal, `0` disabled, `-1` void).
pub struct UpdateRedemptionStatusRequest {
    pub status: i32,
}

/// Query of the redemption list.
pub struct RedemptionQuery {
    pub page: Option<i64>,
    pub page_size: Option<i64>,
    pub name: Option<String>,
}

/// Query of a redemption group deletion.
pub struct DeleteGroupQuery {
    pub name: String,
}

} // verus!
