//! Relay request classification: endpoint and category mapping, upstream
//! error status inference from error codes and texts, the client-facing
//! upstream error, and log redaction.
use vstd::prelude::*;
use crate::errors::AppError;
use crate::json::{
    json_array_items, json_array_items_at, json_has_pointer, json_pointer_present, json_pointer_str,
    json_pointer_text,
};
use crate::response_scan::{nonempty_at, nonempty_text};
use crate::text::{
    ascii_lower, chars_ascii_lower, chars_contains, chars_find, chars_of, contains, dec_string,
    first_index, parse_unsigned, parse_unsigned_chars, push_u64, all_digits, dec_value, parse_digits, slice_range, str_eq, string_append,
    to_lowercase, to_owned_string, trim, trim_str, unicode_lower, insert_sorted_unique,
    string_views, strictly_sorted,
};

verus! {

/// The standard endpoint of a model category (used in error logs).
pub open spec fn category_endpoint_model(category: Option<&str>) -> Seq<char> {
    match category {
        Some(c) => if c@ == "图片"@ {
            "/v1/images/generations"@
        } else if c@ == "视频"@ || c@ == "视频增强"@ {
            "/v1/video/generations"@
        } else if c@ == "音频"@ {
            "/v1/audio/speech"@
        } else if c@ == "向量"@ {
            "/v1/embeddings"@
        } else if c@ == "排序"@ {
            "/v1/rerank"@
        } else {
            "/v1/chat/completions"@
        },
        None => "/v1/chat/completions"@,
    }
}

/// The standard endpoint path of a category; chat for anything else.
pub fn category_endpoint(category: Option<&str>) -> (r: &'static str)
    ensures
        r@ == category_endpoint_model(category),
{
    match category {
        Some(c) => {
            if str_eq(c, "图片") {
                "/v1/images/generations"
            } else if str_eq(c, "视频") || str_eq(c, "视频增强") {
                "/v1/video/generations"
            } else if str_eq(c, "音频") {
                "/v1/audio/speech"
            } else if str_eq(c, "向量") {
                "/v1/embeddings"
            } else if str_eq(c, "排序") {
                "/v1/rerank"
            } else {
                "/v1/chat/completions"
            }
        },
        None => "/v1/chat/completions",
    }
}

/// The entry category and the model's own category interoperate: equal, or
/// video and video enhancement either way.
pub fn category_compatible(expected: &str, resolved: &str) -> (r: bool)
    ensures
        r == (expected@ == resolved@ || (expected@ == "视频"@ && resolved@ == "视频增强"@) || (
        expected@ == "视频增强"@ && resolved@ == "视频"@)),
{
    str_eq(expected, resolved) || (str_eq(expected, "视频") && str_eq(resolved, "视频增强")) || (
    str_eq(expected, "视频增强") && str_eq(resolved, "视频"))
}

/// The message for a model used through an endpoint of another category.
pub fn type_mismatch_message(model: &str, resolved_cat: &str, expected_cat: &str) -> (r: String)
    ensures
        r@ == "模型 '"@ + model@ + "' 为 '"@ + resolved_cat@ + "' 类型，不支持当前 '"@ + expected_cat@
            + "' 接口请求"@,
{
    let mut out = to_owned_string("模型 '");
    string_append(&mut out, model);
    string_append(&mut out, "' 为 '");
    string_append(&mut out, resolved_cat);
    string_append(&mut out, "' 类型，不支持当前 '");
    string_append(&mut out, expected_cat);
    string_append(&mut out, "' 接口请求");
    out
}

/// Path keywords and the category they imply; more specific first.
pub open spec fn path_rules() -> Seq<(Seq<char>, Seq<char>)> {
    seq![
        ("enhance-video"@, "视频增强"@),
        ("erase-video"@, "视频增强"@),
        ("contents/generations"@, "视频"@),
        ("video-generation"@, "视频"@),
        ("video-synthesis"@, "视频"@),
        ("/videos/"@, "视频"@),
        ("/video/"@, "视频"@),
        ("multimodal-generation"@, "图片"@),
        ("/images/"@, "图片"@),
        ("/image/"@, "图片"@),
        ("/audio/"@, "音频"@),
        ("/tts"@, "音频"@),
        ("/speech"@, "音频"@),
        ("embedding"@, "向量"@),
        ("rerank"@, "排序"@),
        ("/chat/"@, "聊天"@),
        ("/messages"@, "聊天"@),
        ("/responses"@, "聊天"@),
        ("v1beta/models"@, "聊天"@),
    ]
}

/// The category of the first rule (from `k`) whose keyword `ep` contains.
pub open spec fn rule_from(ep: Seq<char>, k: int) -> Option<Seq<char>>
    decreases path_rules().len() - k,
{
    if k < 0 || k >= path_rules().len() {
        None
    } else if contains(ep, path_rules()[k].0) {
        Some(path_rules()[k].1)
    } else {
        rule_from(ep, k + 1)
    }
}

/// The part of an endpoint before the first `|`.
pub open spec fn endpoint_head(endpoint: Seq<char>) -> Seq<char> {
    if contains(endpoint, "|"@) {
        endpoint.subrange(0, first_index(endpoint, "|"@))
    } else {
        endpoint
    }
}

/// The category a request path implies (fallback when the caller does not
/// know it): the head before `|`, lower-cased, matched against the rules.
pub fn action_type_from_path(endpoint: &str) -> (r: Option<&'static str>)
    ensures
        match r {
            Some(c) => rule_from(ascii_lower(endpoint_head(endpoint@)), 0) == Some(c@),
            None => rule_from(ascii_lower(endpoint_head(endpoint@)), 0) is None,
        },
{
    let v = chars_of(endpoint);
    let bar = chars_of("|");
    let head = match chars_find(v.as_slice(), bar.as_slice()) {
        Some(i) => crate::text::slice_range(v.as_slice(), 0, i),
        None => v,
    };
    let ep = chars_ascii_lower(head.as_slice());
    let mut rules: Vec<(&'static str, &'static str)> = Vec::new();
    rules.push(("enhance-video", "视频增强"));
    rules.push(("erase-video", "视频增强"));
    rules.push(("contents/generations", "视频"));
    rules.push(("video-generation", "视频"));
    rules.push(("video-synthesis", "视频"));
    rules.push(("/videos/", "视频"));
    rules.push(("/video/", "视频"));
    rules.push(("multimodal-generation", "图片"));
    rules.push(("/images/", "图片"));
    rules.push(("/image/", "图片"));
    rules.push(("/audio/", "音频"));
    rules.push(("/tts", "音频"));
    rules.push(("/speech", "音频"));
    rules.push(("embedding", "向量"));
    rules.push(("rerank", "排序"));
    rules.push(("/chat/", "聊天"));
    rules.push(("/messages", "聊天"));
    rules.push(("/responses", "聊天"));
    rules.push(("v1beta/models", "聊天"));
    let mut k: usize = 0;
    while k < rules.len()
        invariant
            rules@.len() == path_rules().len(),
            forall|t: int| 0 <= t < rules@.len() ==> (#[trigger] rules@[t]).0@ == path_rules()[t].0 && rules@[t].1@ == path_rules()[t].1,
            k <= rules@.len(),
            ep@ == ascii_lower(endpoint_head(endpoint@)),
            rule_from(ep@, 0) == rule_from(ep@, k as int),
        decreases rules.len() - k,
    {
        let (key, cat) = rules[k];
        let kv = chars_of(key);
        if chars_contains(ep.as_slice(), kv.as_slice()) {
            return Some(cat);
        }
        k = k + 1;
    }
    None
}

/// An upstream status as clients see it: 4xx/5xx kept, anything else 502.
pub open spec fn norm_status_model(status: u16) -> u16 {
    if 400 <= status && status < 600 {
        status
    } else {
        502
    }
}

/// Keeps 4xx/5xx statuses; anything else becomes 502.
pub fn norm_status(status: u16) -> (r: u16)
    ensures
        r == norm_status_model(status),
{
    if 400 <= status && status < 600 {
        status
    } else {
        502
    }
}

/// The upstream error text for logs: the body, or a default sentence for a
/// blank body.
pub fn upstream_error_text(status: u16, body: &str) -> (r: String)
    ensures
        r@ == (if trim(body@).len() == 0 {
            "Upstream HTTP error "@ + dec_string(status as nat)
        } else {
            body@
        }),
{
    if trim_str(body).unicode_len() == 0 {
        let mut out = to_owned_string("Upstream HTTP error ");
        push_u64(&mut out, status as u64);
        out
    } else {
        to_owned_string(body)
    }
}

/// Keyword groups for error codes, in the order they are tried, with the
/// status each implies.
pub open spec fn code_groups() -> Seq<(Seq<Seq<char>>, u16)> {
    seq![
        (
            seq![
                "sensitive"@,
                "policy"@,
                "violation"@,
                "safety"@,
                "copyright"@,
                "block"@,
                "moderation"@,
                "censor"@,
                "permission"@,
                "forbidden"@,
                "access_denied"@,
            ],
            403u16,
        ),
        (
            seq![
                "auth"@,
                "unauthorized"@,
                "invalid_key"@,
                "credential"@,
                "unauthenticated"@,
                "revoked"@,
            ],
            401u16,
        ),
        (seq!["rate"@, "limit"@, "quota"@, "throttl"@, "exceeded"@], 429u16),
        (seq!["timeout"@, "gateway"@, "unavailable"@, "overload"@], 504u16),
        (seq!["internal"@, "server_error"@, "service_error"@], 500u16),
    ]
}

/// Keyword groups for error texts, in the order they are tried.
pub open spec fn text_groups() -> Seq<(Seq<Seq<char>>, u16)> {
    seq![
        (
            seq![
                "safety"@,
                "censor"@,
                "policy"@,
                "violation"@,
                "block"@,
                "sensitive"@,
                "moderation"@,
                "content_filter"@,
                "敏感"@,
                "违规"@,
                "安全"@,
                "政策"@,
                "审核"@,
            ],
            403u16,
        ),
        (
            seq![
                "permission"@,
                "forbidden"@,
                "not authorized"@,
                "access denied"@,
                "无权限"@,
                "没有权限"@,
            ],
            403u16,
        ),
        (
            seq![
                "auth"@,
                "unauthorized"@,
                "api_key"@,
                "credential"@,
                "invalid_key"@,
                "bad_key"@,
                "revoked"@,
                "unauthenticated"@,
                "鉴权"@,
                "密钥"@,
                "授权"@,
            ],
            401u16,
        ),
        (
            seq![
                "limit"@,
                "quota"@,
                "exceeded"@,
                "rate"@,
                "insufficient"@,
                "out of budget"@,
                "payment"@,
                "欠费"@,
                "额度"@,
                "限流"@,
                "并发"@,
                "超出"@,
                "不足"@,
            ],
            429u16,
        ),
        (
            seq![
                "timeout"@,
                "gateway"@,
                "connect"@,
                "disconnect"@,
                "abort"@,
                "unreachable"@,
                "超时"@,
                "网关"@,
                "中断"@,
            ],
            504u16,
        ),
        (
            seq![
                "internal"@,
                "server"@,
                "failed"@,
                "error"@,
                "bug"@,
                "crash"@,
                "故障"@,
                "服务器错误"@,
                "执行失败"@,
                "异常"@,
            ],
            500u16,
        ),
    ]
}

/// `s` contains one of `words`.
pub open spec fn contains_any(s: Seq<char>, words: Seq<Seq<char>>) -> bool {
    exists|i: int| 0 <= i < words.len() && contains(s, words[i])
}

/// The status of the first group (from `k`) with a keyword in `s`.
pub open spec fn group_status(s: Seq<char>, groups: Seq<(Seq<Seq<char>>, u16)>, k: int) -> Option<u16>
    decreases groups.len() - k,
{
    if k < 0 || k >= groups.len() {
        None
    } else if contains_any(s, groups[k].0) {
        Some(groups[k].1)
    } else {
        group_status(s, groups, k + 1)
    }
}

/// The digits of a numeric code (an optional leading `+` dropped).
pub open spec fn code_digits(code: Seq<char>) -> Seq<char> {
    if code.len() > 0 && code[0] == '+' {
        code.drop_first()
    } else {
        code
    }
}

/// Whether a code is a number: at least one ASCII digit, after an optional
/// `+`.
pub open spec fn numeric_code(code: Seq<char>) -> bool {
    code_digits(code).len() > 0 && all_digits(code_digits(code))
}

/// The status an error code implies: a number is taken when it is a 4xx/5xx
/// status and refused otherwise, whatever its length (vendor business codes
/// give `None`); a word is classified by its keywords (lower case), an
/// unclassified word is a client error (400).
pub open spec fn classify_code_model(code: Seq<char>) -> Option<u16> {
    if numeric_code(code) {
        let n = dec_value(code_digits(code));
        if 400 <= n && n <= 599 {
            Some(n as u16)
        } else {
            None
        }
    } else {
        match group_status(unicode_lower(code), code_groups(), 0) {
            Some(s) => Some(s),
            None => Some(400u16),
        }
    }
}

/// The status an error text implies by its keywords (lower case); 400 when
/// none matches.
pub open spec fn classify_text_model(msg: Seq<char>) -> u16 {
    match group_status(unicode_lower(msg), text_groups(), 0) {
        Some(s) => s,
        None => 400,
    }
}

/// Whether the characters `s` contain one of `words`.
fn contains_any_exec(s: &[char], words: &Vec<&'static str>) -> (r: bool)
    ensures
        r == contains_any(s@, words@.map_values(|w: &'static str| w@)),
{
    let ghost wm = words@.map_values(|w: &'static str| w@);
    let mut i: usize = 0;
    while i < words.len()
        invariant
            i <= words@.len(),
            wm == words@.map_values(|w: &'static str| w@),
            forall|k: int| 0 <= k < i ==> !contains(s@, wm[k]),
        decreases words.len() - i,
    {
        let w = chars_of(words[i]);
        if chars_contains(s, w.as_slice()) {
            assert(wm[i as int] == w@);
            return true;
        }
        i = i + 1;
    }
    false
}

/// The status of the first group with a keyword in `s`.
fn group_status_exec(s: &[char], groups: &Vec<(Vec<&'static str>, u16)>) -> (r: Option<u16>)
    ensures
        r == group_status(
            s@,
            groups@.map_values(|g: (Vec<&'static str>, u16)| (g.0@.map_values(|w: &'static str| w@), g.1)),
            0,
        ),
{
    let ghost gm = groups@.map_values(|g: (Vec<&'static str>, u16)| (g.0@.map_values(|w: &'static str| w@), g.1));
    let mut k: usize = 0;
    while k < groups.len()
        invariant
            k <= groups@.len(),
            gm == groups@.map_values(|g: (Vec<&'static str>, u16)| (g.0@.map_values(|w: &'static str| w@), g.1)),
            group_status(s@, gm, 0) == group_status(s@, gm, k as int),
        decreases groups.len() - k,
    {
        assert(gm[k as int] == (groups@[k as int].0@.map_values(|w: &'static str| w@), groups@[k as int].1));
        if contains_any_exec(s, &groups[k].0) {
            return Some(groups[k].1);
        }
        k = k + 1;
    }
    None
}

/// The error-code keyword groups.
fn code_group_table() -> (r: Vec<(Vec<&'static str>, u16)>)
    ensures
        r@.map_values(|g: (Vec<&'static str>, u16)| (g.0@.map_values(|w: &'static str| w@), g.1)) == code_groups(),
{
    let mut r: Vec<(Vec<&'static str>, u16)> = Vec::new();
    let mut g0: Vec<&'static str> = Vec::new();
    g0.push("sensitive");
    g0.push("policy");
    g0.push("violation");
    g0.push("safety");
    g0.push("copyright");
    g0.push("block");
    g0.push("moderation");
    g0.push("censor");
    g0.push("permission");
    g0.push("forbidden");
    g0.push("access_denied");
    assert(g0@.map_values(|w: &'static str| w@) =~= seq!["sensitive"@, "policy"@, "violation"@, "safety"@, "copyright"@, "block"@, "moderation"@, "censor"@, "permission"@, "forbidden"@, "access_denied"@]);
    r.push((g0, 403));
    let mut g1: Vec<&'static str> = Vec::new();
    g1.push("auth");
    g1.push("unauthorized");
    g1.push("invalid_key");
    g1.push("credential");
    g1.push("unauthenticated");
    g1.push("revoked");
    assert(g1@.map_values(|w: &'static str| w@) =~= seq!["auth"@, "unauthorized"@, "invalid_key"@, "credential"@, "unauthenticated"@, "revoked"@]);
    r.push((g1, 401));
    let mut g2: Vec<&'static str> = Vec::new();
    g2.push("rate");
    g2.push("limit");
    g2.push("quota");
    g2.push("throttl");
    g2.push("exceeded");
    assert(g2@.map_values(|w: &'static str| w@) =~= seq!["rate"@, "limit"@, "quota"@, "throttl"@, "exceeded"@]);
    r.push((g2, 429));
    let mut g3: Vec<&'static str> = Vec::new();
    g3.push("timeout");
    g3.push("gateway");
    g3.push("unavailable");
    g3.push("overload");
    assert(g3@.map_values(|w: &'static str| w@) =~= seq!["timeout"@, "gateway"@, "unavailable"@, "overload"@]);
    r.push((g3, 504));
    let mut g4: Vec<&'static str> = Vec::new();
    g4.push("internal");
    g4.push("server_error");
    g4.push("service_error");
    assert(g4@.map_values(|w: &'static str| w@) =~= seq!["internal"@, "server_error"@, "service_error"@]);
    r.push((g4, 500));
    assert(r@.map_values(|g: (Vec<&'static str>, u16)| (g.0@.map_values(|w: &'static str| w@), g.1)) =~= code_groups());
    r
}

/// The error-text keyword groups.
fn text_group_table() -> (r: Vec<(Vec<&'static str>, u16)>)
    ensures
        r@.map_values(|g: (Vec<&'static str>, u16)| (g.0@.map_values(|w: &'static str| w@), g.1)) == text_groups(),
{
    let mut r: Vec<(Vec<&'static str>, u16)> = Vec::new();
    let mut g0: Vec<&'static str> = Vec::new();
    g0.push("safety");
    g0.push("censor");
    g0.push("policy");
    g0.push("violation");
    g0.push("block");
    g0.push("sensitive");
    g0.push("moderation");
    g0.push("content_filter");
    g0.push("敏感");
    g0.push("违规");
    g0.push("安全");
    g0.push("政策");
    g0.push("审核");
    assert(g0@.map_values(|w: &'static str| w@) =~= seq!["safety"@, "censor"@, "policy"@, "violation"@, "block"@, "sensitive"@, "moderation"@, "content_filter"@, "敏感"@, "违规"@, "安全"@, "政策"@, "审核"@]);
    r.push((g0, 403));
    let mut g1: Vec<&'static str> = Vec::new();
    g1.push("permission");
    g1.push("forbidden");
    g1.push("not authorized");
    g1.push("access denied");
    g1.push("无权限");
    g1.push("没有权限");
    assert(g1@.map_values(|w: &'static str| w@) =~= seq!["permission"@, "forbidden"@, "not authorized"@, "access denied"@, "无权限"@, "没有权限"@]);
    r.push((g1, 403));
    let mut g2: Vec<&'static str> = Vec::new();
    g2.push("auth");
    g2.push("unauthorized");
    g2.push("api_key");
    g2.push("credential");
    g2.push("invalid_key");
    g2.push("bad_key");
    g2.push("revoked");
    g2.push("unauthenticated");
    g2.push("鉴权");
    g2.push("密钥");
    g2.push("授权");
    assert(g2@.map_values(|w: &'static str| w@) =~= seq!["auth"@, "unauthorized"@, "api_key"@, "credential"@, "invalid_key"@, "bad_key"@, "revoked"@, "unauthenticated"@, "鉴权"@, "密钥"@, "授权"@]);
    r.push((g2, 401));
    let mut g3: Vec<&'static str> = Vec::new();
    g3.push("limit");
    g3.push("quota");
    g3.push("exceeded");
    g3.push("rate");
    g3.push("insufficient");
    g3.push("out of budget");
    g3.push("payment");
    g3.push("欠费");
    g3.push("额度");
    g3.push("限流");
    g3.push("并发");
    g3.push("超出");
    g3.push("不足");
    assert(g3@.map_values(|w: &'static str| w@) =~= seq!["limit"@, "quota"@, "exceeded"@, "rate"@, "insufficient"@, "out of budget"@, "payment"@, "欠费"@, "额度"@, "限流"@, "并发"@, "超出"@, "不足"@]);
    r.push((g3, 429));
    let mut g4: Vec<&'static str> = Vec::new();
    g4.push("timeout");
    g4.push("gateway");
    g4.push("connect");
    g4.push("disconnect");
    g4.push("abort");
    g4.push("unreachable");
    g4.push("超时");
    g4.push("网关");
    g4.push("中断");
    assert(g4@.map_values(|w: &'static str| w@) =~= seq!["timeout"@, "gateway"@, "connect"@, "disconnect"@, "abort"@, "unreachable"@, "超时"@, "网关"@, "中断"@]);
    r.push((g4, 504));
    let mut g5: Vec<&'static str> = Vec::new();
    g5.push("internal");
    g5.push("server");
    g5.push("failed");
    g5.push("error");
    g5.push("bug");
    g5.push("crash");
    g5.push("故障");
    g5.push("服务器错误");
    g5.push("执行失败");
    g5.push("异常");
    assert(g5@.map_values(|w: &'static str| w@) =~= seq!["internal"@, "server"@, "failed"@, "error"@, "bug"@, "crash"@, "故障"@, "服务器错误"@, "执行失败"@, "异常"@]);
    r.push((g5, 500));
    assert(r@.map_values(|g: (Vec<&'static str>, u16)| (g.0@.map_values(|w: &'static str| w@), g.1)) =~= text_groups());
    r
}

/// The status an error code implies (see [`classify_code_model`]).
pub fn classify_error_code(code: &str) -> (r: Option<u16>)
    ensures
        r == classify_code_model(code@),
{
    let cv = chars_of(code);
    let from: usize = if cv.len() > 0 && cv[0] == '+' {
        1
    } else {
        0
    };
    let body = slice_range(cv.as_slice(), from, cv.len());
    proof {
        if from == 1 {
            assert(code@.drop_first() =~= cv@.subrange(1, cv@.len() as int));
        } else {
            assert(code@ =~= cv@.subrange(0, cv@.len() as int));
        }
    }
    if body.len() > 0 && crate::media::all_digit_chars(body.as_slice()) {
        proof {
            assert(body@.subrange(0, body@.len() as int) =~= body@);
        }
        return match parse_digits(body.as_slice(), 0, body.len(), 599) {
            Some(n) => if n >= 400 {
                Some(n as u16)
            } else {
                None
            },
            None => None,
        };
    }
    let lower = to_lowercase(code);
    let lv = chars_of(lower.as_str());
    let groups = code_group_table();
    match group_status_exec(lv.as_slice(), &groups) {
        Some(s) => Some(s),
        None => Some(400),
    }
}

/// The status an error text implies (see [`classify_text_model`]).
pub fn classify_error_text(msg: &str) -> (r: u16)
    ensures
        r == classify_text_model(msg@),
{
    let lower = to_lowercase(msg);
    let lv = chars_of(lower.as_str());
    let groups = text_group_table();
    match group_status_exec(lv.as_slice(), &groups) {
        Some(s) => s,
        None => 400,
    }
}


// ───────────────────────── redaction ─────────────────────────

/// Host part of an `http(s)` URL.
pub const URL_HOST_RE: &'static str = r"(https?://)([^/\s)\]},]+)";

/// An `sk-` style API key.
pub const API_KEY_RE: &'static str = r"\bsk-[a-zA-Z0-9]{8,}\b";

/// A long base64 data URI.
pub const DATA_URI_RE: &'static str = r"data:[^;]+;base64,[A-Za-z0-9+/=]{100,}";

/// A long quoted raw base64 string.
pub const RAW_BASE64_RE: &'static str = r#""[A-Za-z0-9+/]{200,}={0,2}""#;

/// What `regex` yields for `Regex::new(pattern).replace_all(text, rep)`.
pub uninterp spec fn regex_replaced(pattern: Seq<char>, text: Seq<char>, rep: Seq<char>) -> Seq<char>;

/// `Regex::new(pattern)` then `replace_all(text, rep)`.  Only the four
/// patterns of this module are admitted (they compile, so the call does not
/// panic); the result is named by [`regex_replaced`] of all three arguments.
#[verifier::external_body]
fn regex_replace_all(pattern: &str, text: &str, rep: &str) -> (r: String)
    requires
        pattern@ == URL_HOST_RE@ || pattern@ == API_KEY_RE@ || pattern@ == DATA_URI_RE@
            || pattern@ == RAW_BASE64_RE@,
    ensures
        r@ == regex_replaced(pattern@, text@, rep@),
{
    regex::Regex::new(pattern).unwrap().replace_all(text, rep).to_string()
}

/// Error text for ordinary users: URL hosts become `***` (scheme and path
/// kept), `sk-` keys become `***`.
pub open spec fn sanitized_model(msg: Seq<char>) -> Seq<char> {
    regex_replaced(API_KEY_RE@, regex_replaced(URL_HOST_RE@, msg, "${1}***"@), "***"@)
}

/// Redacts URL hosts and `sk-` keys in an error message.
pub fn sanitize_error_message(msg: &str) -> (r: String)
    ensures
        r@ == sanitized_model(msg@),
{
    let a = regex_replace_all(URL_HOST_RE, msg, "${1}***");
    regex_replace_all(API_KEY_RE, a.as_str(), "***")
}

/// Log text with long base64 payloads replaced by a placeholder.
pub open spec fn base64_scrubbed(text: Seq<char>) -> Seq<char> {
    regex_replaced(RAW_BASE64_RE@, regex_replaced(DATA_URI_RE@, text, "base64数据"@), "\"base64数据\""@)
}

/// Replaces long base64 data URIs and long quoted base64 strings.
pub fn sanitize_base64(text: &str) -> (r: String)
    ensures
        r@ == base64_scrubbed(text@),
{
    let a = regex_replace_all(DATA_URI_RE, text, "base64数据");
    regex_replace_all(RAW_BASE64_RE, a.as_str(), "\"base64数据\"")
}

/// The client-facing error of a failed upstream call: the status kept when
/// 4xx/5xx (else 502) and the message redacted.  The message is taken as
/// already normalised to the OpenAI error form.
pub fn upstream_fail(status: u16, msg: &str) -> (r: AppError)
    ensures
        r matches AppError::UpstreamHttpError(s, m) && s == norm_status_model(status) && m@
            == sanitized_model(msg@),
{
    AppError::UpstreamHttpError(norm_status(status), sanitize_error_message(msg))
}

/// The business status of an upstream error from its structured code and
/// message: a code that classifies decides; otherwise the message's
/// keywords decide (an absent message reads as empty).
pub open spec fn infer_status_model(code: Option<Seq<char>>, message: Option<Seq<char>>) -> u16 {
    let msg = match message {
        Some(m) => m,
        None => Seq::empty(),
    };
    match code {
        Some(c) => match classify_code_model(c) {
            Some(s) => s,
            None => classify_text_model(msg),
        },
        None => classify_text_model(msg),
    }
}

/// Infers the status of an upstream error from the `error.code` and
/// message that the response formatter extracted from its body.
pub fn infer_error_status_code(code: Option<&str>, message: Option<&str>) -> (r: u16)
    ensures
        r == infer_status_model(opt_str_view(code), opt_str_view(message)),
{
    if let Some(c) = code {
        if let Some(status) = classify_error_code(c) {
            return status;
        }
    }
    match message {
        Some(m) => classify_error_text(m),
        None => {
            proof {
                reveal_strlit("");
            }
            assert(""@ =~= Seq::<char>::empty());
            classify_error_text("")
        },
    }
}

/// The part of an error body from its first `{` on (all of it when it holds
/// none): where a JSON error object is looked for.
pub open spec fn error_json_part(body: Seq<char>) -> Seq<char> {
    if contains(body, "{"@) {
        body.subrange(first_index(body, "{"@), body.len() as int)
    } else {
        body
    }
}

/// The part of `body` that may hold a JSON error object (see
/// [`error_json_part`]).
pub fn error_json_slice(body: &str) -> (r: String)
    ensures
        r@ == error_json_part(body@),
{
    let v = chars_of(body);
    let brace = chars_of("{");
    match chars_find(v.as_slice(), brace.as_slice()) {
        Some(i) => {
            proof {
                reveal_strlit("{");
            }
            let t = crate::text::slice_range(v.as_slice(), i, v.len());
            crate::text::string_from_chars(t.as_slice())
        },
        None => to_owned_string(body),
    }
}

/// The core text of an error response.  `from_value` is what the response
/// formatter extracts from the JSON object of the body (see
/// [`error_json_part`]); it is used when that part parses as JSON, else
/// the whole body is the message.
pub fn extract_error_message(resp_body: &str, from_value: Option<String>) -> (r: String)
    ensures
        r@ == (match from_value {
            Some(m) => if json_pointer_present(error_json_part(resp_body@), ""@) {
                m@
            } else {
                resp_body@
            },
            None => resp_body@,
        }),
{
    let raw = error_json_slice(resp_body);
    if json_has_pointer(raw.as_str(), "") {
        if let Some(m) = from_value {
            return m;
        }
    }
    to_owned_string(resp_body)
}

/// The status of an error known only as text: when its JSON part parses,
/// from the `error.code` and message the response formatter extracts from
/// it (`code`, `message`); otherwise from the keywords of the whole text.
pub fn infer_error_status_code_from_str(err: &str, code: Option<&str>, message: Option<&str>) -> (r: u16)
    ensures
        r == if json_pointer_present(error_json_part(err@), ""@) {
            infer_status_model(opt_str_view(code), opt_str_view(message))
        } else {
            classify_text_model(err@)
        },
{
    let raw = error_json_slice(err);
    if json_has_pointer(raw.as_str(), "") {
        return infer_error_status_code(code, message);
    }
    classify_error_text(err)
}

/// The link of one `videos[]` item: the item itself when it is a non-empty
/// string, else its `url`, else its `video_url`.
pub open spec fn video_item_url(item: Seq<char>) -> Option<Seq<char>> {
    if nonempty_text(item, ""@) {
        json_pointer_text(item, ""@)
    } else if nonempty_text(item, "/url"@) {
        json_pointer_text(item, "/url"@)
    } else if nonempty_text(item, "/video_url"@) {
        json_pointer_text(item, "/video_url"@)
    } else {
        None
    }
}

/// The link of one `content[]` item (Volcano Ark) whose `type` mentions
/// `video`: its `video_url` string, or the `url` of that object.
pub open spec fn content_item_url(item: Seq<char>) -> Option<Seq<char>> {
    match json_pointer_text(item, "/type"@) {
        Some(t) => if contains(t, "video"@) && json_pointer_present(item, "/video_url"@) {
            if nonempty_text(item, "/video_url"@) {
                json_pointer_text(item, "/video_url"@)
            } else if nonempty_text(item, "/video_url/url"@) {
                json_pointer_text(item, "/video_url/url"@)
            } else {
                None
            }
        } else {
            None
        },
        None => None,
    }
}

/// `u` is the link picked from one of `items`.
pub open spec fn picked_from(
    items: Option<Seq<Seq<char>>>,
    pick: spec_fn(Seq<char>) -> Option<Seq<char>>,
    u: Seq<char>,
) -> bool {
    match items {
        Some(s) => exists|i: int| 0 <= i < s.len() && pick(s[i]) == Some(u),
        None => false,
    }
}

/// `u` is one of the input video links of a request body.
pub open spec fn request_video_url(body: Seq<char>, u: Seq<char>) -> bool {
    picked_from(json_array_items_at(body, "/videos"@), |x: Seq<char>| video_item_url(x), u)
        || picked_from(json_array_items_at(body, "/content"@), |x: Seq<char>| content_item_url(x), u)
}

fn video_item_url_of(item: &str) -> (r: Option<String>)
    ensures
        r.deep_view() == video_item_url(item@),
{
    if nonempty_at(item, "") {
        json_pointer_str(item, "")
    } else if nonempty_at(item, "/url") {
        json_pointer_str(item, "/url")
    } else if nonempty_at(item, "/video_url") {
        json_pointer_str(item, "/video_url")
    } else {
        None
    }
}

fn content_item_url_of(item: &str) -> (r: Option<String>)
    ensures
        r.deep_view() == content_item_url(item@),
{
    match json_pointer_str(item, "/type") {
        Some(t) => {
            if crate::text::str_contains(t.as_str(), "video") && json_has_pointer(item, "/video_url") {
                if nonempty_at(item, "/video_url") {
                    json_pointer_str(item, "/video_url")
                } else if nonempty_at(item, "/video_url/url") {
                    json_pointer_str(item, "/video_url/url")
                } else {
                    None
                }
            } else {
                None
            }
        },
        None => None,
    }
}

/// The input video links of a request body, from `videos[]` and from video
/// items of `content[]`, sorted and without repeats.
pub fn extract_request_video_urls(body: &str) -> (r: Vec<String>)
    ensures
        strictly_sorted(string_views(r@)),
        forall|u: Seq<char>| string_views(r@).contains(u) <==> request_video_url(body@, u),
{
    let mut urls: Vec<String> = Vec::new();
    let ghost vp = |x: Seq<char>| video_item_url(x);
    let ghost cp = |x: Seq<char>| content_item_url(x);
    let videos = json_array_items(body, "/videos");
    let ghost vs = json_array_items_at(body@, "/videos"@);
    match &videos {
        Some(items) => {
            let mut i: usize = 0;
            while i < items.len()
                invariant
                    i <= items.len(),
                    vs == Some(items.deep_view()),
                    strictly_sorted(string_views(urls@)),
                    forall|u: Seq<char>|
                        string_views(urls@).contains(u) <==> exists|k: int|
                            0 <= k < i && video_item_url(items.deep_view()[k]) == Some(u),
                decreases items.len() - i,
            {
                let picked = video_item_url_of(items[i].as_str());
                let ghost before = string_views(urls@);
                match picked {
                    Some(u) => {
                        let ghost uv = u@;
                        insert_sorted_unique(&mut urls, u);
                        assert forall|w: Seq<char>|
                            string_views(urls@).contains(w) <==> exists|k: int|
                                0 <= k < i + 1 && video_item_url(items.deep_view()[k]) == Some(w) by {
                            if w == uv {
                                assert(video_item_url(items.deep_view()[i as int]) == Some(w));
                            }
                            if exists|k: int| 0 <= k < i + 1 && video_item_url(items.deep_view()[k]) == Some(w) {
                                let k = choose|k: int| 0 <= k < i + 1 && video_item_url(items.deep_view()[k]) == Some(w);
                                if k < i {
                                    assert(before.contains(w));
                                }
                            }
                        }
                    },
                    None => {
                        assert forall|w: Seq<char>|
                            string_views(urls@).contains(w) <==> exists|k: int|
                                0 <= k < i + 1 && video_item_url(items.deep_view()[k]) == Some(w) by {
                            if exists|k: int| 0 <= k < i + 1 && video_item_url(items.deep_view()[k]) == Some(w) {
                                let k = choose|k: int| 0 <= k < i + 1 && video_item_url(items.deep_view()[k]) == Some(w);
                                if k < i {
                                    assert(before.contains(w));
                                }
                            }
                        }
                    },
                }
                i = i + 1;
            }
            assert forall|u: Seq<char>| string_views(urls@).contains(u) <==> picked_from(vs, vp, u) by {
                if string_views(urls@).contains(u) {
                    let k = choose|k: int| 0 <= k < items.len() && video_item_url(items.deep_view()[k]) == Some(u);
                    assert(vp(items.deep_view()[k]) == Some(u));
                }
                if picked_from(vs, vp, u) {
                    let k = choose|k: int| 0 <= k < items.deep_view().len() && vp(items.deep_view()[k]) == Some(u);
                    assert(video_item_url(items.deep_view()[k]) == Some(u));
                }
            }
        },
        None => {},
    }
    assert(forall|u: Seq<char>| #[trigger] string_views(urls@).contains(u) <==> picked_from(vs, vp, u));
    let content = json_array_items(body, "/content");
    let ghost cs = json_array_items_at(body@, "/content"@);
    match &content {
        Some(items) => {
            let mut i: usize = 0;
            while i < items.len()
                invariant
                    i <= items.len(),
                    cs == Some(items.deep_view()),
                    strictly_sorted(string_views(urls@)),
                    forall|u: Seq<char>|
                        #[trigger] string_views(urls@).contains(u) <==> (picked_from(vs, vp, u) || exists|k: int|
                            0 <= k < i && content_item_url(items.deep_view()[k]) == Some(u)),
                decreases items.len() - i,
            {
                let picked = content_item_url_of(items[i].as_str());
                let ghost before = string_views(urls@);
                match picked {
                    Some(u) => {
                        let ghost uv = u@;
                        insert_sorted_unique(&mut urls, u);
                        assert forall|w: Seq<char>|
                            #[trigger] string_views(urls@).contains(w) <==> (picked_from(vs, vp, w) || exists|k: int|
                                0 <= k < i + 1 && content_item_url(items.deep_view()[k]) == Some(w)) by {
                            if w == uv {
                                assert(content_item_url(items.deep_view()[i as int]) == Some(w));
                            }
                            if exists|k: int| 0 <= k < i + 1 && content_item_url(items.deep_view()[k]) == Some(w) {
                                let k = choose|k: int| 0 <= k < i + 1 && content_item_url(items.deep_view()[k]) == Some(w);
                                if k < i {
                                    assert(exists|k2: int|
                                        0 <= k2 < i && content_item_url(items.deep_view()[k2]) == Some(w));
                                    assert(before.contains(w));
                                }
                            }
                        }
                    },
                    None => {
                        assert forall|w: Seq<char>|
                            #[trigger] string_views(urls@).contains(w) <==> (picked_from(vs, vp, w) || exists|k: int|
                                0 <= k < i + 1 && content_item_url(items.deep_view()[k]) == Some(w)) by {
                            if exists|k: int| 0 <= k < i + 1 && content_item_url(items.deep_view()[k]) == Some(w) {
                                let k = choose|k: int| 0 <= k < i + 1 && content_item_url(items.deep_view()[k]) == Some(w);
                                if k < i {
                                    assert(exists|k2: int|
                                        0 <= k2 < i && content_item_url(items.deep_view()[k2]) == Some(w));
                                    assert(before.contains(w));
                                }
                            }
                        }
                    },
                }
                i = i + 1;
            }
            assert forall|u: Seq<char>|
                #[trigger] string_views(urls@).contains(u) <==> (picked_from(vs, vp, u) || picked_from(cs, cp, u)) by {
                if picked_from(cs, cp, u) {
                    let k = choose|k: int| 0 <= k < items.deep_view().len() && cp(items.deep_view()[k]) == Some(u);
                    assert(content_item_url(items.deep_view()[k]) == Some(u));
                }
                if exists|k: int| 0 <= k < items.len() && content_item_url(items.deep_view()[k]) == Some(u) {
                    let k = choose|k: int| 0 <= k < items.len() && content_item_url(items.deep_view()[k]) == Some(u);
                    assert(cp(items.deep_view()[k]) == Some(u));
                }
            }
        },
        None => {},
    }
    urls
}

/// The characters of an optional string.
pub open spec fn opt_str_view(o: Option<&str>) -> Option<Seq<char>> {
    match o {
        Some(s) => Some(s@),
        None => None,
    }
}

/// Everything recorded in the "processing" log row written before an
/// upstream request: application state `S`, channel `C` and model record
/// `M` are carried through as they are.
pub struct PendingLog<'a, S, C, M> {
    pub state: &'a S,
    pub user_id: &'a str,
    pub token_id: i64,
    pub model: &'a str,
    pub endpoint: &'a str,
    pub is_stream: i32,
    pub request_content: Option<&'a str>,
    pub upstream_url: Option<&'a str>,
    pub channel: &'a C,
    pub billing_model_hint: Option<&'a str>,
    pub plugin_tag: Option<&'a str>,
    pub category: Option<&'a str>,
    pub db_model: Option<&'a M>,
    pub forward_eid: Option<&'a str>,
    pub requested_log_id: Option<&'a str>,
}

// ───────────────────────── EBML variable-length integers ─────────────────────────

/// Length of an EBML VINT from its first byte (0 = invalid).
pub open spec fn vint_len(b: u8) -> nat {
    if b >= 128 {
        1
    } else if b >= 64 {
        2
    } else if b >= 32 {
        3
    } else if b >= 16 {
        4
    } else if b >= 8 {
        5
    } else if b >= 4 {
        6
    } else if b >= 2 {
        7
    } else if b >= 1 {
        8
    } else {
        0
    }
}

/// `2^(8 − len)`, the size of the payload bits of the first byte.
pub open spec fn first_byte_span(len: nat) -> nat {
    if len == 1 {
        128
    } else if len == 2 {
        64
    } else if len == 3 {
        32
    } else if len == 4 {
        16
    } else if len == 5 {
        8
    } else if len == 6 {
        4
    } else if len == 7 {
        2
    } else {
        1
    }
}

/// Big-endian value of `bytes` appended to `acc`.
pub open spec fn be_value(acc: nat, bytes: Seq<u8>) -> nat
    decreases bytes.len(),
{
    if bytes.len() == 0 {
        acc
    } else {
        be_value(acc, bytes.drop_last()) * 256 + bytes.last() as nat
    }
}

/// The VINT at the start of `data`: `(value, length)`.
pub open spec fn vint_model(data: Seq<u8>) -> Option<(nat, nat)> {
    if data.len() == 0 {
        None
    } else {
        let len = vint_len(data[0]);
        if len == 0 || data.len() < len {
            None
        } else {
            Some(
                (
                    be_value(data[0] as nat % first_byte_span(len), data.subrange(1, len as int)),
                    len,
                ),
            )
        }
    }
}

/// `256^n`.
pub open spec fn byte_pow(n: nat) -> nat
    decreases n,
{
    if n == 0 {
        1
    } else {
        256 * byte_pow((n - 1) as nat)
    }
}

proof fn lemma_byte_pow_mono(i: nat, j: nat)
    requires
        i <= j,
    ensures
        1 <= byte_pow(i) <= byte_pow(j),
    decreases j,
{
    if j > 0 {
        if i < j {
            lemma_byte_pow_mono(i, (j - 1) as nat);
        } else {
            lemma_byte_pow_mono(0, (j - 1) as nat);
        }
    }
}

proof fn lemma_be_value_bound(acc: nat, bytes: Seq<u8>, bound: nat)
    requires
        acc < bound,
    ensures
        be_value(acc, bytes) < bound * byte_pow(bytes.len()),
    decreases bytes.len(),
{
    if bytes.len() > 0 {
        lemma_be_value_bound(acc, bytes.drop_last(), bound);
        let p = byte_pow((bytes.len() - 1) as nat);
        let v = be_value(acc, bytes.drop_last());
        let bp = byte_pow(bytes.len());
        assert(bp == 256 * p);
        assert(v * 256 + bytes.last() < bound * bp) by (nonlinear_arith)
            requires
                v < bound * p,
                bytes.last() < 256,
                bp == 256 * p,
        ;
        assert(be_value(acc, bytes) == v * 256 + bytes.last());
    } else {
        assert(byte_pow(0) == 1);
        assert(bound * 1 == bound);
    }
}

/// Reads an EBML VINT (value, byte length).  A first byte of `0x01` (an
/// eight-byte VINT) is left out: its mask shifts a byte by eight.
pub fn parse_ebml_vint(data: &[u8]) -> (r: Option<(u64, usize)>)
    requires
        data@.len() > 0 ==> data@[0] != 1,
    ensures
        match vint_model(data@) {
            Some((v, n)) => r matches Some((rv, rn)) && rv == v && rn == n,
            None => r is None,
        },
{
    if data.len() == 0 {
        return None;
    }
    let first = data[0];
    let len: usize = if first >= 128 {
        1
    } else if first >= 64 {
        2
    } else if first >= 32 {
        3
    } else if first >= 16 {
        4
    } else if first >= 8 {
        5
    } else if first >= 4 {
        6
    } else if first >= 2 {
        7
    } else if first >= 1 {
        8
    } else {
        0
    };
    if len == 0 {
        return None;
    }
    if data.len() < len {
        return None;
    }
    let span: u8 = if len == 1 {
        128
    } else if len == 2 {
        64
    } else if len == 3 {
        32
    } else if len == 4 {
        16
    } else if len == 5 {
        8
    } else if len == 6 {
        4
    } else {
        2
    };
    let mut val: u64 = (first % span) as u64;
    let mut i: usize = 1;
    proof {
        assert(data@.subrange(1, 1) =~= Seq::<u8>::empty());
    }
    while i < len
        invariant
            1 <= i <= len <= 7,
            len <= data@.len(),
            span as nat == first_byte_span(len as nat),
            val == be_value(first as nat % span as nat, data@.subrange(1, i as int)),
            val < span as nat * byte_pow((i - 1) as nat),
        decreases len - i,
    {
        proof {
            lemma_be_value_bound(first as nat % span as nat, data@.subrange(1, i + 1), span as nat);
            assert(data@.subrange(1, i + 1).drop_last() =~= data@.subrange(1, i as int));
            lemma_byte_pow_mono(i as nat, 6);
            let bp = byte_pow(i as nat);
            assert(span as nat * bp <= 128 * byte_pow(6)) by (nonlinear_arith)
                requires
                    span <= 128,
                    bp <= byte_pow(6),
            ;
            reveal_with_fuel(byte_pow, 7);
            assert(byte_pow(6) == 281474976710656);
        }
        val = val * 256 + data[i] as u64;
        i = i + 1;
    }
    Some((val, len))
}


// ───────────────────────── the log record of a relayed request ─────────────────────────

/// What a log stores of a request or upstream request: nothing when the
/// model's logging is off (`enable_log == 0`), else the text with base64
/// payloads scrubbed.
pub open spec fn logged_request_model(content: Option<Seq<char>>, enable_log: i32) -> Option<Seq<char>> {
    match content {
        None => None,
        Some(t) => if enable_log == 0 {
            None
        } else {
            Some(base64_scrubbed(t))
        },
    }
}

/// What a log stores of the response: with logging on, the scrubbed text;
/// with it off, image and video responses are still kept (scrubbed), other
/// responses keep only their usage block, and chat or text responses
/// without one are stored as `[]`.
pub open spec fn logged_response_model(content: Option<Seq<char>>, enable_log: i32, category: Seq<char>) -> Option<
    Seq<char>,
> {
    match content {
        None => None,
        Some(t) => if enable_log != 0 || category == "视频"@ || category == "图片"@ {
            Some(base64_scrubbed(t))
        } else {
            match crate::response_scan::usage_excerpt_model(t) {
                Some(u) => Some(u),
                None => if category == "聊天"@ || category == "文本"@ {
                    Some("[]"@)
                } else {
                    Some(base64_scrubbed(t))
                },
            }
        },
    }
}

/// The system and upstream parts of an endpoint written `system|upstream`;
/// both are the endpoint when it has no `|`.
pub open spec fn endpoint_parts_model(endpoint: Seq<char>) -> (Seq<char>, Seq<char>) {
    match crate::text::split_once_model(endpoint, '|') {
        Some(p) => p,
        None => (endpoint, endpoint),
    }
}

/// What the log of a relayed request records.
pub struct BillPlan {
    /// The request as logged.
    pub request_content: Option<String>,
    /// The upstream request as logged.
    pub upstream_req_content: Option<String>,
    /// The response as logged.
    pub response_content: Option<String>,
    /// The endpoint the system was called on.
    pub system_endpoint: String,
    /// The endpoint called upstream (before it is joined and masked).
    pub upstream_endpoint: String,
    /// An asynchronous task whose pre-deduction stays frozen until it ends.
    pub is_freeze: bool,
    /// The submit response kept for polling (frozen tasks).
    pub post_response: Option<String>,
    /// The log's action type: the model's category, else the caller's hint.
    pub action_type: String,
    /// 0 while a frozen task runs, 1 for a finished request.
    pub is_completed: i16,
    /// The prefix of a new log id: `tsk_` for tasks other than chat, `log_`
    /// otherwise.
    pub log_id_prefix: String,
}

/// The views of an optional text.
pub open spec fn opt_text(o: Option<&str>) -> Option<Seq<char>> {
    match o {
        Some(t) => Some(t@),
        None => None,
    }
}

/// What the log of a relayed request records (see
/// [`logged_request_model`], [`logged_response_model`],
/// [`endpoint_parts_model`]): `category` is the model's category (empty
/// when unknown), `has_task_id` whether the logged response names an
/// asynchronous task; a task whose billing detail mentions 冻结 is frozen.
pub fn bill_record_plan(
    enable_log: i32,
    category: &str,
    hint_category: Option<&str>,
    request_content: Option<&str>,
    upstream_req_content: Option<&str>,
    response_content: Option<&str>,
    endpoint: &str,
    billing_detail: Option<&str>,
    has_task_id: bool,
) -> (r: BillPlan)
    ensures
        r.request_content.deep_view() == logged_request_model(opt_text(request_content), enable_log),
        r.upstream_req_content.deep_view() == logged_request_model(opt_text(upstream_req_content), enable_log),
        r.response_content.deep_view() == logged_response_model(opt_text(response_content), enable_log, category@),
        (r.system_endpoint@, r.upstream_endpoint@) == endpoint_parts_model(endpoint@),
        r.is_freeze == (has_task_id && match billing_detail {
            Some(d) => contains(d@, "冻结"@),
            None => false,
        }),
        r.post_response.deep_view() == (if r.is_freeze {
            logged_response_model(opt_text(response_content), enable_log, category@)
        } else {
            None
        }),
        r.action_type@ == (if category@.len() > 0 {
            category@
        } else {
            match hint_category {
                Some(h) => h@,
                None => ""@,
            }
        }),
        r.is_completed == (if r.is_freeze {
            0i16
        } else {
            1i16
        }),
        r.log_id_prefix@ == (if r.action_type@.len() > 0 && r.action_type@ != "聊天"@ {
            "tsk_"@
        } else {
            "log_"@
        }),
{
    let req = match request_content {
        Some(t) => if enable_log == 0 {
            None
        } else {
            Some(sanitize_base64(t))
        },
        None => None,
    };
    let up = match upstream_req_content {
        Some(t) => if enable_log == 0 {
            None
        } else {
            Some(sanitize_base64(t))
        },
        None => None,
    };
    let resp = match response_content {
        None => None,
        Some(t) => if enable_log != 0 || str_eq(category, "视频") || str_eq(category, "图片") {
            Some(sanitize_base64(t))
        } else {
            match crate::response_scan::extract_usage_json_string(t) {
                Some(u) => Some(u),
                None => if str_eq(category, "聊天") || str_eq(category, "文本") {
                    Some(to_owned_string("[]"))
                } else {
                    Some(sanitize_base64(t))
                },
            }
        },
    };
    let ev = chars_of(endpoint);
    let (sys, upe) = match crate::text::split_once_at(ev.as_slice(), '|') {
        Some((a, b)) => (crate::text::string_from_chars(a.as_slice()), crate::text::string_from_chars(b.as_slice())),
        None => (to_owned_string(endpoint), to_owned_string(endpoint)),
    };
    let freeze = has_task_id && match billing_detail {
        Some(d) => crate::text::str_contains(d, "冻结"),
        None => false,
    };
    let post = if freeze {
        match &resp {
            Some(x) => Some(to_owned_string(x.as_str())),
            None => None,
        }
    } else {
        None
    };
    let action = if !category.is_empty() {
        to_owned_string(category)
    } else {
        match hint_category {
            Some(h) => to_owned_string(h),
            None => to_owned_string(""),
        }
    };
    let prefix = if !action.as_str().is_empty() && !str_eq(action.as_str(), "聊天") {
        to_owned_string("tsk_")
    } else {
        to_owned_string("log_")
    };
    BillPlan {
        request_content: req,
        upstream_req_content: up,
        response_content: resp,
        system_endpoint: sys,
        upstream_endpoint: upe,
        is_freeze: freeze,
        post_response: post,
        action_type: action,
        is_completed: if freeze {
            0
        } else {
            1
        },
        log_id_prefix: prefix,
    }
}


// ───────────────────────── categories read back from their endpoints ─────────────────────────

/// A pattern with a character that `s` lacks does not occur in `s`.
proof fn lemma_char_absent(s: Seq<char>, p: Seq<char>, m: int)
    requires
        0 <= m < p.len(),
        forall|i: int| 0 <= i < s.len() ==> s[i] != p[m],
    ensures
        !contains(s, p),
{
    if contains(s, p) {
        let i = choose|i: int| crate::text::occurs_at(s, p, i);
        assert(s.subrange(i, i + p.len())[m] == s[i + m]);
    }
}

/// A pattern with two adjacent characters that never stand together in
/// `s` does not occur in `s`.
proof fn lemma_pair_absent(s: Seq<char>, p: Seq<char>, m: int)
    requires
        0 <= m,
        m + 1 < p.len(),
        forall|i: int| 0 <= i && i + 1 < s.len() ==> !(#[trigger] s[i] == p[m] && s[i + 1] == p[m + 1]),
    ensures
        !contains(s, p),
{
    if contains(s, p) {
        let i = choose|i: int| crate::text::occurs_at(s, p, i);
        assert(s.subrange(i, i + p.len())[m] == s[i + m]);
        assert(s.subrange(i, i + p.len())[m + 1] == s[i + m + 1]);
    }
}

/// Text without upper-case ASCII letters is its own lower case.
proof fn lemma_lower_ascii_lowercase(s: Seq<char>)
    requires
        forall|i: int| 0 <= i < s.len() ==> !(65 <= (#[trigger] s[i]) as u32 && (s[i] as u32) <= 90),
    ensures
        ascii_lower(s) == s,
{
    assert(ascii_lower(s) =~= s);
}

proof fn lemma_image_endpoint()
    ensures
        rule_from(ascii_lower(endpoint_head("/v1/images/generations"@)), 0) == Some(path_rules()[8].1),
{
    reveal_strlit("/v1/images/generations");
    reveal_strlit("enhance-video");
    reveal_strlit("erase-video");
    reveal_strlit("contents/generations");
    reveal_strlit("video-generation");
    reveal_strlit("video-synthesis");
    reveal_strlit("/videos/");
    reveal_strlit("/video/");
    reveal_strlit("multimodal-generation");
    reveal_strlit("/images/");
    let s = "/v1/images/generations"@;
    assert(s.len() == 22);
    lemma_lower_ascii_lowercase(s);
    reveal_strlit("|");
    lemma_char_absent(s, "|"@, 0);
    assert(endpoint_head(s) == s);
    lemma_char_absent(s, "enhance-video"@, 2);
    lemma_char_absent(s, "erase-video"@, 5);
    lemma_char_absent(s, "contents/generations"@, 0);
    lemma_char_absent(s, "video-generation"@, 2);
    lemma_char_absent(s, "video-synthesis"@, 2);
    lemma_char_absent(s, "/videos/"@, 3);
    lemma_char_absent(s, "/video/"@, 3);
    lemma_char_absent(s, "multimodal-generation"@, 1);
    assert(crate::text::occurs_at(s, "/images/"@, 3)) by {
        assert(s.subrange(3, 11) =~= "/images/"@);
    }
    reveal_with_fuel(rule_from, 10);
}

proof fn lemma_video_endpoint()
    ensures
        rule_from(ascii_lower(endpoint_head("/v1/video/generations"@)), 0) == Some(path_rules()[6].1),
{
    reveal_strlit("/v1/video/generations");
    reveal_strlit("enhance-video");
    reveal_strlit("erase-video");
    reveal_strlit("contents/generations");
    reveal_strlit("video-generation");
    reveal_strlit("video-synthesis");
    reveal_strlit("/videos/");
    reveal_strlit("/video/");
    let s = "/v1/video/generations"@;
    assert(s.len() == 21);
    lemma_lower_ascii_lowercase(s);
    reveal_strlit("|");
    lemma_char_absent(s, "|"@, 0);
    assert(endpoint_head(s) == s);
    lemma_char_absent(s, "enhance-video"@, 2);
    lemma_char_absent(s, "erase-video"@, 5);
    lemma_char_absent(s, "contents/generations"@, 0);
    lemma_char_absent(s, "video-generation"@, 5);
    lemma_char_absent(s, "video-synthesis"@, 5);
    lemma_pair_absent(s, "/videos/"@, 5);
    assert(crate::text::occurs_at(s, "/video/"@, 3)) by {
        assert(s.subrange(3, 10) =~= "/video/"@);
    }
    reveal_with_fuel(rule_from, 8);
}

proof fn lemma_audio_endpoint()
    ensures
        rule_from(ascii_lower(endpoint_head("/v1/audio/speech"@)), 0) == Some(path_rules()[10].1),
{
    reveal_strlit("/v1/audio/speech");
    reveal_strlit("enhance-video");
    reveal_strlit("erase-video");
    reveal_strlit("contents/generations");
    reveal_strlit("video-generation");
    reveal_strlit("video-synthesis");
    reveal_strlit("/videos/");
    reveal_strlit("/video/");
    reveal_strlit("multimodal-generation");
    reveal_strlit("/images/");
    reveal_strlit("/image/");
    reveal_strlit("/audio/");
    let s = "/v1/audio/speech"@;
    assert(s.len() == 16);
    lemma_lower_ascii_lowercase(s);
    reveal_strlit("|");
    lemma_char_absent(s, "|"@, 0);
    assert(endpoint_head(s) == s);
    lemma_char_absent(s, "enhance-video"@, 1);
    lemma_char_absent(s, "erase-video"@, 1);
    lemma_char_absent(s, "contents/generations"@, 2);
    lemma_char_absent(s, "video-generation"@, 5);
    lemma_char_absent(s, "video-synthesis"@, 5);
    lemma_pair_absent(s, "/videos/"@, 1);
    lemma_pair_absent(s, "/video/"@, 1);
    lemma_char_absent(s, "multimodal-generation"@, 0);
    lemma_char_absent(s, "/images/"@, 2);
    lemma_char_absent(s, "/image/"@, 2);
    assert(crate::text::occurs_at(s, "/audio/"@, 3)) by {
        assert(s.subrange(3, 10) =~= "/audio/"@);
    }
    reveal_with_fuel(rule_from, 12);
}

proof fn lemma_embeddings_endpoint()
    ensures
        rule_from(ascii_lower(endpoint_head("/v1/embeddings"@)), 0) == Some(path_rules()[13].1),
{
    reveal_strlit("/v1/embeddings");
    reveal_strlit("enhance-video");
    reveal_strlit("erase-video");
    reveal_strlit("contents/generations");
    reveal_strlit("video-generation");
    reveal_strlit("video-synthesis");
    reveal_strlit("/videos/");
    reveal_strlit("/video/");
    reveal_strlit("multimodal-generation");
    reveal_strlit("/images/");
    reveal_strlit("/image/");
    reveal_strlit("/audio/");
    reveal_strlit("/tts");
    reveal_strlit("/speech");
    reveal_strlit("embedding");
    let s = "/v1/embeddings"@;
    assert(s.len() == 14);
    lemma_lower_ascii_lowercase(s);
    reveal_strlit("|");
    lemma_char_absent(s, "|"@, 0);
    assert(endpoint_head(s) == s);
    lemma_char_absent(s, "enhance-video"@, 2);
    lemma_char_absent(s, "erase-video"@, 1);
    lemma_char_absent(s, "contents/generations"@, 0);
    lemma_char_absent(s, "video-generation"@, 4);
    lemma_char_absent(s, "video-synthesis"@, 4);
    lemma_char_absent(s, "/videos/"@, 5);
    lemma_char_absent(s, "/video/"@, 5);
    lemma_char_absent(s, "multimodal-generation"@, 1);
    lemma_char_absent(s, "/images/"@, 3);
    lemma_char_absent(s, "/image/"@, 3);
    lemma_char_absent(s, "/audio/"@, 1);
    lemma_char_absent(s, "/tts"@, 1);
    lemma_char_absent(s, "/speech"@, 2);
    assert(crate::text::occurs_at(s, "embedding"@, 4)) by {
        assert(s.subrange(4, 13) =~= "embedding"@);
    }
    reveal_with_fuel(rule_from, 15);
}

proof fn lemma_rerank_endpoint()
    ensures
        rule_from(ascii_lower(endpoint_head("/v1/rerank"@)), 0) == Some(path_rules()[14].1),
{
    reveal_strlit("/v1/rerank");
    reveal_strlit("enhance-video");
    reveal_strlit("erase-video");
    reveal_strlit("contents/generations");
    reveal_strlit("video-generation");
    reveal_strlit("video-synthesis");
    reveal_strlit("/videos/");
    reveal_strlit("/video/");
    reveal_strlit("multimodal-generation");
    reveal_strlit("/images/");
    reveal_strlit("/image/");
    reveal_strlit("/audio/");
    reveal_strlit("/tts");
    reveal_strlit("/speech");
    reveal_strlit("embedding");
    reveal_strlit("rerank");
    let s = "/v1/rerank"@;
    assert(s.len() == 10);
    lemma_lower_ascii_lowercase(s);
    reveal_strlit("|");
    lemma_char_absent(s, "|"@, 0);
    assert(endpoint_head(s) == s);
    lemma_char_absent(s, "enhance-video"@, 2);
    lemma_char_absent(s, "erase-video"@, 3);
    lemma_char_absent(s, "contents/generations"@, 0);
    lemma_char_absent(s, "video-generation"@, 1);
    lemma_char_absent(s, "video-synthesis"@, 1);
    lemma_char_absent(s, "/videos/"@, 2);
    lemma_char_absent(s, "/video/"@, 2);
    lemma_char_absent(s, "multimodal-generation"@, 0);
    lemma_char_absent(s, "/images/"@, 1);
    lemma_char_absent(s, "/image/"@, 1);
    lemma_char_absent(s, "/audio/"@, 2);
    lemma_char_absent(s, "/tts"@, 1);
    lemma_char_absent(s, "/speech"@, 1);
    lemma_char_absent(s, "embedding"@, 1);
    assert(crate::text::occurs_at(s, "rerank"@, 4)) by {
        assert(s.subrange(4, 10) =~= "rerank"@);
    }
    reveal_with_fuel(rule_from, 16);
}

proof fn lemma_chat_endpoint()
    ensures
        rule_from(ascii_lower(endpoint_head("/v1/chat/completions"@)), 0) == Some(path_rules()[15].1),
{
    reveal_strlit("/v1/chat/completions");
    reveal_strlit("enhance-video");
    reveal_strlit("erase-video");
    reveal_strlit("contents/generations");
    reveal_strlit("video-generation");
    reveal_strlit("video-synthesis");
    reveal_strlit("/videos/");
    reveal_strlit("/video/");
    reveal_strlit("multimodal-generation");
    reveal_strlit("/images/");
    reveal_strlit("/image/");
    reveal_strlit("/audio/");
    reveal_strlit("/tts");
    reveal_strlit("/speech");
    reveal_strlit("embedding");
    reveal_strlit("rerank");
    reveal_strlit("/chat/");
    let s = "/v1/chat/completions"@;
    assert(s.len() == 20);
    lemma_lower_ascii_lowercase(s);
    reveal_strlit("|");
    lemma_char_absent(s, "|"@, 0);
    assert(endpoint_head(s) == s);
    lemma_char_absent(s, "enhance-video"@, 7);
    lemma_char_absent(s, "erase-video"@, 1);
    lemma_char_absent(s, "contents/generations"@, 9);
    lemma_char_absent(s, "video-generation"@, 2);
    lemma_char_absent(s, "video-synthesis"@, 2);
    lemma_char_absent(s, "/videos/"@, 3);
    lemma_char_absent(s, "/video/"@, 3);
    lemma_char_absent(s, "multimodal-generation"@, 1);
    lemma_char_absent(s, "/images/"@, 4);
    lemma_char_absent(s, "/image/"@, 4);
    lemma_char_absent(s, "/audio/"@, 2);
    lemma_pair_absent(s, "/tts"@, 0);
    lemma_pair_absent(s, "/speech"@, 0);
    lemma_char_absent(s, "embedding"@, 2);
    lemma_char_absent(s, "rerank"@, 0);
    assert(crate::text::occurs_at(s, "/chat/"@, 3)) by {
        assert(s.subrange(3, 9) =~= "/chat/"@);
    }
    reveal_with_fuel(rule_from, 17);
}

/// The first group from `i` with a keyword in `s` is group `k`.
proof fn lemma_first_group(s: Seq<char>, groups: Seq<(Seq<Seq<char>>, u16)>, i: int, k: int)
    requires
        0 <= i <= k < groups.len(),
        forall|j: int| i <= j < k ==> !contains_any(s, #[trigger] groups[j].0),
        contains_any(s, groups[k].0),
    ensures
        group_status(s, groups, i) == Some(groups[k].1),
    decreases k - i,
{
    if i < k {
        lemma_first_group(s, groups, i + 1, k);
    }
}

/// No group from `i` has a keyword in `s`.
proof fn lemma_no_group(s: Seq<char>, groups: Seq<(Seq<Seq<char>>, u16)>, i: int)
    requires
        0 <= i <= groups.len(),
        forall|j: int| i <= j < groups.len() ==> !contains_any(s, #[trigger] groups[j].0),
    ensures
        group_status(s, groups, i) is None,
    decreases groups.len() - i,
{
    if i < groups.len() {
        lemma_no_group(s, groups, i + 1);
    }
}

/// How an error text is classified by its words (lower case), the groups
/// taken in turn: content-safety and permission words make it 403; failing
/// those, authentication words 401; failing those, rate-limit and quota
/// words 429; failing those, timeout and gateway words 504 (a server-side
/// timeout is never a client error); failing those, internal-failure words
/// 500; a text with none of the words is a client error, 400.  No other
/// status comes out.
pub proof fn law_error_text_classes(msg: Seq<char>)
    ensures
        ({
            let s = unicode_lower(msg);
            let g = text_groups();
            &&& (contains(s, "safety"@) || contains(s, "sensitive"@) || contains(s, "permission"@)
                || contains(s, "forbidden"@)) ==> classify_text_model(msg) == 403
            &&& (contains(s, "auth"@) || contains(s, "api_key"@) || contains(s, "credential"@))
                && !contains_any(s, g[0].0) && !contains_any(s, g[1].0) ==> classify_text_model(msg)
                == 401
            &&& (contains(s, "rate"@) || contains(s, "limit"@) || contains(s, "quota"@))
                && !contains_any(s, g[0].0) && !contains_any(s, g[1].0) && !contains_any(s, g[2].0)
                ==> classify_text_model(msg) == 429
            &&& (contains(s, "timeout"@) || contains(s, "gateway"@) || contains(s, "connect"@)
                || contains(s, "超时"@)) && !contains_any(s, g[0].0) && !contains_any(s, g[1].0)
                && !contains_any(s, g[2].0) && !contains_any(s, g[3].0) ==> classify_text_model(msg)
                == 504
            &&& (contains(s, "internal"@) || contains(s, "error"@) || contains(s, "failed"@))
                && !contains_any(s, g[0].0) && !contains_any(s, g[1].0) && !contains_any(s, g[2].0)
                && !contains_any(s, g[3].0) && !contains_any(s, g[4].0) ==> classify_text_model(msg)
                == 500
            &&& (forall|j: int| 0 <= j < g.len() ==> !contains_any(s, #[trigger] g[j].0))
                ==> classify_text_model(msg) == 400
            &&& classify_text_model(msg) == 400 || classify_text_model(msg) == 401
                || classify_text_model(msg) == 403 || classify_text_model(msg) == 429
                || classify_text_model(msg) == 500 || classify_text_model(msg) == 504
        }),
{
    let s = unicode_lower(msg);
    let g = text_groups();
    if contains(s, "safety"@) || contains(s, "sensitive"@) {
        assert(g[0].0[0] == "safety"@ && g[0].0[5] == "sensitive"@);
        lemma_first_group(s, g, 0, 0);
    } else if contains(s, "permission"@) || contains(s, "forbidden"@) {
        assert(g[1].0[0] == "permission"@ && g[1].0[1] == "forbidden"@);
        if contains_any(s, g[0].0) {
            lemma_first_group(s, g, 0, 0);
        } else {
            lemma_first_group(s, g, 0, 1);
        }
    }
    if contains(s, "auth"@) || contains(s, "api_key"@) || contains(s, "credential"@) {
        assert(g[2].0[0] == "auth"@ && g[2].0[2] == "api_key"@ && g[2].0[3] == "credential"@);
        if !contains_any(s, g[0].0) && !contains_any(s, g[1].0) {
            lemma_first_group(s, g, 0, 2);
        }
    }
    if contains(s, "rate"@) || contains(s, "limit"@) || contains(s, "quota"@) {
        assert(g[3].0[3] == "rate"@ && g[3].0[0] == "limit"@ && g[3].0[1] == "quota"@);
        if !contains_any(s, g[0].0) && !contains_any(s, g[1].0) && !contains_any(s, g[2].0) {
            lemma_first_group(s, g, 0, 3);
        }
    }
    if contains(s, "timeout"@) || contains(s, "gateway"@) || contains(s, "connect"@) || contains(
        s,
        "超时"@,
    ) {
        assert(g[4].0[0] == "timeout"@ && g[4].0[1] == "gateway"@ && g[4].0[2] == "connect"@
            && g[4].0[6] == "超时"@);
        if !contains_any(s, g[0].0) && !contains_any(s, g[1].0) && !contains_any(s, g[2].0)
            && !contains_any(s, g[3].0) {
            lemma_first_group(s, g, 0, 4);
        }
    }
    if contains(s, "internal"@) || contains(s, "error"@) || contains(s, "failed"@) {
        assert(g[5].0[0] == "internal"@ && g[5].0[3] == "error"@ && g[5].0[2] == "failed"@);
        if !contains_any(s, g[0].0) && !contains_any(s, g[1].0) && !contains_any(s, g[2].0)
            && !contains_any(s, g[3].0) && !contains_any(s, g[4].0) {
            lemma_first_group(s, g, 0, 5);
        }
    }
    if contains_any(s, g[0].0) {
        lemma_first_group(s, g, 0, 0);
    } else if contains_any(s, g[1].0) {
        lemma_first_group(s, g, 0, 1);
    } else if contains_any(s, g[2].0) {
        lemma_first_group(s, g, 0, 2);
    } else if contains_any(s, g[3].0) {
        lemma_first_group(s, g, 0, 3);
    } else if contains_any(s, g[4].0) {
        lemma_first_group(s, g, 0, 4);
    } else if contains_any(s, g[5].0) {
        lemma_first_group(s, g, 0, 5);
    } else {
        lemma_no_group(s, g, 0);
    }
}

/// How an error code is classified.  A number (digits after an optional
/// `+`) is taken as the status when it is a 4xx/5xx status and refused
/// otherwise, so a vendor business code gives nothing.  A word always gives
/// a status, by its words (lower case) with the groups taken in turn:
/// content-safety and permission words 403; failing those, authentication
/// words 401; failing those, rate-limit words 429; failing those, timeout
/// and gateway words 504; failing those, internal-failure words 500; no
/// such word, 400.
pub proof fn law_error_code_classes(code: Seq<char>)
    ensures
        ({
            let d = code_digits(code);
            &&& numeric_code(code) && 400 <= dec_value(d) <= 599 ==> classify_code_model(code)
                == Some(dec_value(d) as u16)
            &&& numeric_code(code) && !(400 <= dec_value(d) <= 599) ==> classify_code_model(code)
                is None
        }),
        ({
            let s = unicode_lower(code);
            let g = code_groups();
            &&& !numeric_code(code) ==> classify_code_model(code) is Some
            &&& !numeric_code(code) && (contains(s, "sensitive"@) || contains(s, "safety"@)
                || contains(s, "permission"@) || contains(s, "forbidden"@)) ==> classify_code_model(
                code,
            ) == Some(403u16)
            &&& !numeric_code(code) && (contains(s, "auth"@) || contains(s, "unauthorized"@)
                || contains(s, "invalid_key"@)) && !contains_any(s, g[0].0) ==> classify_code_model(
                code,
            ) == Some(401u16)
            &&& !numeric_code(code) && (contains(s, "rate"@) || contains(s, "limit"@) || contains(
                s,
                "quota"@,
            )) && !contains_any(s, g[0].0) && !contains_any(s, g[1].0) ==> classify_code_model(
                code,
            ) == Some(429u16)
            &&& !numeric_code(code) && (contains(s, "timeout"@) || contains(s, "gateway"@)
                || contains(s, "unavailable"@)) && !contains_any(s, g[0].0) && !contains_any(
                s,
                g[1].0,
            ) && !contains_any(s, g[2].0) ==> classify_code_model(code) == Some(504u16)
            &&& !numeric_code(code) && (contains(s, "internal"@) || contains(s, "server_error"@))
                && !contains_any(s, g[0].0) && !contains_any(s, g[1].0) && !contains_any(s, g[2].0)
                && !contains_any(s, g[3].0) ==> classify_code_model(code) == Some(500u16)
            &&& !numeric_code(code) && (forall|j: int|
                0 <= j < g.len() ==> !contains_any(s, #[trigger] g[j].0)) ==> classify_code_model(
                code,
            ) == Some(400u16)
        }),
{
    let s = unicode_lower(code);
    let g = code_groups();
    if contains(s, "sensitive"@) || contains(s, "safety"@) || contains(s, "permission"@) || contains(
        s,
        "forbidden"@,
    ) {
        assert(g[0].0[0] == "sensitive"@ && g[0].0[3] == "safety"@ && g[0].0[8] == "permission"@
            && g[0].0[9] == "forbidden"@);
        lemma_first_group(s, g, 0, 0);
    }
    if contains(s, "auth"@) || contains(s, "unauthorized"@) || contains(s, "invalid_key"@) {
        assert(g[1].0[0] == "auth"@ && g[1].0[1] == "unauthorized"@ && g[1].0[2] == "invalid_key"@);
        if !contains_any(s, g[0].0) {
            lemma_first_group(s, g, 0, 1);
        }
    }
    if contains(s, "rate"@) || contains(s, "limit"@) || contains(s, "quota"@) {
        assert(g[2].0[0] == "rate"@ && g[2].0[1] == "limit"@ && g[2].0[2] == "quota"@);
        if !contains_any(s, g[0].0) && !contains_any(s, g[1].0) {
            lemma_first_group(s, g, 0, 2);
        }
    }
    if contains(s, "timeout"@) || contains(s, "gateway"@) || contains(s, "unavailable"@) {
        assert(g[3].0[0] == "timeout"@ && g[3].0[1] == "gateway"@ && g[3].0[2] == "unavailable"@);
        if !contains_any(s, g[0].0) && !contains_any(s, g[1].0) && !contains_any(s, g[2].0) {
            lemma_first_group(s, g, 0, 3);
        }
    }
    if contains(s, "internal"@) || contains(s, "server_error"@) {
        assert(g[4].0[0] == "internal"@ && g[4].0[1] == "server_error"@);
        if !contains_any(s, g[0].0) && !contains_any(s, g[1].0) && !contains_any(s, g[2].0)
            && !contains_any(s, g[3].0) {
            lemma_first_group(s, g, 0, 4);
        }
    }
    if forall|j: int| 0 <= j < g.len() ==> !contains_any(s, #[trigger] g[j].0) {
        lemma_no_group(s, g, 0);
    }
}

/// The action type read back from a category's standard endpoint is that
/// category again (video enhancement reads back as video).
pub proof fn law_category_endpoint_round_trip(c: &str)
    requires
        c@ == "图片"@ || c@ == "视频"@ || c@ == "音频"@ || c@ == "向量"@ || c@ == "排序"@ || c@ == "聊天"@
            || c@ == "视频增强"@,
    ensures
        rule_from(ascii_lower(endpoint_head(category_endpoint_model(Some(c)))), 0) == Some(
            if c@ == "视频增强"@ {
                "视频"@
            } else {
                c@
            },
        ),
{
    reveal_strlit("图片");
    reveal_strlit("视频");
    reveal_strlit("音频");
    reveal_strlit("向量");
    reveal_strlit("排序");
    reveal_strlit("聊天");
    reveal_strlit("视频增强");
    lemma_image_endpoint();
    lemma_video_endpoint();
    lemma_audio_endpoint();
    lemma_embeddings_endpoint();
    lemma_rerank_endpoint();
    lemma_chat_endpoint();
}

} // verus!
