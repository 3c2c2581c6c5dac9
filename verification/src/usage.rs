//! Usage figures read from upstream responses, and the billing features
//! derived from request sizes and resolution labels.
use vstd::prelude::*;
use crate::json::{json_has_pointer, json_pointer_i64, json_pointer_integer, json_pointer_present};
use crate::text::{
    split_once_at, split_once_model, trim_vec, starts_with, string_append,
    ascii_lower, chars_contains, chars_is, chars_ends_with, chars_eq_ignore_case, chars_find, chars_of,
    contains, ends_with, first_index, occurs_at, parse_unsigned, parse_unsigned_chars, slice_range,
    string_from_chars, string_push, to_lowercase, to_owned_string, trim, trim_bounds, trim_str,
    unicode_lower, is_digit, all_digits,
};

verus! {

/// Token counts of one upstream call.
pub struct UsageTokens {
    pub prompt: i32,
    pub completion: i32,
    pub total: i32,
    /// The upstream stated `total_tokens` itself (a back-filled total does
    /// not count).
    pub has_total_tokens: bool,
    /// Cache hits.
    pub cached: i32,
    /// Cache writes.
    pub cache_write: i32,
    /// Cache creation (5-minute and 1-hour together).
    pub cache_creation: i32,
    /// Audio input tokens (part of the prompt).
    pub audio_tokens: i32,
    /// Audio cache hits (part of the cache hits).
    pub audio_cached_tokens: i32,
    /// Image input tokens.
    pub image_tokens: i32,
    /// Web searches.
    pub web_search: i32,
}

impl Default for UsageTokens {
    fn default() -> (r: Self)
        ensures
            r.prompt == 0 && r.completion == 0 && r.total == 0 && !r.has_total_tokens && r.cached
                == 0 && r.cache_write == 0 && r.cache_creation == 0 && r.audio_tokens == 0
                && r.audio_cached_tokens == 0 && r.image_tokens == 0 && r.web_search == 0,
    {
        UsageTokens {
            prompt: 0,
            completion: 0,
            total: 0,
            has_total_tokens: false,
            cached: 0,
            cache_write: 0,
            cache_creation: 0,
            audio_tokens: 0,
            audio_cached_tokens: 0,
            image_tokens: 0,
            web_search: 0,
        }
    }
}

/// Raises `dst` to `v` when `v` is larger.
pub fn assign_max(dst: &mut i32, v: i32)
    ensures
        *final(dst) == (if v > *old(dst) {
            v
        } else {
            *old(dst)
        }),
{
    if v > *dst {
        *dst = v;
    }
}

/// Records a total stated by the upstream: a positive `total` raises the
/// total and marks it as stated; anything else changes nothing.
pub fn assign_upstream_total(u: &mut UsageTokens, total: i32)
    ensures
        total > 0 ==> final(u).total == (if total > old(u).total {
            total
        } else {
            old(u).total
        }) && final(u).has_total_tokens,
        total <= 0 ==> *final(u) == *old(u),
        final(u).prompt == old(u).prompt,
        final(u).completion == old(u).completion,
        final(u).cached == old(u).cached,
        final(u).cache_write == old(u).cache_write,
        final(u).cache_creation == old(u).cache_creation,
        final(u).audio_tokens == old(u).audio_tokens,
        final(u).audio_cached_tokens == old(u).audio_cached_tokens,
        final(u).image_tokens == old(u).image_tokens,
        final(u).web_search == old(u).web_search,
{
    if total > 0 {
        assign_max(&mut u.total, total);
        u.has_total_tokens = true;
    }
}

/// Fills `dst` with a non-empty `val` when `dst` is still empty.
pub fn set_str_if_none(dst: &mut Option<String>, val: Option<&str>)
    ensures
        match *old(dst) {
            Some(_) => *final(dst) == *old(dst),
            None => match val {
                Some(s) => if s@.len() > 0 {
                    (*final(dst)) matches Some(d) && d@ == s@
                } else {
                    (*final(dst)) is None
                },
                None => (*final(dst)) is None,
            },
        },
{
    if dst.is_none() {
        if let Some(s) = val {
            if !s.is_empty() {
                *dst = Some(to_owned_string(s));
            }
        }
    }
}

/// The file-info usages that mark a reference image (first frame, last
/// frame, reference), ignoring ASCII case.
pub open spec fn tencent_ref_usage_model(u: Seq<char>) -> bool {
    ascii_lower(u) == ascii_lower("FirstFrame"@) || ascii_lower(u) == ascii_lower("LastFrame"@)
        || ascii_lower(u) == ascii_lower("Reference"@)
}

/// Whether a file-info usage marks a reference image.
pub fn is_tencent_ref_usage(usage: &str) -> (r: bool)
    ensures
        r == tencent_ref_usage_model(usage@),
{
    let v = chars_of(usage);
    let a = chars_of("FirstFrame");
    let b = chars_of("LastFrame");
    let c = chars_of("Reference");
    chars_eq_ignore_case(v.as_slice(), a.as_slice()) || chars_eq_ignore_case(v.as_slice(), b.as_slice())
        || chars_eq_ignore_case(v.as_slice(), c.as_slice())
}

/// `s` with every `*` replaced by `x`.
pub open spec fn star_to_x(s: Seq<char>) -> Seq<char> {
    s.map_values(|c: char| if c == '*' { 'x' } else { c })
}

proof fn lemma_all_digits_push(o: Seq<char>, c: char)
    ensures
        all_digits(o.push(c)) == (all_digits(o) && is_digit(c)),
{
    let q = o.push(c);
    if all_digits(o) && is_digit(c) {
        assert forall|k: int| 0 <= k < q.len() implies is_digit(#[trigger] q[k]) by {
            if k < o.len() {
                assert(q[k] == o[k]);
            }
        }
    } else if !is_digit(c) {
        assert(q[o.len() as int] == c);
    } else {
        let k = choose|k: int| 0 <= k < o.len() && !is_digit(#[trigger] o[k]);
        assert(q[k] == o[k]);
    }
}

/// A resolution label normalized: trimmed, lower-cased, `*` as `x`, and a
/// `p` after a label of digits only (`720` → `720p`).
pub open spec fn resolution_label_model(raw: Seq<char>) -> Seq<char> {
    let res = star_to_x(unicode_lower(trim(raw)));
    if res.len() > 0 && all_digits(res) {
        res.push('p')
    } else {
        res
    }
}

/// Normalizes a resolution label (`720P` → `720p`, `1K` → `1k`, `720` →
/// `720p`).
pub fn normalize_resolution_label(raw: &str) -> (r: String)
    ensures
        r@ == resolution_label_model(raw@),
{
    let lower = to_lowercase(trim_str(raw));
    let v = chars_of(lower.as_str());
    let mut out: Vec<char> = Vec::new();
    let mut digits = true;
    let mut i: usize = 0;
    while i < v.len()
        invariant
            i <= v@.len(),
            out@ == star_to_x(v@.subrange(0, i as int)),
            digits == all_digits(out@),
        decreases v.len() - i,
    {
        let c = if v[i] == '*' {
            'x'
        } else {
            v[i]
        };
        proof {
            assert(star_to_x(v@.subrange(0, i + 1)) =~= star_to_x(v@.subrange(0, i as int)).push(c));
        }
        let cu = c as u32;
        let d = 48 <= cu && cu <= 57;
        proof {
            lemma_all_digits_push(out@, c);
        }
        out.push(c);
        digits = digits && d;
        i = i + 1;
    }
    assert(v@.subrange(0, v@.len() as int) =~= v@);
    if out.len() > 0 && digits {
        out.push('p');
    }
    string_from_chars(out.as_slice())
}

/// Whether `s` is one of the tier labels `1k`, `2k`, `4k`.
pub open spec fn is_tier_label(s: Seq<char>) -> bool {
    s == "1k"@ || s == "2k"@ || s == "4k"@
}

/// The resolution tier of a pixel size: `1k` up to 1024 on the short edge,
/// `2k` up to 2048, `4k` above; a tier label (`1k`, `2k`, `4k`, in any case)
/// is returned lower-cased; a ratio (`1:1`) or anything else that is not a
/// pixel size gives `None`.
pub open spec fn pixel_resolution_model(size: Seq<char>) -> Option<Seq<char>> {
    let s = unicode_lower(trim(size));
    if is_tier_label(s) {
        Some(s)
    } else if contains(s, ":"@) {
        None
    } else {
        let parts = match split_once_model(s, 'x') {
            Some(p) => Some(p),
            None => match split_once_model(s, '*') {
                Some(p) => Some(p),
                None => split_once_model(s, '×'),
            },
        };
        match parts {
            None => None,
            Some((a, b)) => tier_of_sides(a, b),
        }
    }
}

/// The tier of a `width`x`height` pair written as text: by the shorter
/// edge, `None` when either side is not a `u32`.
pub open spec fn tier_of_sides(a: Seq<char>, b: Seq<char>) -> Option<Seq<char>> {
    match (parse_unsigned(trim(a), u32::MAX as nat), parse_unsigned(trim(b), u32::MAX as nat)) {
        (Some(w), Some(h)) => {
            let m = if w <= h {
                w
            } else {
                h
            };
            Some(
                if m <= 1024 {
                    "1k"@
                } else if m <= 2048 {
                    "2k"@
                } else {
                    "4k"@
                },
            )
        },
        _ => None,
    }
}

fn tier_of_parts(a: &[char], b: &[char]) -> (r: Option<String>)
    ensures
        r.deep_view() == tier_of_sides(a@, b@),
{
    let ta = trim_vec(a);
    let tb = trim_vec(b);
    let w = match parse_unsigned_chars(ta.as_slice(), 0xFFFF_FFFF) {
        Some(w) => w,
        None => return None,
    };
    let h = match parse_unsigned_chars(tb.as_slice(), 0xFFFF_FFFF) {
        Some(h) => h,
        None => return None,
    };
    let m = if w <= h {
        w
    } else {
        h
    };
    if m <= 1024 {
        Some(to_owned_string("1k"))
    } else if m <= 2048 {
        Some(to_owned_string("2k"))
    } else {
        Some(to_owned_string("4k"))
    }
}

/// The resolution tier of a size string (see [`pixel_resolution_model`]).
pub fn parse_pixel_resolution(size: &str) -> (r: Option<String>)
    ensures
        r.deep_view() == pixel_resolution_model(size@),
{
    let lower = to_lowercase(trim_str(size));
    let v = chars_of(lower.as_str());
    if chars_is(v.as_slice(), "1k") || chars_is(v.as_slice(), "2k") || chars_is(v.as_slice(), "4k") {
        return Some(lower);
    }
    let colon = chars_of(":");
    if chars_contains(v.as_slice(), colon.as_slice()) {
        return None;
    }
    let parts = match split_once_at(v.as_slice(), 'x') {
        Some(p) => Some(p),
        None => match split_once_at(v.as_slice(), '*') {
            Some(p) => Some(p),
            None => split_once_at(v.as_slice(), '×'),
        },
    };
    match parts {
        Some((a, b)) => tier_of_parts(a.as_slice(), b.as_slice()),
        None => None,
    }
}


// ───────────────────────── usage figures in responses ─────────────────────────

/// The integer at `pointer` of `json`, 0 when absent.
pub open spec fn at_i64(json: Seq<char>, pointer: Seq<char>) -> i64 {
    match json_pointer_integer(json, pointer) {
        Some(v) => v,
        None => 0,
    }
}

/// [`at_i64`] cut to `i32` (`as i32`).
pub open spec fn at_i32(json: Seq<char>, pointer: Seq<char>) -> i32 {
    at_i64(json, pointer) as i32
}

/// The larger of two counts.
pub open spec fn max32(a: i32, b: i32) -> i32 {
    if a >= b {
        a
    } else {
        b
    }
}

/// `d` raised to `v` when `v` is larger.
pub open spec fn raise(d: i32, v: i32) -> i32 {
    if v > d {
        v
    } else {
        d
    }
}

/// The larger of a detail count in the Chat (`prompt_tokens_details`) and
/// Responses (`input_tokens_details`) shapes of the usage at `b`.
pub open spec fn detail_max(json: Seq<char>, b: Seq<char>, key: Seq<char>) -> i32 {
    max32(
        at_i32(json, b + "/prompt_tokens_details/"@ + key),
        at_i32(json, b + "/input_tokens_details/"@ + key),
    )
}

/// The usage object at `b` folded into `u`: every count is raised to the
/// larger of what `u` holds and what the object states (under either of
/// its field names); an explicit total marks the total as stated; cache
/// hits fall back to the root-level Anthropic / DeepSeek hit counts.
pub open spec fn apply_max_model(u: UsageTokens, json: Seq<char>, b: Seq<char>) -> UsageTokens {
    let p = max32(at_i32(json, b + "/prompt_tokens"@), at_i32(json, b + "/input_tokens"@));
    let c = max32(at_i32(json, b + "/completion_tokens"@), at_i32(json, b + "/output_tokens"@));
    let img = max32(at_i32(json, b + "/image_tokens"@), detail_max(json, b, "image_tokens"@));
    let total = at_i32(json, b + "/total_tokens"@);
    let sum = vstd::wrapping::i64_specs::wrapping_add(
        at_i64(json, b + "/claude_cache_creation_5_m_tokens"@),
        at_i64(json, b + "/claude_cache_creation_1_h_tokens"@),
    );
    let cc: i32 = if sum > 0 {
        sum as i32
    } else {
        at_i32(json, b + "/cache_creation_input_tokens"@)
    };
    let cached1 = raise(u.cached, detail_max(json, b, "cached_tokens"@));
    let cached2 = if cached1 == 0 {
        max32(at_i32(json, b + "/cache_read_input_tokens"@), at_i32(json, b + "/prompt_cache_hit_tokens"@))
    } else {
        cached1
    };
    UsageTokens {
        prompt: raise(u.prompt, p),
        completion: raise(u.completion, c),
        total: if total > 0 {
            raise(u.total, total)
        } else {
            u.total
        },
        has_total_tokens: if total > 0 {
            true
        } else {
            u.has_total_tokens
        },
        cached: cached2,
        cache_write: raise(u.cache_write, detail_max(json, b, "cache_write_tokens"@)),
        cache_creation: raise(u.cache_creation, cc),
        audio_tokens: raise(u.audio_tokens, detail_max(json, b, "audio_tokens"@)),
        audio_cached_tokens: raise(u.audio_cached_tokens, detail_max(json, b, "audio_cached_tokens"@)),
        image_tokens: raise(u.image_tokens, img),
        web_search: raise(u.web_search, at_i32(json, b + "/tool_usage/web_search"@)),
    }
}

/// Google Gemini `usageMetadata`: prompt and cache hits are taken as
/// stated, the total is recorded, and the completion is what the total
/// leaves after the prompt (0 when the total is smaller).
pub open spec fn gemini_model(u: UsageTokens, json: Seq<char>) -> UsageTokens {
    let b = "/usageMetadata"@;
    let prompt = at_i32(json, b + "/promptTokenCount"@);
    let total = at_i32(json, b + "/totalTokenCount"@);
    UsageTokens {
        prompt: prompt,
        total: if total > 0 {
            raise(u.total, total)
        } else {
            u.total
        },
        has_total_tokens: if total > 0 {
            true
        } else {
            u.has_total_tokens
        },
        completion: if total >= prompt {
            vstd::wrapping::i32_specs::wrapping_sub(total, prompt)
        } else {
            0
        },
        cached: at_i32(json, b + "/cachedContentTokenCount"@),
        ..u
    }
}

/// One parsed response (or SSE event) folded into `u`: root `usage`,
/// `message.usage`, `response.usage`, Gemini `usageMetadata` and
/// `final_result.usage` in turn; the wrapped `data.usage` only when none of
/// them was present.
pub open spec fn extract_model(u: UsageTokens, json: Seq<char>) -> UsageTokens {
    let f1 = json_pointer_present(json, "/usage"@);
    let u1 = if f1 {
        apply_max_model(u, json, "/usage"@)
    } else {
        u
    };
    let f2 = json_pointer_present(json, "/message/usage"@);
    let u2 = if f2 {
        apply_max_model(u1, json, "/message/usage"@)
    } else {
        u1
    };
    let f3 = json_pointer_present(json, "/response/usage"@);
    let u3 = if f3 {
        apply_max_model(u2, json, "/response/usage"@)
    } else {
        u2
    };
    let f4 = json_pointer_present(json, "/usageMetadata"@);
    let u4 = if f4 {
        gemini_model(u3, json)
    } else {
        u3
    };
    let f5 = json_pointer_present(json, "/final_result/usage"@);
    let u5 = if f5 {
        apply_max_model(u4, json, "/final_result/usage"@)
    } else {
        u4
    };
    if !(f1 || f2 || f3 || f4 || f5) && json_pointer_present(json, "/data/usage"@) {
        apply_max_model(u5, json, "/data/usage"@)
    } else {
        u5
    }
}

/// The JSON text an SSE line carries: trimmed, without a `data: ` or
/// `data:` prefix; nothing for a blank line or a `[DONE]` marker.
pub open spec fn line_payload(line: Seq<char>) -> Option<Seq<char>> {
    let t = trim(line);
    if t.len() == 0 || ends_with(t, "[DONE]"@) {
        None
    } else if starts_with(t, "data: "@) {
        Some(t.subrange("data: "@.len() as int, t.len() as int))
    } else if starts_with(t, "data:"@) {
        Some(t.subrange("data:"@.len() as int, t.len() as int))
    } else {
        Some(t)
    }
}

/// One SSE line folded into `u` (lines that do not parse are skipped).
pub open spec fn line_step(u: UsageTokens, line: Seq<char>) -> UsageTokens {
    match line_payload(line) {
        Some(j) => if json_pointer_present(j, ""@) {
            extract_model(u, j)
        } else {
            u
        },
        None => u,
    }
}

/// Index of the first line break of `s` (its length when there is none).
pub open spec fn first_nl(s: Seq<char>) -> nat
    decreases s.len(),
{
    if s.len() == 0 {
        0
    } else if s[0] == '\n' {
        0
    } else {
        1 + first_nl(s.drop_first())
    }
}

/// The lines of `s` folded into `u`, first to last.
pub open spec fn sse_fold(u: UsageTokens, s: Seq<char>) -> UsageTokens
    decreases s.len(),
{
    if s.len() == 0 {
        u
    } else {
        let i = first_nl(s);
        let u2 = line_step(u, s.subrange(0, i as int));
        if i >= s.len() {
            u2
        } else {
            sse_fold(u2, s.subrange(i as int + 1, s.len() as int))
        }
    }
}

/// Zero counts.
pub open spec fn zero_usage() -> UsageTokens {
    UsageTokens {
        prompt: 0,
        completion: 0,
        total: 0,
        has_total_tokens: false,
        cached: 0,
        cache_write: 0,
        cache_creation: 0,
        audio_tokens: 0,
        audio_cached_tokens: 0,
        image_tokens: 0,
        web_search: 0,
    }
}

/// The usage of a whole response: the response as one JSON document, or
/// else line by line as an SSE stream; a missing total is back-filled with
/// prompt plus completion (not marked as stated).
pub open spec fn parse_usage_model(response: Seq<char>) -> UsageTokens {
    let u1 = if json_pointer_present(response, ""@) {
        extract_model(zero_usage(), response)
    } else {
        sse_fold(zero_usage(), response)
    };
    if u1.total == 0 {
        UsageTokens { total: vstd::wrapping::i32_specs::wrapping_add(u1.prompt, u1.completion), ..u1 }
    } else {
        u1
    }
}

pub(crate) proof fn lemma_first_nl(s: Seq<char>, k: int)
    requires
        0 <= k <= s.len(),
        forall|j: int| 0 <= j < k ==> s[j] != '\n',
        k == s.len() || s[k] == '\n',
    ensures
        first_nl(s) == k,
    decreases s.len(),
{
    if s.len() > 0 && k > 0 {
        lemma_first_nl(s.drop_first(), k - 1);
    }
}

fn path(base: &str, suffix: &str) -> (r: String)
    ensures
        r@ == base@ + suffix@,
{
    let mut s = to_owned_string(base);
    string_append(&mut s, suffix);
    s
}

fn int_at(json: &str, base: &str, suffix: &str) -> (r: i64)
    ensures
        r == at_i64(json@, base@ + suffix@),
{
    let p = path(base, suffix);
    match json_pointer_i64(json, p.as_str()) {
        Some(v) => v,
        None => 0,
    }
}

fn int32_at(json: &str, base: &str, suffix: &str) -> (r: i32)
    ensures
        r == at_i32(json@, base@ + suffix@),
{
    #[verifier::truncate]
    (int_at(json, base, suffix) as i32)
}

fn max_i32(a: i32, b: i32) -> (r: i32)
    ensures
        r == max32(a, b),
{
    if a >= b {
        a
    } else {
        b
    }
}

fn detail_max_at(json: &str, base: &str, key: &str) -> (r: i32)
    ensures
        r == detail_max(json@, base@, key@),
{
    let p1 = path("/prompt_tokens_details/", key);
    let p2 = path("/input_tokens_details/", key);
    proof {
        assert(base@ + p1@ =~= base@ + "/prompt_tokens_details/"@ + key@);
        assert(base@ + p2@ =~= base@ + "/input_tokens_details/"@ + key@);
    }
    max_i32(int32_at(json, base, p1.as_str()), int32_at(json, base, p2.as_str()))
}

/// Folds the usage object at pointer `base` of `json` into `u`.
fn apply_usage_max(u: &mut UsageTokens, json: &str, base: &str)
    ensures
        *final(u) == apply_max_model(*old(u), json@, base@),
{
    let p = max_i32(int32_at(json, base, "/prompt_tokens"), int32_at(json, base, "/input_tokens"));
    let img = max_i32(int32_at(json, base, "/image_tokens"), detail_max_at(json, base, "image_tokens"));
    let c = max_i32(int32_at(json, base, "/completion_tokens"), int32_at(json, base, "/output_tokens"));
    assign_max(&mut u.prompt, p);
    assign_max(&mut u.completion, c);
    assign_max(&mut u.image_tokens, img);
    let total = int32_at(json, base, "/total_tokens");
    assign_upstream_total(u, total);
    assign_max(&mut u.cached, detail_max_at(json, base, "cached_tokens"));
    assign_max(&mut u.cache_write, detail_max_at(json, base, "cache_write_tokens"));
    assign_max(&mut u.audio_tokens, detail_max_at(json, base, "audio_tokens"));
    assign_max(&mut u.audio_cached_tokens, detail_max_at(json, base, "audio_cached_tokens"));
    let cc_5m = int_at(json, base, "/claude_cache_creation_5_m_tokens");
    let cc_1h = int_at(json, base, "/claude_cache_creation_1_h_tokens");
    let sum = cc_5m.wrapping_add(cc_1h);
    let cc: i32 = if sum > 0 {
        #[verifier::truncate]
        (sum as i32)
    } else {
        int32_at(json, base, "/cache_creation_input_tokens")
    };
    assign_max(&mut u.cache_creation, cc);
    if u.cached == 0 {
        let anthropic_hit = int32_at(json, base, "/cache_read_input_tokens");
        let deepseek_hit = int32_at(json, base, "/prompt_cache_hit_tokens");
        u.cached = max_i32(anthropic_hit, deepseek_hit);
    }
    assign_max(&mut u.web_search, int32_at(json, base, "/tool_usage/web_search"));
}

fn apply_gemini(u: &mut UsageTokens, json: &str)
    ensures
        *final(u) == gemini_model(*old(u), json@),
{
    let b = "/usageMetadata";
    u.prompt = int32_at(json, b, "/promptTokenCount");
    let total = int32_at(json, b, "/totalTokenCount");
    assign_upstream_total(u, total);
    u.completion = if total >= u.prompt {
        total.wrapping_sub(u.prompt)
    } else {
        0
    };
    u.cached = int32_at(json, b, "/cachedContentTokenCount");
}

/// Folds one parsed response or SSE event into `u`.
fn extract_from_value(u: &mut UsageTokens, json: &str)
    ensures
        *final(u) == extract_model(*old(u), json@),
{
    let f1 = json_has_pointer(json, "/usage");
    if f1 {
        apply_usage_max(u, json, "/usage");
    }
    let f2 = json_has_pointer(json, "/message/usage");
    if f2 {
        apply_usage_max(u, json, "/message/usage");
    }
    let f3 = json_has_pointer(json, "/response/usage");
    if f3 {
        apply_usage_max(u, json, "/response/usage");
    }
    let f4 = json_has_pointer(json, "/usageMetadata");
    if f4 {
        apply_gemini(u, json);
    }
    let f5 = json_has_pointer(json, "/final_result/usage");
    if f5 {
        apply_usage_max(u, json, "/final_result/usage");
    }
    if !(f1 || f2 || f3 || f4 || f5) && json_has_pointer(json, "/data/usage") {
        apply_usage_max(u, json, "/data/usage");
    }
}

/// The JSON text an SSE line carries (see [`line_payload`]).
pub(crate) fn sse_payload(line: &[char]) -> (r: Option<String>)
    ensures
        r.deep_view() == line_payload(line@),
{
    let t = trim_vec(line);
    let done = chars_of("[DONE]");
    if t.len() == 0 || crate::text::chars_ends_with(t.as_slice(), done.as_slice()) {
        return None;
    }
    let p6 = chars_of("data: ");
    let p5 = chars_of("data:");
    let body: Vec<char> = if crate::text::chars_starts_with(t.as_slice(), p6.as_slice()) {
        crate::text::slice_range(t.as_slice(), p6.len(), t.len())
    } else if crate::text::chars_starts_with(t.as_slice(), p5.as_slice()) {
        crate::text::slice_range(t.as_slice(), p5.len(), t.len())
    } else {
        t
    };
    Some(string_from_chars(body.as_slice()))
}

fn apply_line(u: &mut UsageTokens, line: &[char])
    ensures
        *final(u) == line_step(*old(u), line@),
{
    match sse_payload(line) {
        Some(js) => {
            if json_has_pointer(js.as_str(), "") {
                extract_from_value(u, js.as_str());
            }
        },
        None => {},
    }
}

/// The lines of `s`, split at each `\n` (no empty line after a final
/// break).
pub open spec fn split_lines(s: Seq<char>) -> Seq<Seq<char>>
    decreases s.len(),
{
    if s.len() == 0 {
        seq![]
    } else {
        let i = first_nl(s);
        if i >= s.len() {
            seq![s]
        } else {
            seq![s.subrange(0, i as int)] + split_lines(s.subrange(i as int + 1, s.len() as int))
        }
    }
}

/// The character sequences held by `v`.
pub open spec fn char_views(v: Seq<Vec<char>>) -> Seq<Seq<char>> {
    v.map_values(|x: Vec<char>| x@)
}

/// The lines of `s` (see [`split_lines`]).
pub(crate) fn lines_of(s: &str) -> (r: Vec<Vec<char>>)
    ensures
        char_views(r@) == split_lines(s@),
{
    let v = chars_of(s);
    let n = v.len();
    let mut out: Vec<Vec<char>> = Vec::new();
    let mut st: usize = 0;
    assert(v@.subrange(0, n as int) =~= v@);
    while st < n
        invariant
            n == v@.len(),
            st <= n,
            v@ == s@,
            split_lines(s@) == char_views(out@) + split_lines(v@.subrange(st as int, n as int)),
        decreases n - st,
    {
        let mut j: usize = st;
        while j < n && v[j] != '\n'
            invariant
                st <= j <= n,
                n == v@.len(),
                forall|k: int| st <= k < j ==> v@[k] != '\n',
            decreases n - j,
        {
            j = j + 1;
        }
        let line = crate::text::slice_range(v.as_slice(), st, j);
        let ghost rest = v@.subrange(st as int, n as int);
        let ghost before = char_views(out@);
        proof {
            lemma_first_nl(rest, j - st);
            assert(rest.subrange(0, j - st) =~= line@);
            if j < n {
                assert(rest.subrange(j - st + 1, rest.len() as int) =~= v@.subrange(j + 1, n as int));
            }
        }
        out.push(line);
        proof {
            assert(char_views(out@) =~= before.push(line@));
        }
        if j < n {
            st = j + 1;
            assert(split_lines(rest) == seq![line@] + split_lines(v@.subrange(st as int, n as int)));
            assert(before + (seq![line@] + split_lines(v@.subrange(st as int, n as int))) =~= before.push(line@) + split_lines(v@.subrange(st as int, n as int)));
        } else {
            st = n;
            assert(split_lines(rest) == seq![line@]);
            assert(v@.subrange(n as int, n as int) =~= Seq::<char>::empty());
            assert(before + seq![line@] =~= before.push(line@) + split_lines(v@.subrange(n as int, n as int)));
        }
    }
    assert(v@.subrange(n as int, n as int) =~= Seq::<char>::empty());
    assert(char_views(out@) + Seq::<Seq<char>>::empty() =~= char_views(out@));
    out
}

/// Token usage of an upstream response, whole JSON or SSE stream (see
/// [`parse_usage_model`]).
pub fn parse_usage(response: &str) -> (r: UsageTokens)
    ensures
        r == parse_usage_model(response@),
{
    let mut u = UsageTokens::default();
    if json_has_pointer(response, "") {
        extract_from_value(&mut u, response);
    } else {
        let v = chars_of(response);
        let n = v.len();
        let mut st: usize = 0;
        assert(v@.subrange(0, n as int) =~= v@);
        while st < n
            invariant
                n == v@.len(),
                st <= n,
                sse_fold(zero_usage(), response@) == sse_fold(u, v@.subrange(st as int, n as int)),
                v@ == response@,
            decreases n - st,
        {
            let mut j: usize = st;
            while j < n && v[j] != '\n'
                invariant
                    st <= j <= n,
                    n == v@.len(),
                    forall|k: int| st <= k < j ==> v@[k] != '\n',
                decreases n - j,
            {
                j = j + 1;
            }
            let line = crate::text::slice_range(v.as_slice(), st, j);
            let ghost rest = v@.subrange(st as int, n as int);
            proof {
                lemma_first_nl(rest, j - st);
                assert(rest.subrange(0, j - st) =~= line@);
                if j < n {
                    assert(rest.subrange(j - st + 1, rest.len() as int) =~= v@.subrange(j + 1, n as int));
                }
            }
            apply_line(&mut u, line.as_slice());
            if j < n {
                st = j + 1;
            } else {
                st = n;
                assert(v@.subrange(n as int, n as int).len() == 0);
            }
        }
    }
    if u.total == 0 {
        u.total = u.prompt.wrapping_add(u.completion);
    }
    u
}

/// The count `n` is stated at exactly one of the two pointers `x`, `y`.
pub open spec fn stated_once(json: Seq<char>, x: Seq<char>, y: Seq<char>, n: i64) -> bool {
    ||| json_pointer_integer(json, x) == Some(n) && json_pointer_integer(json, y) is None
    ||| json_pointer_integer(json, x) is None && json_pointer_integer(json, y) == Some(n)
}

/// A response whose one usage object sits at any place a provider puts it
/// (root `usage`, Anthropic `message.usage`, the Responses API
/// `response.usage`, `final_result.usage`, or the wrapped `data.usage`) is
/// billed by the counts that object states: the prompt and completion under
/// either of their field names, and the stated total, marked as stated.
pub proof fn law_usage_read_where_stated(response: Seq<char>, b: Seq<char>, p: i64, c: i64, t: i64)
    requires
        json_pointer_present(response, ""@),
        b == "/usage"@ || b == "/message/usage"@ || b == "/response/usage"@ || b
            == "/final_result/usage"@ || b == "/data/usage"@,
        json_pointer_present(response, b),
        b != "/usage"@ ==> !json_pointer_present(response, "/usage"@),
        b != "/message/usage"@ ==> !json_pointer_present(response, "/message/usage"@),
        b != "/response/usage"@ ==> !json_pointer_present(response, "/response/usage"@),
        b != "/final_result/usage"@ ==> !json_pointer_present(response, "/final_result/usage"@),
        !json_pointer_present(response, "/usageMetadata"@),
        stated_once(response, b + "/prompt_tokens"@, b + "/input_tokens"@, p),
        stated_once(response, b + "/completion_tokens"@, b + "/output_tokens"@, c),
        json_pointer_integer(response, b + "/total_tokens"@) == Some(t),
        0 <= p <= i32::MAX,
        0 <= c <= i32::MAX,
        0 < t <= i32::MAX,
    ensures
        parse_usage_model(response).prompt == p,
        parse_usage_model(response).completion == c,
        parse_usage_model(response).total == t,
        parse_usage_model(response).has_total_tokens,
{
    reveal_strlit("/usage");
    reveal_strlit("/message/usage");
    reveal_strlit("/response/usage");
    reveal_strlit("/final_result/usage");
    reveal_strlit("/data/usage");
    reveal_strlit("/usageMetadata");
    assert("/usage"@.len() == 6 && "/message/usage"@.len() == 14 && "/response/usage"@.len() == 15);
    assert("/final_result/usage"@.len() == 19 && "/data/usage"@.len() == 11);
    assert("/usageMetadata"@.len() == 14 && "/usageMetadata"@[1] != "/message/usage"@[1]);
    assert(b != "/usageMetadata"@);
    let z = zero_usage();
    let a = apply_max_model(z, response, b);
    assert(a.prompt == p);
    assert(a.completion == c);
    assert(a.total == t && a.has_total_tokens);
    assert(extract_model(z, response) == a);
}

/// A total is stated exactly when it is positive; an unstated total is zero.
pub open spec fn total_consistent(u: UsageTokens) -> bool {
    (u.has_total_tokens ==> u.total > 0) && (!u.has_total_tokens ==> u.total == 0)
}

proof fn lemma_extract_total(u: UsageTokens, json: Seq<char>)
    requires
        total_consistent(u),
    ensures
        total_consistent(extract_model(u, json)),
{
}

proof fn lemma_first_nl_bound(s: Seq<char>)
    ensures
        first_nl(s) <= s.len(),
    decreases s.len(),
{
    if s.len() > 0 && s[0] != '\n' {
        lemma_first_nl_bound(s.drop_first());
    }
}

proof fn lemma_sse_total(u: UsageTokens, s: Seq<char>)
    requires
        total_consistent(u),
    ensures
        total_consistent(sse_fold(u, s)),
    decreases s.len(),
{
    if s.len() > 0 {
        let i = first_nl(s);
        lemma_first_nl_bound(s);
        let line = s.subrange(0, i as int);
        match line_payload(line) {
            Some(j) => {
                lemma_extract_total(u, j);
            },
            None => {},
        }
        let u2 = line_step(u, line);
        if i < s.len() {
            lemma_sse_total(u2, s.subrange(i as int + 1, s.len() as int));
        }
    }
}

/// The total of any response: when the upstream stated no total, it is the
/// prompt plus the completion (and not marked as stated); a stated total
/// is positive.
pub proof fn law_usage_total(response: Seq<char>)
    ensures
        !parse_usage_model(response).has_total_tokens ==> parse_usage_model(response).total
            == vstd::wrapping::i32_specs::wrapping_add(
            parse_usage_model(response).prompt,
            parse_usage_model(response).completion,
        ),
        parse_usage_model(response).has_total_tokens ==> parse_usage_model(response).total > 0,
{
    let z = zero_usage();
    if json_pointer_present(response, ""@) {
        lemma_extract_total(z, response);
    } else {
        lemma_sse_total(z, response);
    }
}

/// A Google Gemini response (its usage in `usageMetadata` only) is billed
/// with the prompt and total it states, the completion being what the
/// total leaves after the prompt.
pub proof fn law_usage_gemini(response: Seq<char>, p: i64, t: i64)
    requires
        json_pointer_present(response, ""@),
        json_pointer_present(response, "/usageMetadata"@),
        !json_pointer_present(response, "/usage"@),
        !json_pointer_present(response, "/message/usage"@),
        !json_pointer_present(response, "/response/usage"@),
        !json_pointer_present(response, "/final_result/usage"@),
        json_pointer_integer(response, "/usageMetadata"@ + "/promptTokenCount"@) == Some(p),
        json_pointer_integer(response, "/usageMetadata"@ + "/totalTokenCount"@) == Some(t),
        0 <= p <= t <= i32::MAX,
        0 < t,
    ensures
        parse_usage_model(response).prompt == p,
        parse_usage_model(response).total == t,
        parse_usage_model(response).completion == t - p,
        parse_usage_model(response).has_total_tokens,
{
    let z = zero_usage();
    let g = gemini_model(z, response);
    assert(g.prompt == p && g.total == t && g.has_total_tokens);
    assert(g.completion == t - p);
    assert(extract_model(z, response) == g);
}

} // verus!
