//! Cascade video generation (stage one generates, stage two enhances):
//! enhancement version, scene and base resolution choices, and the JSON
//! fields the cascade reads from plugin tags and requests.
use vstd::prelude::*;
use crate::errors::AppError;
use crate::json::{
    json_array_len, json_array_len_at, json_array_strings, json_array_strings_at, json_has_pointer,
    json_object_keys, json_object_keys_at, json_pointer_bool, json_pointer_boolean, json_pointer_present,
    json_pointer_str, json_pointer_text,
};
use crate::text::{
    chars_eq_ignore_case, dec_string, eq_ignore_case, push_u64, split_once_at, split_once_model,
    ascii_lower, chars_ascii_lower, chars_is, chars_of, str_map_get, str_pairs_find, string_append,
    str_eq, string_from_chars, to_owned_string, trim, trim_bounds, trim_chars, trim_lower_chars, slice_range, trim_string,
};

verus! {

/// The lookup key of a resolution, version or scene: trimmed, ASCII lower case.
pub open spec fn norm_key(s: Seq<char>) -> Seq<char> {
    ascii_lower(trim(s))
}

/// A pair of static strings as character sequences.
pub open spec fn pair_view(p: Option<(&str, &str)>) -> Option<(Seq<char>, Seq<char>)> {
    match p {
        Some((a, b)) => Some((a@, b@)),
        None => None,
    }
}

/// Enhancement version → (billing version, enhancement model id).
pub open spec fn enhance_pair_model(version: Seq<char>) -> Option<(Seq<char>, Seq<char>)> {
    let k = norm_key(version);
    if k == "fast"@ {
        Some(("fast"@, "vve-ft"@))
    } else if k == "standard"@ {
        Some(("standard"@, "vve-sd"@))
    } else if k == "pro"@ {
        Some(("pro"@, "vve-pf"@))
    } else if k == "ai"@ {
        Some(("ai"@, "vve-gt"@))
    } else {
        None
    }
}

/// The (billing version, model id) of an enhancement version; `None` for an
/// unknown version.
pub fn cascade_enhance_pair(version: &str) -> (r: Option<(&'static str, &'static str)>)
    ensures
        pair_view(r) == enhance_pair_model(version@),
{
    let k = trim_lower_chars(version);
    if chars_is(k.as_slice(), "fast") {
        Some(("fast", "vve-ft"))
    } else if chars_is(k.as_slice(), "standard") {
        Some(("standard", "vve-sd"))
    } else if chars_is(k.as_slice(), "pro") {
        Some(("pro", "vve-pf"))
    } else if chars_is(k.as_slice(), "ai") {
        Some(("ai", "vve-gt"))
    } else {
        None
    }
}

/// The resolutions at which the large-model (`ai`) enhancement runs.
pub open spec fn ai_resolution(k: Seq<char>) -> bool {
    k == "720p"@ || k == "1080p"@ || k == "2k"@
}

/// The enhancement chosen for a target resolution: the configured version
/// for that resolution when it is valid (and, for `ai`, the resolution
/// supports it); the standard version otherwise.
pub open spec fn resolve_enhance_model(target: Seq<char>, cfg: Seq<(Seq<char>, Seq<char>)>) -> (
    Seq<char>,
    Seq<char>,
) {
    let key = norm_key(target);
    match str_map_get(cfg, key) {
        Some(ver) => match enhance_pair_model(ver) {
            Some(p) => if p.0 == "ai"@ && !ai_resolution(key) {
                ("standard"@, "vve-sd"@)
            } else {
                p
            },
            None => ("standard"@, "vve-sd"@),
        },
        None => ("standard"@, "vve-sd"@),
    }
}

/// The enhancement (billing version, model id) for `target_res` under the
/// forward rule's per-resolution configuration `res_enhance`.
pub fn cascade_resolve_enhance(target_res: &str, res_enhance: &[(String, String)]) -> (r: (
    &'static str,
    &'static str,
))
    ensures
        (r.0@, r.1@) == resolve_enhance_model(target_res@, res_enhance.deep_view()),
{
    let key = trim_lower_chars(target_res);
    match str_pairs_find(res_enhance, key.as_slice()) {
        Some(i) => {
            match cascade_enhance_pair(res_enhance[i].1.as_str()) {
                Some(p) => {
                    let k = key.as_slice();
                    if str_eq(p.0, "ai") && !(chars_is(k, "720p") || chars_is(k, "1080p") || chars_is(k, "2k")) {
                        ("standard", "vve-sd")
                    } else {
                        p
                    }
                },
                None => ("standard", "vve-sd"),
            }
        },
        None => ("standard", "vve-sd"),
    }
}

/// Standard-enhancement scene names.
pub open spec fn scene_model(scene: Seq<char>) -> Option<Seq<char>> {
    let k = norm_key(scene);
    if k == "common"@ || k == "ugc"@ || k == "short_series"@ || k == "aigc"@ || k == "old_film"@ {
        Some(k)
    } else {
        None
    }
}

/// The scene name of a configured scene; `None` for an unknown one.
pub fn cascade_scene_pair(scene: &str) -> (r: Option<&'static str>)
    ensures
        match r {
            Some(x) => scene_model(scene@) == Some(x@),
            None => scene_model(scene@) is None,
        },
{
    let k = trim_lower_chars(scene);
    let k = k.as_slice();
    if chars_is(k, "common") {
        Some("common")
    } else if chars_is(k, "ugc") {
        Some("ugc")
    } else if chars_is(k, "short_series") {
        Some("short_series")
    } else if chars_is(k, "aigc") {
        Some("aigc")
    } else if chars_is(k, "old_film") {
        Some("old_film")
    } else {
        None
    }
}

/// The scene of a standard enhancement: the configured scene for the
/// resolution when valid, `common` otherwise; no scene for other versions.
pub open spec fn resolve_scene_model(
    version: Seq<char>,
    target: Seq<char>,
    cfg: Seq<(Seq<char>, Seq<char>)>,
) -> Option<Seq<char>> {
    if version != "standard"@ {
        None
    } else {
        match str_map_get(cfg, norm_key(target)) {
            Some(s) => match scene_model(s) {
                Some(x) => Some(x),
                None => Some("common"@),
            },
            None => Some("common"@),
        }
    }
}

/// The enhancement scene for `target_res` under `res_scene`, when the
/// cascade version is `standard`.
pub fn cascade_resolve_scene(
    cascade_version: &str,
    target_res: &str,
    res_scene: &[(String, String)],
) -> (r: Option<&'static str>)
    ensures
        match r {
            Some(x) => resolve_scene_model(cascade_version@, target_res@, res_scene.deep_view())
                == Some(x@),
            None => resolve_scene_model(cascade_version@, target_res@, res_scene.deep_view()) is None,
        },
{
    if !str_eq(cascade_version, "standard") {
        return None;
    }
    let key = trim_lower_chars(target_res);
    match str_pairs_find(res_scene, key.as_slice()) {
        Some(i) => match cascade_scene_pair(res_scene[i].1.as_str()) {
            Some(x) => Some(x),
            None => Some("common"),
        },
        None => Some("common"),
    }
}

/// The resolutions a cascade can target.
pub open spec fn is_res_model(s: Seq<char>) -> bool {
    let k = norm_key(s);
    k == "480p"@ || k == "720p"@ || k == "768p"@ || k == "1080p"@ || k == "2k"@ || k == "4k"@
}

/// Whether `s` names a cascade resolution.
pub fn cascade_is_res(s: &str) -> (r: bool)
    ensures
        r == is_res_model(s@),
{
    let k = trim_lower_chars(s);
    let k = k.as_slice();
    chars_is(k, "480p") || chars_is(k, "720p") || chars_is(k, "768p") || chars_is(k, "1080p")
        || chars_is(k, "2k") || chars_is(k, "4k")
}

/// Whether `s` names an enhancement version.
pub fn cascade_is_version(s: &str) -> (r: bool)
    ensures
        r == enhance_pair_model(s@) is Some,
{
    cascade_enhance_pair(s).is_some()
}

/// The base resolutions allowed for a normalized target key (the first is
/// the default; a single one is fixed).
pub open spec fn bases_for_key(k: Seq<char>) -> Seq<Seq<char>> {
    if k == "480p"@ {
        seq!["480p"@]
    } else if k == "720p"@ {
        seq!["480p"@, "720p"@]
    } else if k == "1080p"@ {
        seq!["720p"@, "480p"@, "1080p"@]
    } else if k == "2k"@ || k == "4k"@ {
        seq!["1080p"@, "720p"@, "480p"@]
    } else {
        seq!["720p"@]
    }
}

/// The base resolutions allowed for a target.
pub open spec fn allowed_bases_model(target: Seq<char>) -> Seq<Seq<char>> {
    bases_for_key(norm_key(target))
}

fn bases_of_key(k: &[char]) -> (r: Vec<&'static str>)
    ensures
        r@.map_values(|x: &str| x@) == bases_for_key(k@),
        r@.len() >= 1,
{
    let r: Vec<&'static str> = if chars_is(k, "480p") {
        vec!["480p"]
    } else if chars_is(k, "720p") {
        vec!["480p", "720p"]
    } else if chars_is(k, "1080p") {
        vec!["720p", "480p", "1080p"]
    } else if chars_is(k, "2k") || chars_is(k, "4k") {
        vec!["1080p", "720p", "480p"]
    } else {
        vec!["720p"]
    };
    assert(r@.map_values(|x: &str| x@) =~= bases_for_key(k@));
    r
}

/// The base resolutions allowed for `target`.
pub fn cascade_allowed_bases(target: &str) -> (r: Vec<&'static str>)
    ensures
        r@.map_values(|x: &str| x@) == allowed_bases_model(target@),
        r@.len() >= 1,
{
    let k = trim_lower_chars(target);
    bases_of_key(k.as_slice())
}

/// The default base resolution of `target`: the first allowed base.
pub fn cascade_clamp_base_resolution(target: &str) -> (r: &'static str)
    ensures
        r@ == allowed_bases_model(target@)[0],
{
    let bases = cascade_allowed_bases(target);
    assert(bases@.map_values(|x: &str| x@)[0] == bases@[0]@);
    bases[0]
}

/// The first allowed base of `allowed` that equals `b` ignoring ASCII case.
pub open spec fn find_base(allowed: Seq<Seq<char>>, b: Seq<char>) -> Option<Seq<char>>
    decreases allowed.len(),
{
    if allowed.len() == 0 {
        None
    } else if ascii_lower(allowed[0]) == ascii_lower(b) {
        Some(allowed[0])
    } else {
        find_base(allowed.drop_first(), b)
    }
}

/// The base resolution for a target: the configured base when it is one of
/// the allowed bases, the default base otherwise.
pub open spec fn resolve_base_model(target: Seq<char>, cfg: Seq<(Seq<char>, Seq<char>)>) -> Seq<char> {
    let key = norm_key(target);
    let allowed = bases_for_key(key);
    match str_map_get(cfg, key) {
        Some(c) => match find_base(allowed, norm_key(c)) {
            Some(b) => b,
            None => allowed[0],
        },
        None => allowed[0],
    }
}

/// The base resolution for `target` under the forward rule's `res_base`.
pub fn cascade_resolve_base(target: &str, res_base: &[(String, String)]) -> (r: &'static str)
    ensures
        r@ == resolve_base_model(target@, res_base.deep_view()),
{
    let key = trim_lower_chars(target);
    let allowed = bases_of_key(key.as_slice());
    let ghost am = allowed@.map_values(|x: &str| x@);
    assert(am[0] == allowed@[0]@);
    match str_pairs_find(res_base, key.as_slice()) {
        Some(i) => {
            let b = trim_lower_chars(res_base[i].1.as_str());
            let lb = chars_ascii_lower(b.as_slice());
            assert(am.subrange(0, am.len() as int) =~= am);
            let mut j: usize = 0;
            while j < allowed.len()
                invariant
                    j <= allowed@.len(),
                    am == allowed@.map_values(|x: &str| x@),
                    lb@ == ascii_lower(b@),
                    i < res_base@.len(),
                    b@ == norm_key(res_base@[i as int].1@),
                    key@ == norm_key(target@),
                    am == bases_for_key(key@),
                    str_map_get(res_base.deep_view(), key@) == Some(res_base@[i as int].1@),
                    find_base(am, b@) == find_base(am.subrange(j as int, am.len() as int), b@),
                decreases allowed.len() - j,
            {
                assert(am.subrange(j as int, am.len() as int).drop_first() =~= am.subrange(
                    j + 1,
                    am.len() as int,
                ));
                assert(am.subrange(j as int, am.len() as int)[0] == allowed@[j as int]@);
                let a = chars_of(allowed[j]);
                let la = chars_ascii_lower(a.as_slice());
                if crate::text::chars_eq(la.as_slice(), lb.as_slice()) {
                    return allowed[j];
                }
                j = j + 1;
            }
            assert(am.subrange(j as int, am.len() as int).len() == 0);
            allowed[0]
        },
        None => allowed[0],
    }
}

/// The trimmed string at `pointer` in `json`, lower-cased when `lower`;
/// `None` when absent, not a string, or empty after trimming.
pub open spec fn json_ptr_model(json: Seq<char>, pointer: Seq<char>, lower: bool) -> Option<
    Seq<char>,
> {
    match json_pointer_text(json, pointer) {
        Some(s) => {
            let t = if lower {
                ascii_lower(trim(s))
            } else {
                trim(s)
            };
            if t.len() == 0 {
                None
            } else {
                Some(t)
            }
        },
        None => None,
    }
}

/// Reads a non-empty trimmed string at a JSON pointer, lower-cased on
/// request (resolutions are, task ids are not).
pub fn cascade_json_ptr(json: &str, pointer: &str, lower: bool) -> (r: Option<String>)
    ensures
        r.deep_view() == json_ptr_model(json@, pointer@, lower),
{
    match json_pointer_str(json, pointer) {
        Some(s) => {
            let t = if lower {
                trim_lower_chars(s.as_str())
            } else {
                trim_chars(s.as_str())
            };
            if t.len() == 0 {
                None
            } else {
                Some(string_from_chars(t.as_slice()))
            }
        },
        None => None,
    }
}

/// [`cascade_json_ptr`] lower-cased.
pub fn cascade_json_str(json: &str, pointer: &str) -> (r: Option<String>)
    ensures
        r.deep_view() == json_ptr_model(json@, pointer@, true),
{
    cascade_json_ptr(json, pointer, true)
}

/// The stage-one upstream task id: `cascade.s1_task_id` of the plugin tag,
/// else `fallback`.
pub fn cascade_s1_upstream_task_id(plugin_tag: &str, fallback: &str) -> (r: String)
    ensures
        r@ == (match json_ptr_model(plugin_tag@, "/cascade/s1_task_id"@, false) {
            Some(s) => s,
            None => fallback@,
        }),
{
    match cascade_json_ptr(plugin_tag, "/cascade/s1_task_id", false) {
        Some(s) => s,
        None => to_owned_string(fallback),
    }
}

/// The cascade target resolution: `cascade.resolution` of the plugin tag,
/// else `resolution` of the request, else `720p` (trimmed, lower case).
pub open spec fn target_resolution_model(plugin_tag: Seq<char>, request_content: Seq<char>) -> Seq<char> {
    match json_ptr_model(plugin_tag, "/cascade/resolution"@, true) {
        Some(s) => s,
        None => match json_ptr_model(request_content, "/resolution"@, true) {
            Some(s) => s,
            None => "720p"@,
        },
    }
}

/// The cascade target resolution (see [`target_resolution_model`]).
pub fn cascade_resolve_target_resolution(plugin_tag: &str, request_content: &str) -> (r: String)
    ensures
        r@ == target_resolution_model(plugin_tag@, request_content@),
{
    match cascade_json_str(plugin_tag, "/cascade/resolution") {
        Some(s) => s,
        None => match cascade_json_str(request_content, "/resolution") {
            Some(s) => s,
            None => to_owned_string("720p"),
        },
    }
}

/// The cascade stage of a logged response: 0 outside a cascade, 2 once the
/// response holds `stage2`, 1 before.
pub fn cascade_stage_num(is_cascade: bool, post: &str) -> (r: u8)
    ensures
        r == (if !is_cascade {
            0u8
        } else if json_pointer_present(post@, "/stage2"@) {
            2u8
        } else {
            1u8
        }),
{
    if !is_cascade {
        0
    } else if json_has_pointer(post, "/stage2") {
        2
    } else {
        1
    }
}

/// Whether a logged response combines both stages.
pub fn cascade_is_combined_resp(v: &str) -> (r: bool)
    ensures
        r == (json_pointer_present(v@, "/stage1"@) && json_pointer_present(v@, "/stage2"@)),
{
    json_has_pointer(v, "/stage1") && json_has_pointer(v, "/stage2")
}

/// The refusal of a resolution that the model's billing does not enable.
pub open spec fn unsupported_resolution_message(res: Seq<char>) -> Seq<char> {
    "当前分辨率 "@ + trim(res) + " 不支持"@
}

/// Checks a requested resolution against the resolutions enabled by the
/// model's billing rule: without a rule, or with a rule that does not
/// price by resolution, every resolution passes.
pub fn cascade_check_resolution(
    db_rule: Option<&BillingRule>,
    cascade_version: &str,
    res_str: &str,
) -> (r: Result<(), AppError>)
    ensures
        match db_rule {
            None => r is Ok,
            Some(rule) => match enabled_resolutions_model(*rule, cascade_version@) {
                None => r is Ok,
                Some(set) => (r is Ok <==> exists|i: int|
                    0 <= i < set.len() && #[trigger] set[i] == norm_key(res_str@)),
            },
        },
        r matches Err(e) ==> e matches AppError::BadRequest(m) && m@ == unsupported_resolution_message(
            res_str@,
        ),
{
    let rule = match db_rule {
        None => return Ok(()),
        Some(r) => r,
    };
    let set = match cascade_billing_enabled_resolutions(rule, cascade_version) {
        None => return Ok(()),
        Some(e) => e,
    };
    let ghost sv = set.deep_view();
    let key = trim_lower_chars(res_str);
    let mut i: usize = 0;
    while i < set.len()
        invariant
            i <= set@.len(),
            sv == set.deep_view(),
            sv.len() == set@.len(),
            db_rule == Some(rule),
            enabled_resolutions_model(*rule, cascade_version@) == Some(sv),
            key@ == norm_key(res_str@),
            forall|j: int| 0 <= j < i ==> sv[j] != key@,
        decreases set.len() - i,
    {
        assert(sv[i as int] == set@[i as int]@);
        let c = chars_of(set[i].as_str());
        if crate::text::chars_eq(c.as_slice(), key.as_slice()) {
            proof {
                let w = i as int;
                assert(0 <= w < sv.len() && sv[w] == norm_key(res_str@));
                let setm = enabled_resolutions_model(*rule, cascade_version@)->0;
                assert(setm == sv);
                assert(exists|k: int| 0 <= k < setm.len() && #[trigger] setm[k] == norm_key(res_str@));
            }
            return Ok(());
        }
        i = i + 1;
    }
    let mut m = to_owned_string("当前分辨率 ");
    let t = trim_string(res_str);
    string_append(&mut m, t.as_str());
    string_append(&mut m, " 不支持");
    Err(AppError::BadRequest(m))
}

// ───────────────────────── resolutions enabled by billing ─────────────────────────

/// The fields of a model's billing rule that decide which resolutions it
/// prices: its billing type, extended configuration (JSON object) and
/// pricing tiers (JSON array).
pub struct BillingRule {
    pub billing_type: String,
    pub extended_config: String,
    pub pricing_tiers: String,
}

/// The resolution rate keys that name a resolution, lower-cased.
pub open spec fn rates_seq(keys: Seq<Seq<char>>) -> Seq<Seq<char>>
    decreases keys.len(),
{
    if keys.len() == 0 {
        Seq::empty()
    } else {
        rates_seq(keys.drop_last()) + if is_res_model(keys.last()) {
            seq![ascii_lower(keys.last())]
        } else {
            Seq::empty()
        }
    }
}

/// A price-table key (lower-cased) read as `version|resolution|..` or
/// `attribute|resolution`: whether it prices a resolution, and the
/// resolution it enables for `version` (any version when empty).
#[verifier::opaque]
pub open spec fn pt_classify(lower: Seq<char>, version: Seq<char>) -> (bool, Option<Seq<char>>) {
    match split_once_model(lower, '|') {
        None => (false, None),
        Some((p0, rest)) => {
            let p1 = match split_once_model(rest, '|') {
                Some((a, _)) => a,
                None => rest,
            };
            let two = split_once_model(rest, '|') is None;
            if enhance_pair_model(p0) is Some && is_res_model(p1) {
                (
                    true,
                    if version.len() == 0 || eq_ignore_case(p0, version) {
                        Some(p1)
                    } else {
                        None
                    },
                )
            } else if two && enhance_pair_model(p0) is None && is_res_model(p1) {
                (true, Some(p1))
            } else {
                (false, None)
            }
        },
    }
}

/// A price-table key that the disabled list switches off.
pub open spec fn is_disabled(items: Seq<Option<Seq<char>>>, lower: Seq<char>) -> bool {
    exists|i: int| 0 <= i < items.len() && (#[trigger] items[i] matches Some(s) && ascii_lower(s) == lower)
}

/// The resolutions the price-table keys enable.
pub open spec fn price_seq(keys: Seq<Seq<char>>, version: Seq<char>, disabled: Seq<Option<Seq<char>>>) -> Seq<
    Seq<char>,
>
    decreases keys.len(),
{
    if keys.len() == 0 {
        Seq::empty()
    } else {
        let lower = ascii_lower(keys.last());
        price_seq(keys.drop_last(), version, disabled) + match pt_classify(lower, version).1 {
            Some(r) => if !is_disabled(disabled, lower) {
                seq![r]
            } else {
                Seq::empty()
            },
            None => Seq::empty(),
        }
    }
}

/// Some price-table key prices a resolution.
pub open spec fn price_has(keys: Seq<Seq<char>>, version: Seq<char>) -> bool {
    exists|i: int| 0 <= i < keys.len() && pt_classify(ascii_lower(#[trigger] keys[i]), version).0
}

/// The JSON pointer of a field of tier `i`.
pub open spec fn tier_ptr(i: nat, field: Seq<char>) -> Seq<char> {
    "/"@ + dec_string(i) + field
}

/// The resolutions the first `n` pricing tiers enable (a tier is enabled
/// unless it says otherwise).
pub open spec fn tiers_seq(tiers: Seq<char>, n: nat) -> Seq<Seq<char>>
    decreases n,
{
    if n == 0 {
        Seq::empty()
    } else {
        let i = (n - 1) as nat;
        tiers_seq(tiers, i) + match json_pointer_text(tiers, tier_ptr(i, "/resolution"@)) {
            Some(r) => if is_res_model(r) && match json_pointer_boolean(tiers, tier_ptr(i, "/enabled"@)) {
                Some(b) => b,
                None => true,
            } {
                seq![norm_key(r)]
            } else {
                Seq::empty()
            },
            None => Seq::empty(),
        }
    }
}

/// Some of the first `n` pricing tiers names a resolution.
pub open spec fn tiers_has(tiers: Seq<char>, n: nat) -> bool {
    exists|i: nat| i < n && (json_pointer_text(tiers, #[trigger] tier_ptr(i, "/resolution"@)) matches Some(r)
        && is_res_model(r))
}

/// An empty JSON object or array text.
pub open spec fn unset(s: Seq<char>, empty: Seq<char>) -> bool {
    s.len() == 0 || s == empty
}

/// The resolutions a billing rule enables for `version`, when it prices by
/// resolution at all: resolution rates, price-table keys not disabled, and
/// enabled pricing tiers.  Per-request billing and an empty rule price no
/// resolution.
pub open spec fn enabled_resolutions_model(rule: BillingRule, version: Seq<char>) -> Option<Seq<Seq<char>>> {
    let ext = rule.extended_config@;
    let tiers = rule.pricing_tiers@;
    if eq_ignore_case(rule.billing_type@, "requests"@) {
        None
    } else if unset(ext, "{}"@) && unset(tiers, "[]"@) {
        None
    } else {
        let rates = json_object_keys_at(ext, "/resolution_rates"@);
        let rate_part = match rates {
            Some(k) => rates_seq(k),
            None => Seq::empty(),
        };
        let pt = json_object_keys_at(ext, "/price_table"@);
        let disabled = match json_array_strings_at(ext, "/price_table_disabled"@) {
            Some(d) => d,
            None => Seq::empty(),
        };
        let price_part = match pt {
            Some(k) => price_seq(k, version, disabled),
            None => Seq::empty(),
        };
        let n: nat = if !unset(tiers, "[]"@) {
            match json_array_len_at(tiers, ""@) {
                Some(n) => n,
                None => 0,
            }
        } else {
            0
        };
        let priced = rates is Some || (pt matches Some(k) && price_has(k, version)) || tiers_has(tiers, n);
        if priced {
            Some(rate_part + price_part + tiers_seq(tiers, n))
        } else {
            None
        }
    }
}

fn rates_part(keys: &Vec<String>) -> (r: Vec<String>)
    ensures
        r.deep_view() == rates_seq(keys.deep_view()),
{
    let ghost d = keys.deep_view();
    let mut out: Vec<String> = Vec::new();
    let mut i: usize = 0;
    while i < keys.len()
        invariant
            i <= keys@.len(),
            d == keys.deep_view(),
            d.len() == keys@.len(),
            out.deep_view() == rates_seq(d.subrange(0, i as int)),
        decreases keys.len() - i,
    {
        assert(d.subrange(0, i + 1).drop_last() =~= d.subrange(0, i as int));
        assert(d[i as int] == keys@[i as int]@);
        let k = keys[i].as_str();
        if cascade_is_res(k) {
            let v = chars_of(k);
            let l = chars_ascii_lower(v.as_slice());
            let ghost before = out.deep_view();
            out.push(string_from_chars(l.as_slice()));
            assert(out.deep_view() =~= before + seq![ascii_lower(d[i as int])]);
        } else {
            assert(rates_seq(d.subrange(0, i + 1)) =~= rates_seq(d.subrange(0, i as int)));
        }
        i = i + 1;
    }
    assert(d.subrange(0, d.len() as int) =~= d);
    out
}

fn classify_key(lower: &[char], version: &str) -> (r: (bool, Option<Vec<char>>))
    ensures
        r.0 == pt_classify(lower@, version@).0,
        match r.1 {
            Some(v) => pt_classify(lower@, version@).1 == Some(v@),
            None => pt_classify(lower@, version@).1 is None,
        },
{
    proof {
        reveal(pt_classify);
    }
    let (p0, rest) = match split_once_at(lower, '|') {
        Some(p) => p,
        None => return (false, None),
    };
    let second = split_once_at(rest.as_slice(), '|');
    let two = second.is_none();
    let p1: Vec<char> = match second {
        Some((a, _)) => a,
        None => rest,
    };
    let s0 = string_from_chars(p0.as_slice());
    let s1 = string_from_chars(p1.as_slice());
    let is_ver = cascade_is_version(s0.as_str());
    let is_r = cascade_is_res(s1.as_str());
    if is_ver && is_r {
        let vv = chars_of(version);
        if vv.len() == 0 || chars_eq_ignore_case(p0.as_slice(), vv.as_slice()) {
            (true, Some(p1))
        } else {
            (true, None)
        }
    } else if two && !is_ver && is_r {
        (true, Some(p1))
    } else {
        (false, None)
    }
}

fn disabled_contains(items: &Vec<Option<String>>, lower: &[char]) -> (r: bool)
    ensures
        r == is_disabled(items.deep_view(), lower@),
{
    let ghost d = items.deep_view();
    let mut i: usize = 0;
    while i < items.len()
        invariant
            i <= items@.len(),
            d == items.deep_view(),
            d.len() == items@.len(),
            forall|k: int| 0 <= k < i ==> !(#[trigger] d[k] matches Some(s) && ascii_lower(s) == lower@),
        decreases items.len() - i,
    {
        match &items[i] {
            Some(s) => {
                assert(d[i as int] == Some(s@));
                let v = chars_of(s.as_str());
                let l = chars_ascii_lower(v.as_slice());
                if crate::text::chars_eq(l.as_slice(), lower) {
                    return true;
                }
            },
            None => {
                assert(d[i as int] is None);
            },
        }
        i = i + 1;
    }
    false
}

fn price_part(keys: &Vec<String>, version: &str, disabled: &Vec<Option<String>>) -> (r: (bool, Vec<String>))
    ensures
        r.0 == price_has(keys.deep_view(), version@),
        r.1.deep_view() == price_seq(keys.deep_view(), version@, disabled.deep_view()),
{
    let ghost d = keys.deep_view();
    let ghost dis = disabled.deep_view();
    let mut out: Vec<String> = Vec::new();
    let mut priced = false;
    let mut i: usize = 0;
    while i < keys.len()
        invariant
            i <= keys@.len(),
            d == keys.deep_view(),
            dis == disabled.deep_view(),
            d.len() == keys@.len(),
            out.deep_view() == price_seq(d.subrange(0, i as int), version@, dis),
            priced == exists|k: int| 0 <= k < i && pt_classify(ascii_lower(#[trigger] d[k]), version@).0,
        decreases keys.len() - i,
    {
        assert(d.subrange(0, i + 1).drop_last() =~= d.subrange(0, i as int));
        assert(d[i as int] == keys@[i as int]@);
        let v = chars_of(keys[i].as_str());
        let lower = chars_ascii_lower(v.as_slice());
        let (m, res) = classify_key(lower.as_slice(), version);
        let ghost old_priced = priced;
        if m {
            priced = true;
        }
        proof {
            if m {
                assert(pt_classify(ascii_lower(d[i as int]), version@).0);
            }
            assert(priced == exists|k: int| 0 <= k < i + 1 && pt_classify(ascii_lower(#[trigger] d[k]), version@).0)
                by {
                if !priced {
                    assert forall|k: int| 0 <= k < i + 1 implies !pt_classify(ascii_lower(#[trigger] d[k]), version@).0 by {
                        if k < i {
                        } else {
                        }
                    }
                }
            }
        }
        match res {
            Some(rv) => {
                if !disabled_contains(disabled, lower.as_slice()) {
                    let ghost before = out.deep_view();
                    out.push(string_from_chars(rv.as_slice()));
                    assert(out.deep_view() =~= before + seq![rv@]);
                } else {
                    assert(price_seq(d.subrange(0, i + 1), version@, dis) =~= price_seq(
                        d.subrange(0, i as int),
                        version@,
                        dis,
                    ));
                }
            },
            None => {
                assert(price_seq(d.subrange(0, i + 1), version@, dis) =~= price_seq(
                    d.subrange(0, i as int),
                    version@,
                    dis,
                ));
            },
        }
        i = i + 1;
    }
    assert(d.subrange(0, d.len() as int) =~= d);
    (priced, out)
}

fn tier_pointer(i: usize, field: &str) -> (r: String)
    ensures
        r@ == tier_ptr(i as nat, field@),
{
    let mut s = to_owned_string("/");
    push_u64(&mut s, i as u64);
    string_append(&mut s, field);
    s
}

fn tiers_part(tiers: &str, n: usize) -> (r: (bool, Vec<String>))
    ensures
        r.0 == tiers_has(tiers@, n as nat),
        r.1.deep_view() == tiers_seq(tiers@, n as nat),
{
    let mut out: Vec<String> = Vec::new();
    let mut priced = false;
    let mut i: usize = 0;
    while i < n
        invariant
            i <= n,
            out.deep_view() == tiers_seq(tiers@, i as nat),
            priced == tiers_has(tiers@, i as nat),
        decreases n - i,
    {
        let rp = tier_pointer(i, "/resolution");
        let ep = tier_pointer(i, "/enabled");
        let ghost old_priced = priced;
        match json_pointer_str(tiers, rp.as_str()) {
            Some(r) => {
                if cascade_is_res(r.as_str()) {
                    priced = true;
                    let en = match json_pointer_bool(tiers, ep.as_str()) {
                        Some(b) => b,
                        None => true,
                    };
                    if en {
                        let k = trim_lower_chars(r.as_str());
                        let ghost before = out.deep_view();
                        out.push(string_from_chars(k.as_slice()));
                        assert(out.deep_view() =~= before + seq![norm_key(r@)]);
                    } else {
                        assert(tiers_seq(tiers@, (i + 1) as nat) =~= tiers_seq(tiers@, i as nat));
                    }
                } else {
                    assert(tiers_seq(tiers@, (i + 1) as nat) =~= tiers_seq(tiers@, i as nat));
                }
            },
            None => {
                assert(tiers_seq(tiers@, (i + 1) as nat) =~= tiers_seq(tiers@, i as nat));
            },
        }
        proof {
            let j = i as nat;
            if priced && !old_priced {
                assert(json_pointer_text(tiers@, tier_ptr(j, "/resolution"@)) matches Some(r) && is_res_model(r));
            }
            assert(priced == tiers_has(tiers@, (i + 1) as nat)) by {
                if !priced {
                    assert forall|k: nat| k < i + 1 implies !(json_pointer_text(tiers@, #[trigger] tier_ptr(k, "/resolution"@)) matches Some(r)
                        && is_res_model(r)) by {
                        if k < i {
                            assert(!tiers_has(tiers@, i as nat));
                        }
                    }
                }
            }
        }
        i = i + 1;
    }
    (priced, out)
}

/// The resolutions a billing rule enables for `cascade_version` (see
/// [`enabled_resolutions_model`]); `None` when the rule does not price by
/// resolution.
pub fn cascade_billing_enabled_resolutions(rule: &BillingRule, cascade_version: &str) -> (r: Option<Vec<String>>)
    ensures
        r.deep_view() == enabled_resolutions_model(*rule, cascade_version@),
{
    let bt = chars_of(rule.billing_type.as_str());
    let rq = chars_of("requests");
    if chars_eq_ignore_case(bt.as_slice(), rq.as_slice()) {
        return None;
    }
    let ext = rule.extended_config.as_str();
    let tiers = rule.pricing_tiers.as_str();
    let ext_unset = ext.is_empty() || str_eq(ext, "{}");
    let tiers_unset = tiers.is_empty() || str_eq(tiers, "[]");
    if ext_unset && tiers_unset {
        return None;
    }
    let rates = json_object_keys(ext, "/resolution_rates");
    let rate_out: Vec<String> = match &rates {
        Some(k) => rates_part(k),
        None => Vec::new(),
    };
    assert(rate_out.deep_view() =~= match json_object_keys_at(ext@, "/resolution_rates"@) {
        Some(k) => rates_seq(k),
        None => Seq::empty(),
    });
    let pt = json_object_keys(ext, "/price_table");
    let disabled: Vec<Option<String>> = match json_array_strings(ext, "/price_table_disabled") {
        Some(d) => d,
        None => Vec::new(),
    };
    assert(disabled.deep_view() =~= match json_array_strings_at(ext@, "/price_table_disabled"@) {
        Some(d) => d,
        None => Seq::empty(),
    });
    let (pt_has, price_out) = match &pt {
        Some(k) => price_part(k, cascade_version, &disabled),
        None => (false, Vec::new()),
    };
    assert(price_out.deep_view() =~= match json_object_keys_at(ext@, "/price_table"@) {
        Some(k) => price_seq(k, cascade_version@, disabled.deep_view()),
        None => Seq::empty(),
    });
    assert(pt_has == (json_object_keys_at(ext@, "/price_table"@) matches Some(k) && price_has(
        k,
        cascade_version@,
    )));
    let n: usize = if !tiers_unset {
        match json_array_len(tiers, "") {
            Some(n) => n,
            None => 0,
        }
    } else {
        0
    };
    let (t_has, tier_out) = tiers_part(tiers, n);
    let priced = rates.is_some() || pt_has || t_has;
    if !priced {
        return None;
    }
    let mut all = rate_out;
    let mut price_out = price_out;
    let mut tier_out = tier_out;
    let ghost a = all.deep_view();
    let ghost b = price_out.deep_view();
    let ghost c = tier_out.deep_view();
    all.append(&mut price_out);
    assert(all.deep_view() =~= a + b);
    all.append(&mut tier_out);
    assert(all.deep_view() =~= a + b + c);
    Some(all)
}

} // verus!
