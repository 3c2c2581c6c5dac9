//! Cascade documents edited as JSON trees: the enhancement request's
//! resolution parameter, stage one's response aligned with stage two's
//! output, the plugin tag cleaned for users, and the combined record of both
//! stages.
use vstd::prelude::*;
use crate::cascade::{cascade_resolve_target_resolution, norm_key, target_resolution_model};
use crate::json_tree::{
    item_views, jget, jobject, jstr, lemma_get_without, member_views, patch_fields, patched,
    replace_exact_string, url_replaced, with_member, without_member, JsonValue, JsonView,
};
use crate::text::{
    ascii_lower, chars_ascii_lower, chars_eq_ignore_case, chars_is, chars_of, contains, eq_ignore_case,
    slice_range, str_contains, str_eq, string_append, string_from_chars, to_lowercase, to_owned_string, trim,
    trim_vec, unicode_lower,
};

verus! {

/// Overwrites the string and number fields named in the patches wherever
/// they exist in `value` (see [`patched`]); nothing is added.
pub fn patch_json_fields_by_key(value: &mut JsonValue, str_patches: &[(&str, &str)], num_patches: &[(&str, i64)])
    ensures
        final(value)@ == patched(old(value)@, str_patches.deep_view(), num_patches.deep_view()),
{
    let out = patch_fields(value, str_patches, num_patches);
    *value = out;
}

/// Replaces every string equal to `old_url` by `new_url` at any depth; an
/// empty URL on either side changes nothing.
pub fn replace_exact_url_in_json(value: &mut JsonValue, old_url: &str, new_url: &str)
    ensures
        final(value)@ == (if old_url@.len() == 0 || new_url@.len() == 0 {
            old(value)@
        } else {
            url_replaced(old(value)@, old_url@, new_url@)
        }),
{
    if old_url.is_empty() || new_url.is_empty() {
        return;
    }
    let out = replace_exact_string(value, old_url, new_url);
    *value = out;
}

/// The request of an enhancement with its resolution parameter set: for a
/// model other than `vve-gt` asked for 480p, the pixel limit
/// `resolution_limit` = 496 (locking standard 480p); otherwise the
/// resolution itself, trimmed and in lower case.  Both parameters are
/// removed first; a payload that is no object is left alone.
pub open spec fn resolution_param_model(payload: JsonView, target_res: Seq<char>, mid: Seq<char>) -> JsonView {
    if payload is Object {
        let cleared = without_member(without_member(payload, "resolution"@), "resolution_limit"@);
        let res = norm_key(target_res);
        if !eq_ignore_case(trim(mid), "vve-gt"@) && res == "480p"@ {
            with_member(cleared, "resolution_limit"@, JsonView::Number("496"@))
        } else {
            with_member(cleared, "resolution"@, JsonView::Str(res))
        }
    } else {
        payload
    }
}

/// Sets the resolution parameter of a stage two request (see
/// [`resolution_param_model`]).
pub fn cascade_s2_apply_resolution_param(payload: &mut JsonValue, target_res: &str, mid: &str)
    ensures
        final(payload)@ == resolution_param_model(old(payload)@, target_res@, mid@),
{
    if !payload.is_object() {
        return;
    }
    payload.remove_member("resolution");
    payload.remove_member("resolution_limit");
    let res_chars = chars_ascii_lower(trim_vec(chars_of(target_res).as_slice()).as_slice());
    let res = string_from_chars(res_chars.as_slice());
    let m = trim_vec(chars_of(mid).as_slice());
    let is_gt = chars_eq_ignore_case(m.as_slice(), chars_of("vve-gt").as_slice());
    if !is_gt && str_eq(res.as_str(), "480p") {
        payload.insert_member("resolution_limit", JsonValue::Number(to_owned_string("496")));
    } else {
        payload.insert_member("resolution", JsonValue::Str(res));
    }
}

/// The members of a plugin tag's `cascade` object that must not reach
/// users: the key, address and identity of the upstream channel.
pub open spec fn secret_keys() -> Seq<Seq<char>> {
    seq!["api_key"@, "base_url"@, "ch_name"@, "ch_id"@, "mid"@]
}

/// `c` without the secret members.
pub open spec fn scrubbed(c: JsonView) -> JsonView {
    without_member(
        without_member(without_member(without_member(without_member(c, "api_key"@), "base_url"@), "ch_name"@), "ch_id"@),
        "mid"@,
    )
}

/// The cascade settings of a plugin tag hold a secret member.
pub open spec fn holds_secret(c: JsonView) -> bool {
    jget(c, "api_key"@) is Some || jget(c, "base_url"@) is Some || jget(c, "ch_name"@) is Some || jget(
        c,
        "ch_id"@,
    ) is Some || jget(c, "mid"@) is Some
}

/// The plugin tag as users may see it, when cleaning changes it: a tag
/// whose text mentions `"cascade"` and whose `cascade` object holds a
/// secret member loses those members; otherwise `None` (the tag stays).
pub open spec fn scrub_model(plugin_tag: Option<Seq<char>>, parsed: Option<JsonView>) -> Option<JsonView> {
    match (plugin_tag, parsed) {
        (Some(raw), Some(tag)) => if contains(raw, "\"cascade\""@) {
            match jget(tag, "cascade"@) {
                Some(c) => if c is Object && holds_secret(c) {
                    Some(with_member(tag, "cascade"@, scrubbed(c)))
                } else {
                    None
                },
                None => None,
            }
        } else {
            None
        },
        _ => None,
    }
}

/// Cleans a plugin tag for users (see [`scrub_model`]): `plugin_tag` is the
/// stored text, `parsed` that text parsed.  `Some` carries the tag to store
/// in its place; `None` means nothing was removed.
pub fn cascade_scrub_plugin_tag_for_user(plugin_tag: Option<&str>, parsed: Option<JsonValue>) -> (r: Option<
    JsonValue,
>)
    ensures
        match r {
            Some(t) => scrub_model(
                match plugin_tag {
                    Some(s) => Some(s@),
                    None => None,
                },
                match parsed {
                    Some(p) => Some(p@),
                    None => None,
                },
            ) == Some(t@),
            None => scrub_model(
                match plugin_tag {
                    Some(s) => Some(s@),
                    None => None,
                },
                match parsed {
                    Some(p) => Some(p@),
                    None => None,
                },
            ) is None,
        },
{
    let raw = match plugin_tag {
        Some(r) => r,
        None => return None,
    };
    if !str_contains(raw, "\"cascade\"") {
        return None;
    }
    let mut tag = match parsed {
        Some(t) => t,
        None => return None,
    };
    let mut c = match tag.get("cascade") {
        Some(c) => c.duplicate(),
        None => return None,
    };
    if !c.is_object() {
        return None;
    }
    let a = c.remove_member("api_key");
    let b = c.remove_member("base_url");
    let n = c.remove_member("ch_name");
    let i = c.remove_member("ch_id");
    let m = c.remove_member("mid");
    proof {
        lemma_without_keeps_others(jget(tag@, "cascade"@)->0);
    }
    if !(a || b || n || i || m) {
        return None;
    }
    tag.insert_member("cascade", c);
    Some(tag)
}

/// The five removals together remove something exactly when the cascade
/// settings held a secret member.
proof fn lemma_without_keeps_others(c: JsonView)
    requires
        c is Object,
    ensures
        holds_secret(c) == (jget(c, "api_key"@) is Some || jget(without_member(c, "api_key"@), "base_url"@) is Some
            || jget(without_member(without_member(c, "api_key"@), "base_url"@), "ch_name"@) is Some || jget(
            without_member(without_member(without_member(c, "api_key"@), "base_url"@), "ch_name"@),
            "ch_id"@,
        ) is Some || jget(
            without_member(without_member(without_member(without_member(c, "api_key"@), "base_url"@), "ch_name"@), "ch_id"@),
            "mid"@,
        ) is Some),
{
    reveal_strlit("api_key");
    reveal_strlit("base_url");
    reveal_strlit("ch_name");
    reveal_strlit("ch_id");
    reveal_strlit("mid");
    assert("api_key"@.len() == 7 && "base_url"@.len() == 8 && "ch_name"@.len() == 7);
    assert("ch_id"@.len() == 5 && "mid"@.len() == 3);
    assert("api_key"@[0] != "ch_name"@[0]);
    let c1 = without_member(c, "api_key"@);
    let c2 = without_member(c1, "base_url"@);
    let c3 = without_member(c2, "ch_name"@);
    lemma_get_without(c, "api_key"@, "base_url"@);
    lemma_get_without(c, "api_key"@, "ch_name"@);
    lemma_get_without(c1, "base_url"@, "ch_name"@);
    lemma_get_without(c, "api_key"@, "ch_id"@);
    lemma_get_without(c1, "base_url"@, "ch_id"@);
    lemma_get_without(c2, "ch_name"@, "ch_id"@);
    lemma_get_without(c, "api_key"@, "mid"@);
    lemma_get_without(c1, "base_url"@, "mid"@);
    lemma_get_without(c2, "ch_name"@, "mid"@);
    lemma_get_without(c3, "ch_id"@, "mid"@);
}


/// The view of an optional parsed value.
pub open spec fn parsed_view(o: Option<JsonValue>) -> Option<JsonView> {
    match o {
        Some(v) => Some(v@),
        None => None,
    }
}

/// `{"stage1": s1, "stage2": s2}`.
pub open spec fn stages_view(s1: JsonView, s2: JsonView) -> JsonView {
    JsonView::Object(seq![("stage1"@, s1), ("stage2"@, s2)])
}

/// The record of both stages (see [`stages_view`]): stage two's raw
/// response is kept as JSON when it parses (`s2_parsed`, that text parsed),
/// else as a string.
pub fn cascade_combine_stages(s1: JsonValue, s2_raw: &str, s2_parsed: Option<JsonValue>) -> (r: JsonValue)
    ensures
        r@ == stages_view(
            s1@,
            match parsed_view(s2_parsed) {
                Some(p) => p,
                None => JsonView::Str(s2_raw@),
            },
        ),
{
    let ghost want2 = match parsed_view(s2_parsed) {
        Some(p) => p,
        None => JsonView::Str(s2_raw@),
    };
    let s2 = match s2_parsed {
        Some(p) => p,
        None => JsonValue::Str(to_owned_string(s2_raw)),
    };
    let ghost v1 = s1@;
    let ghost v2 = s2@;
    assert(v2 == want2);
    let mut m: Vec<(String, JsonValue)> = Vec::new();
    m.push((to_owned_string("stage1"), s1));
    m.push((to_owned_string("stage2"), s2));
    let r = jobject(m);
    assert(member_views(m@) =~= seq![("stage1"@, v1), ("stage2"@, v2)]);
    r
}

/// Stage one's output and stage two's request together for the log (see
/// [`stages_view`]); `None` when stage one's output was not logged (empty).
/// `s1_parsed` is `s1_raw` parsed; output that does not parse counts as
/// `{}`.
pub fn cascade_upstream_req_combined(s1_raw: &str, s1_parsed: Option<JsonValue>, s2: JsonValue) -> (r: Option<JsonValue>)
    ensures
        s1_raw@.len() == 0 ==> r is None,
        s1_raw@.len() > 0 ==> (r matches Some(v) && v@ == stages_view(
            match parsed_view(s1_parsed) {
                Some(p) => p,
                None => JsonView::Object(Seq::empty()),
            },
            s2@,
        )),
{
    if s1_raw.is_empty() {
        return None;
    }
    let ghost want1 = match parsed_view(s1_parsed) {
        Some(p) => p,
        None => JsonView::Object(Seq::empty()),
    };
    let s1 = match s1_parsed {
        Some(p) => p,
        None => {
            let e = jobject(Vec::new());
            assert(member_views(Seq::<(String, JsonValue)>::empty()) =~= Seq::empty());
            e
        },
    };
    assert(s1@ == want1);
    let ghost v1 = s1@;
    let ghost v2 = s2@;
    let mut m: Vec<(String, JsonValue)> = Vec::new();
    m.push((to_owned_string("stage1"), s1));
    m.push((to_owned_string("stage2"), s2));
    let r = jobject(m);
    assert(member_views(m@) =~= seq![("stage1"@, v1), ("stage2"@, v2)]);
    Some(r)
}


// ───────────────────────── stage one shown with stage two's output ─────────────────────────

/// Stage one's response as shown once the cascade has finished: with no
/// output URL from stage two it is unchanged.  Otherwise stage two's URL
/// takes the place of stage one's (or, where stage one had none, of every
/// existing `video_url` string), the existing `resolution` strings become
/// the target resolution and the existing `framespersecond` / `fps` numbers
/// stage two's frame rate; where both stages have a last frame, stage two's
/// replaces stage one's.
pub open spec fn s1_with_s2_model(
    s1: JsonView,
    old_url: Seq<char>,
    new_url: Seq<char>,
    target_res: Seq<char>,
    fps: i64,
    frames: Option<(Seq<char>, Seq<char>)>,
) -> JsonView {
    if new_url.len() == 0 {
        s1
    } else {
        let a = if old_url.len() > 0 {
            url_replaced(s1, old_url, new_url)
        } else {
            patched(s1, seq![("video_url"@, new_url)], Seq::empty())
        };
        let b = patched(
            a,
            seq![("resolution"@, target_res)],
            seq![("framespersecond"@, fps), ("fps"@, fps)],
        );
        match frames {
            Some(f) => if f.0.len() == 0 || f.1.len() == 0 {
                b
            } else {
                url_replaced(b, f.0, f.1)
            },
            None => b,
        }
    }
}

/// The view of a pair of optional frame URLs.
pub open spec fn frames_view(f: Option<(&str, &str)>) -> Option<(Seq<char>, Seq<char>)> {
    match f {
        Some(p) => Some((p.0@, p.1@)),
        None => None,
    }
}

/// Stage one's response aligned with stage two's output (see
/// [`s1_with_s2_model`]).  `old_url` and `new_url` are the first output URL
/// found in each stage's response (empty when none), `s2_fps` stage two's
/// frame rate (60 when it states none), `last_frames` the last-frame URLs of
/// both stages when both have one; the target resolution is read from the
/// plugin tag (see [`target_resolution_model`]).
pub fn cascade_s1_with_s2_url(
    s1: &JsonValue,
    old_url: &str,
    new_url: &str,
    plugin_tag: &str,
    s2_fps: Option<i64>,
    last_frames: Option<(&str, &str)>,
) -> (r: JsonValue)
    ensures
        r@ == s1_with_s2_model(
            s1@,
            old_url@,
            new_url@,
            target_resolution_model(plugin_tag@, ""@),
            match s2_fps {
                Some(f) => f,
                None => 60,
            },
            frames_view(last_frames),
        ),
{
    let mut out = s1.duplicate();
    if new_url.is_empty() {
        return out;
    }
    if !old_url.is_empty() {
        replace_exact_url_in_json(&mut out, old_url, new_url);
    } else {
        let sp = [("video_url", new_url)];
        let np: [(&str, i64); 0] = [];
        assert(sp.deep_view() =~= seq![("video_url"@, new_url@)]);
        assert(np.deep_view() =~= Seq::<(Seq<char>, i64)>::empty());
        patch_json_fields_by_key(&mut out, &sp, &np);
    }
    let target_res = cascade_resolve_target_resolution(plugin_tag, "");
    let fps: i64 = match s2_fps {
        Some(f) => f,
        None => 60,
    };
    let sp2 = [("resolution", target_res.as_str())];
    let np2 = [("framespersecond", fps), ("fps", fps)];
    assert(sp2.deep_view() =~= seq![("resolution"@, target_res@)]);
    assert(np2.deep_view() =~= seq![("framespersecond"@, fps), ("fps"@, fps)]);
    patch_json_fields_by_key(&mut out, &sp2, &np2);
    if let Some((old_frame, new_frame)) = last_frames {
        replace_exact_url_in_json(&mut out, old_frame, new_frame);
    }
    out
}


// ───────────────────────── standard 480p before upscaling ─────────────────────────

/// Member `key` of an object when it is a string that is not blank,
/// trimmed.
pub open spec fn root_text(v: JsonView, key: Seq<char>) -> Option<Seq<char>> {
    match jstr(jget(v, key)) {
        Some(s) => if trim(s).len() > 0 {
            Some(trim(s))
        } else {
            None
        },
        None => None,
    }
}

/// The `ratio` of the first hint that states one, from hint `i` on.
pub open spec fn hint_ratio(hints: Seq<JsonView>, i: int) -> Option<Seq<char>>
    decreases hints.len() - i,
{
    if i < 0 || i >= hints.len() {
        None
    } else {
        match root_text(hints[i], "ratio"@) {
            Some(r) => Some(r),
            None => hint_ratio(hints, i + 1),
        }
    }
}

/// The crop (top-left x, y, bottom-right x, y) that makes stage one's
/// video standard 480p before it is upscaled: only for a 720p target, only
/// when stage one does not report a resolution other than 480p, and only
/// for the ratios 16:9 and 9:16 (stage one's `ratio`, else the first hint
/// that states one).  `None` keeps the video as it is.
pub open spec fn crop_model(s1: JsonView, target: Seq<char>, hints: Seq<JsonView>) -> Option<(i32, i32, i32, i32)> {
    if !eq_ignore_case(target, "720p"@) {
        None
    } else if (match root_text(s1, "resolution"@) {
        Some(r) => !eq_ignore_case(r, "480p"@),
        None => false,
    }) {
        None
    } else {
        let ratio = match root_text(s1, "ratio"@) {
            Some(r) => Some(r),
            None => hint_ratio(hints, 0),
        };
        match ratio {
            Some(r) => if r == "16:9"@ {
                Some((2, 6, 862, 490))
            } else if r == "9:16"@ {
                Some((6, 2, 490, 862))
            } else {
                None
            },
            None => None,
        }
    }
}

/// [`root_text`] of a value, as characters.
fn root_text_of(v: &JsonValue, key: &str) -> (r: Option<Vec<char>>)
    ensures
        match root_text(v@, key@) {
            Some(t) => r matches Some(c) && c@ == t,
            None => r is None,
        },
{
    match v.get(key) {
        Some(x) => match x.as_str() {
            Some(s) => {
                let t = trim_vec(chars_of(s).as_slice());
                if t.len() > 0 {
                    Some(t)
                } else {
                    None
                }
            },
            None => None,
        },
        None => None,
    }
}

/// The crop that makes stage one's video standard 480p before upscaling
/// (see [`crop_model`]); `field_hints` are further request values that may
/// state the ratio.
pub fn cascade_standard_480p_crop(stage1_resp: &JsonValue, target_resolution: &str, field_hints: &[JsonValue]) -> (r:
    Option<(i32, i32, i32, i32)>)
    ensures
        r == crop_model(stage1_resp@, target_resolution@, item_views(field_hints@)),
{
    let want = chars_of("720p");
    if !chars_eq_ignore_case(chars_of(target_resolution).as_slice(), want.as_slice()) {
        return None;
    }
    if let Some(res) = root_text_of(stage1_resp, "resolution") {
        let p480 = chars_of("480p");
        if !chars_eq_ignore_case(res.as_slice(), p480.as_slice()) {
            return None;
        }
    }
    let ghost hs = item_views(field_hints@);
    let ratio = match root_text_of(stage1_resp, "ratio") {
        Some(r) => Some(r),
        None => {
            let mut found: Option<Vec<char>> = None;
            let mut i: usize = 0;
            while i < field_hints.len()
                invariant_except_break
                    i <= field_hints@.len(),
                    hs == item_views(field_hints@),
                    found is None,
                    hint_ratio(hs, 0) == hint_ratio(hs, i as int),
                ensures
                    match hint_ratio(hs, 0) {
                        Some(t) => found matches Some(c) && c@ == t,
                        None => found is None,
                    },
                decreases field_hints.len() - i,
            {
                if let Some(t) = root_text_of(&field_hints[i], "ratio") {
                    found = Some(t);
                    break;
                }
                i = i + 1;
            }
            found
        },
    };
    match ratio {
        Some(r) => {
            if chars_is(r.as_slice(), "16:9") {
                Some((2, 6, 862, 490))
            } else if chars_is(r.as_slice(), "9:16") {
                Some((6, 2, 490, 862))
            } else {
                None
            }
        },
        None => None,
    }
}

// ───────────────────────── stage one's task id ─────────────────────────

/// The plugin tag with `cascade.s1_task_id` set to `id`, the `cascade`
/// object made where it is missing; `None` when the tag, or its `cascade`
/// member, is not an object.
pub open spec fn sealed_tag(tag: JsonView, id: Seq<char>) -> Option<JsonView> {
    if tag is Object {
        let c = match jget(tag, "cascade"@) {
            Some(c) => c,
            None => JsonView::Object(Seq::empty()),
        };
        if c is Object {
            Some(with_member(tag, "cascade"@, with_member(c, "s1_task_id"@, JsonView::Str(id))))
        } else {
            None
        }
    } else {
        None
    }
}

/// Records stage one's upstream task id in the plugin tag (see
/// [`sealed_tag`]); `parsed_tag` is the stored tag parsed (`None`: no tag,
/// or one that does not parse, which counts as `{}`).  `None` when the id
/// is blank or the tag cannot hold it; the caller then keeps the tag and
/// issues no client task id.
pub fn cascade_seal_s1_task_id(parsed_tag: Option<JsonValue>, upstream_s1_id: &str) -> (r: Option<JsonValue>)
    ensures
        trim(upstream_s1_id@).len() == 0 ==> r is None,
        trim(upstream_s1_id@).len() > 0 ==> parsed_view(r) == sealed_tag(
            match parsed_view(parsed_tag) {
                Some(t) => t,
                None => JsonView::Object(Seq::empty()),
            },
            trim(upstream_s1_id@),
        ),
{
    let id = trim_vec(chars_of(upstream_s1_id).as_slice());
    if id.len() == 0 {
        return None;
    }
    let mut tag = match parsed_tag {
        Some(t) => t,
        None => {
            let e = jobject(Vec::new());
            assert(member_views(Seq::<(String, JsonValue)>::empty()) =~= Seq::empty());
            e
        },
    };
    if !tag.is_object() {
        return None;
    }
    let mut c = match tag.get("cascade") {
        Some(c) => c.duplicate(),
        None => {
            let e = jobject(Vec::new());
            assert(member_views(Seq::<(String, JsonValue)>::empty()) =~= Seq::empty());
            e
        },
    };
    if !c.is_object() {
        return None;
    }
    c.insert_member("s1_task_id", JsonValue::Str(string_from_chars(id.as_slice())));
    tag.insert_member("cascade", c);
    Some(tag)
}

/// The client task id of a cascade: `cgt-`, the local time stamp `ts`
/// (`YYYYMMDDHHmmss`), `-` and five characters (22nd to 26th) of a fresh
/// ULID in lower case.
pub open spec fn client_task_id_model(ts: Seq<char>, ulid: Seq<char>) -> Seq<char> {
    "cgt-"@ + ts + "-"@ + ascii_lower(ulid).subrange(21, 26)
}

/// Builds the client task id of a cascade (see [`client_task_id_model`])
/// from a time stamp and a ULID (26 ASCII characters).
pub fn cascade_client_task_id(ts: &str, ulid: &str) -> (r: String)
    requires
        ulid@.len() >= 26,
    ensures
        r@ == client_task_id_model(ts@, ulid@),
{
    let u = chars_ascii_lower(chars_of(ulid).as_slice());
    let tail = slice_range(u.as_slice(), 21, 26);
    let mut out = to_owned_string("cgt-");
    string_append(&mut out, ts);
    string_append(&mut out, "-");
    let t = string_from_chars(tail.as_slice());
    string_append(&mut out, t.as_str());
    proof {
        reveal_strlit("cgt-");
        reveal_strlit("-");
    }
    out
}

/// Stage one's response kept in a log's response content: the `stage1`
/// member of the logged JSON where there is one, else the whole logged
/// value; `{}` for no content or content that does not parse.
/// `parsed` is `log_response_content` parsed.
pub fn cascade_s1_json_from_log(log_response_content: &str, parsed: Option<JsonValue>) -> (r: JsonValue)
    ensures
        r@ == (if log_response_content@.len() == 0 {
            JsonView::Object(Seq::empty())
        } else {
            match parsed_view(parsed) {
                Some(p) => match jget(p, "stage1"@) {
                    Some(s) => s,
                    None => p,
                },
                None => JsonView::Object(Seq::empty()),
            }
        }),
{
    assert(member_views(Seq::<(String, JsonValue)>::empty()) =~= Seq::empty());
    if log_response_content.is_empty() {
        return jobject(Vec::new());
    }
    match parsed {
        Some(p) => match p.get("stage1") {
            Some(s) => s.duplicate(),
            None => p,
        },
        None => jobject(Vec::new()),
    }
}


// ───────────────────────── submitting stage two ─────────────────────────

/// The enhancement request before its resolution is set: the video, 24 fps,
/// high bit rate.
pub open spec fn s2_base_payload(video_url: Seq<char>) -> JsonView {
    JsonView::Object(
        seq![
            ("video_url"@, JsonView::Str(video_url)),
            ("fps"@, JsonView::Number("24"@)),
            ("bitrate_level"@, JsonView::Str("high"@)),
        ],
    )
}

/// The scene of a standard enhancement: the plugin tag's
/// `cascade.scene` when it names a known scene, else `common`.
pub open spec fn s2_scene_model(plugin_tag: Seq<char>) -> Seq<char> {
    match crate::cascade::json_ptr_model(plugin_tag, "/cascade/scene"@, true) {
        Some(s) => match crate::cascade::scene_model(s) {
            Some(x) => x,
            None => "common"@,
        },
        None => "common"@,
    }
}

/// The enhancement request of stage two: the base request with its
/// resolution parameter (see [`resolution_param_model`]); with the model's
/// tool version when it has one, and for the `standard` tool the scene.
pub open spec fn s2_payload_model(
    video_url: Seq<char>,
    target_res: Seq<char>,
    mid: Seq<char>,
    tool_version: Option<Seq<char>>,
    plugin_tag: Seq<char>,
) -> JsonView {
    let p = resolution_param_model(s2_base_payload(video_url), target_res, mid);
    match tool_version {
        None => p,
        Some(tv) => {
            let p1 = with_member(p, "tool_version"@, JsonView::Str(tv));
            if tv == "standard"@ {
                with_member(p1, "scene"@, JsonView::Str(s2_scene_model(plugin_tag)))
            } else {
                p1
            }
        },
    }
}

/// Builds stage two's enhancement request (see [`s2_payload_model`]);
/// `tool_version` is the enhancement tool version of model `mid`.
pub fn cascade_s2_payload(
    video_url: &str,
    target_res: &str,
    mid: &str,
    tool_version: Option<&str>,
    plugin_tag: &str,
) -> (r: JsonValue)
    ensures
        r@ == s2_payload_model(
            video_url@,
            target_res@,
            mid@,
            match tool_version {
                Some(t) => Some(t@),
                None => None,
            },
            plugin_tag@,
        ),
{
    let mut m: Vec<(String, JsonValue)> = Vec::new();
    m.push((to_owned_string("video_url"), JsonValue::Str(to_owned_string(video_url))));
    m.push((to_owned_string("fps"), JsonValue::Number(to_owned_string("24"))));
    m.push((to_owned_string("bitrate_level"), JsonValue::Str(to_owned_string("high"))));
    let mut p = jobject(m);
    assert(member_views(m@) =~= seq![
        ("video_url"@, JsonView::Str(video_url@)),
        ("fps"@, JsonView::Number("24"@)),
        ("bitrate_level"@, JsonView::Str("high"@)),
    ]);
    cascade_s2_apply_resolution_param(&mut p, target_res, mid);
    if let Some(tv) = tool_version {
        p.insert_member("tool_version", JsonValue::Str(to_owned_string(tv)));
        if str_eq(tv, "standard") {
            let scene = match crate::cascade::cascade_json_str(plugin_tag, "/cascade/scene") {
                Some(s) => match crate::cascade::cascade_scene_pair(s.as_str()) {
                    Some(x) => to_owned_string(x),
                    None => to_owned_string("common"),
                },
                None => to_owned_string("common"),
            };
            p.insert_member("scene", JsonValue::Str(scene));
        }
    }
    p
}

/// Submission attempts of stage two at most.
pub const S2_SUBMIT_MAX_ATTEMPTS: u32 = 5;

/// Upstream error codes after which stage two's submission is tried again.
pub open spec fn s2_retry_codes() -> Seq<Seq<char>> {
    seq![
        "requestlimitexceeded"@,
        "internalserviceerror"@,
        "downloadfileerror"@,
        "abilityprocessingerror"@,
        "serviceinitializingerror"@,
        "internalservicetimeout"@,
    ]
}

/// Whether a failed submission of stage two is tried again: a retryable
/// transport status, or an error code (in lower case) containing one of
/// [`s2_retry_codes`].
pub open spec fn s2_retryable_model(transport_retryable: bool, error_code: Option<Seq<char>>) -> bool {
    transport_retryable || match error_code {
        Some(c) => retry_code(c),
        None => false,
    }
}

/// An error code (in lower case) containing one of [`s2_retry_codes`].
pub open spec fn retry_code(c: Seq<char>) -> bool {
    exists|i: int| 0 <= i < 6 && #[trigger] contains(unicode_lower(c), s2_retry_codes()[i])
}

/// Whether a failed submission of stage two is tried again (see
/// [`s2_retryable_model`]).
pub fn cascade_s2_retryable(transport_retryable: bool, error_code: Option<&str>) -> (r: bool)
    ensures
        r == s2_retryable_model(
            transport_retryable,
            match error_code {
                Some(c) => Some(c@),
                None => None,
            },
        ),
{
    if transport_retryable {
        return true;
    }
    match error_code {
        None => false,
        Some(c) => {
            let lower = to_lowercase(c);
            let l = lower.as_str();
            let codes = [
                "requestlimitexceeded",
                "internalserviceerror",
                "downloadfileerror",
                "abilityprocessingerror",
                "serviceinitializingerror",
                "internalservicetimeout",
            ];
            assert(codes@.map_values(|w: &str| w@) =~= s2_retry_codes());
            let mut i: usize = 0;
            while i < 6
                invariant
                    i <= 6,
                    codes@.map_values(|w: &str| w@) == s2_retry_codes(),
                    l@ == unicode_lower(c@),
                    error_code == Some(c),
                    forall|j: int| 0 <= j < i ==> !contains(unicode_lower(c@), #[trigger] s2_retry_codes()[j]),
                decreases 6 - i,
            {
                assert(codes@.map_values(|w: &str| w@)[i as int] == codes@[i as int]@);
                if str_contains(l, codes[i]) {
                    assert(contains(unicode_lower(c@), s2_retry_codes()[i as int]));
                    return true;
                }
                i = i + 1;
            }
            false
        },
    }
}

/// The pause before the next submission of stage two, or `None` to give
/// up: a retryable failure of attempt 1 to 4 waits 10, 20, 40, then 60
/// seconds; the fifth attempt, or a failure that is not retryable, ends.
pub open spec fn s2_retry_model(attempt: u32, retryable: bool) -> Option<u64> {
    if retryable && attempt < S2_SUBMIT_MAX_ATTEMPTS {
        Some(
            if attempt <= 1 {
                10u64
            } else if attempt == 2 {
                20u64
            } else if attempt == 3 {
                40u64
            } else {
                60u64
            },
        )
    } else {
        None
    }
}

/// The pause before stage two is submitted again (see [`s2_retry_model`]);
/// `attempt` counts from 1.
pub fn cascade_s2_retry_delay(attempt: u32, retryable: bool) -> (r: Option<u64>)
    requires
        attempt >= 1,
    ensures
        r == s2_retry_model(attempt, retryable),
{
    if retryable && attempt < S2_SUBMIT_MAX_ATTEMPTS {
        let shift: u32 = if attempt - 1 < 3 {
            attempt - 1
        } else {
            3
        };
        let d: u64 = 10u64 << shift;
        assert(shift == 0 ==> d == 10) by (bit_vector)
            requires
                d == 10u64 << shift,
        ;
        assert(shift == 1 ==> d == 20) by (bit_vector)
            requires
                d == 10u64 << shift,
        ;
        assert(shift == 2 ==> d == 40) by (bit_vector)
            requires
                d == 10u64 << shift,
        ;
        assert(shift == 3 ==> d == 80) by (bit_vector)
            requires
                d == 10u64 << shift,
        ;
        Some(if d < 60 {
            d
        } else {
            60
        })
    } else {
        None
    }
}

} // verus!
