//! Billing features of a relay request body: media kinds, reference images,
//! resolution tier, image count, service tier and the vendor-specific
//! switches that price a call.  Durations and frame rates are floating
//! point and are read outside this library.
use vstd::prelude::*;
use crate::json::{
    json_array_items, json_array_items_at, json_array_len, json_array_len_at, json_array_strings,
    json_array_strings_at, json_has_pointer, json_object_keys, json_object_keys_at, json_pointer_bool,
    json_pointer_boolean, json_pointer_i64, json_pointer_integer, json_pointer_present, json_pointer_raw,
    json_pointer_raw_at, json_pointer_str, json_pointer_text,
};
use crate::response_scan::{count_response_images, nonempty_at, nonempty_text, response_images_model, wadd};
use crate::text::{
    chars_eq_ignore_case, chars_of, contains, eq_ignore_case, int_string, push_i64, str_contains, str_eq,
    string_append, string_push, to_lowercase, to_owned_string, unicode_lower,
};
use crate::usage::{
    UsageTokens, is_tencent_ref_usage, normalize_resolution_label, parse_pixel_resolution, pixel_resolution_model,
    resolution_label_model, tencent_ref_usage_model,
};

verus! {

/// The billing features read from a request body.
pub struct ExtractedFeatures {
    pub has_video: bool,
    pub has_audio: bool,
    /// The request carries reference images (text-to-image versus
    /// image-to-image pricing).
    pub has_image_ref: bool,
    pub resolution: Option<String>,
    /// Images requested (`n`), later the images returned.
    pub image_count: Option<i32>,
    pub service_tier: Option<String>,
    pub prompt_extend: bool,
    /// Kling generation mode (std / pro / 4k).
    pub mode: Option<String>,
    /// Kling sound switch (on / off).
    pub sound: Option<String>,
    /// Anthropic cache creation tokens, from the usage.
    pub cache_creation: Option<i32>,
    /// Reference images (Vidu ref_1_3 / ref_4_7 pricing).
    pub image_ref_count: Option<i32>,
    /// The raw `size` (`1024x1024`), for per-pixel pricing.
    pub size: Option<String>,
    pub quality: Option<String>,
    /// Characters of the text to synthesise.
    pub text_characters: Option<i32>,
    /// Cascade enhancement tier.
    pub version: Option<String>,
    /// Web searches (Responses API).
    pub web_search: Option<i32>,
}

// ───────────────────────── media kinds ─────────────────────────

/// An item whose `type` mentions `needle`.
pub open spec fn typed(item: Seq<char>, needle: Seq<char>) -> bool {
    match json_pointer_text(item, "/type"@) {
        Some(t) => contains(t, needle),
        None => false,
    }
}

/// Some item of `s` has a `type` mentioning `needle`.
pub open spec fn some_typed(s: Seq<Seq<char>>, needle: Seq<char>) -> bool {
    exists|i: int| 0 <= i < s.len() && #[trigger] typed(s[i], needle)
}

/// Some item of the array `items` has a `type` mentioning `needle`.
pub open spec fn any_typed(items: Option<Seq<Seq<char>>>, needle: Seq<char>) -> bool {
    match items {
        Some(s) => some_typed(s, needle),
        None => false,
    }
}

/// Some item of the array at `pointer` has a `content` array with an item
/// whose `type` mentions `needle`.
pub open spec fn nested_typed(body: Seq<char>, pointer: Seq<char>, needle: Seq<char>) -> bool {
    match json_array_items_at(body, pointer) {
        Some(outer) => exists|i: int|
            0 <= i < outer.len() && #[trigger] any_typed(json_array_items_at(outer[i], "/content"@), needle),
        None => false,
    }
}

/// The `Usage` of a Tencent file info (empty when missing).
pub open spec fn usage_of(fi: Seq<char>) -> Seq<char> {
    match json_pointer_text(fi, "/Usage"@) {
        Some(u) => u,
        None => Seq::empty(),
    }
}

/// A Tencent file info naming a reference video.
pub open spec fn reference_video(fi: Seq<char>) -> bool {
    json_pointer_text(fi, "/Category"@) == Some("Video"@) && eq_ignore_case(usage_of(fi), "Reference"@)
}

/// Some file info of `f` is a reference video.
pub open spec fn some_reference_video(f: Seq<Seq<char>>) -> bool {
    exists|i: int| 0 <= i < f.len() && #[trigger] reference_video(f[i])
}

/// Some Tencent `FileInfos` item is a reference video.
pub open spec fn fileinfo_video(body: Seq<char>) -> bool {
    match json_array_items_at(body, "/FileInfos"@) {
        Some(f) => some_reference_video(f),
        None => false,
    }
}

/// The array at `pointer` has items.
pub open spec fn nonempty_array(body: Seq<char>, pointer: Seq<char>) -> bool {
    match json_array_len_at(body, pointer) {
        Some(n) => n > 0,
        None => false,
    }
}

/// The request holds video: in a message's content, `videos[]`, `content[]`,
/// DashScope `input.media[]` or a Tencent reference video.
pub open spec fn has_video_model(body: Seq<char>) -> bool {
    ||| nested_typed(body, "/messages"@, "video"@)
    ||| nonempty_array(body, "/videos"@)
    ||| any_typed(json_array_items_at(body, "/content"@), "video"@)
    ||| any_typed(json_array_items_at(body, "/input/media"@), "video"@)
    ||| fileinfo_video(body)
}

/// `modalities[]` lists `audio`.
pub open spec fn modalities_audio(body: Seq<char>) -> bool {
    match json_array_strings_at(body, "/modalities"@) {
        Some(a) => exists|i: int| 0 <= i < a.len() && #[trigger] a[i] == Some("audio"@),
        None => false,
    }
}

/// The request holds or asks for audio: `modalities`, `generate_audio`, a
/// message's content, `content[]`, or an `input[]` item's content.
pub open spec fn has_audio_model(body: Seq<char>) -> bool {
    ||| modalities_audio(body)
    ||| json_pointer_boolean(body, "/generate_audio"@) == Some(true)
    ||| nested_typed(body, "/messages"@, "audio"@)
    ||| any_typed(json_array_items_at(body, "/content"@), "audio"@)
    ||| nested_typed(body, "/input"@, "audio"@)
}

fn typed_at(item: &str, needle: &str) -> (r: bool)
    ensures
        r == typed(item@, needle@),
{
    match json_pointer_str(item, "/type") {
        Some(t) => str_contains(t.as_str(), needle),
        None => false,
    }
}

fn any_typed_in(json: &str, pointer: &str, needle: &str) -> (r: bool)
    ensures
        r == any_typed(json_array_items_at(json@, pointer@), needle@),
{
    match json_array_items(json, pointer) {
        Some(items) => {
            let mut i: usize = 0;
            while i < items.len()
                invariant
                    i <= items.len(),
                    Some(items.deep_view()) == json_array_items_at(json@, pointer@),
                    forall|k: int| 0 <= k < i ==> !#[trigger] typed(items.deep_view()[k], needle@),
                decreases items.len() - i,
            {
                if typed_at(items[i].as_str(), needle) {
                    let ghost dv = items.deep_view();
                    assert(0 <= i < dv.len());
                    assert(typed(dv[i as int], needle@));
                    assert(exists|k: int| 0 <= k < dv.len() && #[trigger] typed(dv[k], needle@));
                    assert(any_typed(Some(dv), needle@));
                    return true;
                }
                i = i + 1;
            }
            false
        },
        None => false,
    }
}

fn nested_typed_in(body: &str, pointer: &str, needle: &str) -> (r: bool)
    ensures
        r == nested_typed(body@, pointer@, needle@),
{
    match json_array_items(body, pointer) {
        Some(outer) => {
            let mut i: usize = 0;
            while i < outer.len()
                invariant
                    i <= outer.len(),
                    Some(outer.deep_view()) == json_array_items_at(body@, pointer@),
                    forall|k: int|
                        0 <= k < i ==> !#[trigger] any_typed(
                            json_array_items_at(outer.deep_view()[k], "/content"@),
                            needle@,
                        ),
                decreases outer.len() - i,
            {
                if any_typed_in(outer[i].as_str(), "/content", needle) {
                    assert(any_typed(json_array_items_at(outer.deep_view()[i as int], "/content"@), needle@));
                    return true;
                }
                i = i + 1;
            }
            false
        },
        None => false,
    }
}

fn usage_text(fi: &str) -> (r: String)
    ensures
        r@ == usage_of(fi@),
{
    match json_pointer_str(fi, "/Usage") {
        Some(u) => u,
        None => String::new(),
    }
}

fn fileinfo_video_in(body: &str) -> (r: bool)
    ensures
        r == fileinfo_video(body@),
{
    match json_array_items(body, "/FileInfos") {
        Some(f) => {
            let mut i: usize = 0;
            while i < f.len()
                invariant
                    i <= f.len(),
                    Some(f.deep_view()) == json_array_items_at(body@, "/FileInfos"@),
                    forall|k: int| 0 <= k < i ==> !#[trigger] reference_video(f.deep_view()[k]),
                decreases f.len() - i,
            {
                let fi = f[i].as_str();
                let is_video = match json_pointer_str(fi, "/Category") {
                    Some(c) => str_eq(c.as_str(), "Video"),
                    None => false,
                };
                let u = usage_text(fi);
                let refer = chars_eq_ignore_case(
                    chars_of(u.as_str()).as_slice(),
                    chars_of("Reference").as_slice(),
                );
                if is_video && refer {
                    assert(reference_video(f.deep_view()[i as int]));
                    assert(exists|k: int| 0 <= k < f.deep_view().len() && #[trigger] reference_video(f.deep_view()[k]));
                    return true;
                }
                i = i + 1;
            }
            false
        },
        None => false,
    }
}

fn nonempty_array_at(body: &str, pointer: &str) -> (r: bool)
    ensures
        r == nonempty_array(body@, pointer@),
{
    match json_array_len(body, pointer) {
        Some(n) => n > 0,
        None => false,
    }
}

fn modalities_audio_in(body: &str) -> (r: bool)
    ensures
        r == modalities_audio(body@),
{
    match json_array_strings(body, "/modalities") {
        Some(a) => {
            let mut i: usize = 0;
            while i < a.len()
                invariant
                    i <= a.len(),
                    Some(a.deep_view()) == json_array_strings_at(body@, "/modalities"@),
                    forall|k: int| 0 <= k < i ==> #[trigger] a.deep_view()[k] != Some("audio"@),
                decreases a.len() - i,
            {
                let hit = match &a[i] {
                    Some(s) => str_eq(s.as_str(), "audio"),
                    None => false,
                };
                if hit {
                    assert(a.deep_view()[i as int] == Some("audio"@));
                    return true;
                }
                i = i + 1;
            }
            false
        },
        None => false,
    }
}

// ───────────────────────── reference images ─────────────────────────

/// How many of `f[i..]` are Tencent reference images by their `Usage`.
pub open spec fn count_ref_usage(f: Seq<Seq<char>>, i: int) -> nat
    decreases f.len() - i,
{
    if i < 0 || i >= f.len() {
        0
    } else {
        (if tencent_ref_usage_model(usage_of(f[i])) {
            1nat
        } else {
            0nat
        }) + count_ref_usage(f, i + 1)
    }
}

/// Tencent reference images: matching `FileInfos` plus a non-empty
/// `LastFrameUrl`.
pub open spec fn tencent_refs(body: Seq<char>) -> i32 {
    let n = match json_array_items_at(body, "/FileInfos"@) {
        Some(f) => count_ref_usage(f, 0) as i32,
        None => 0,
    };
    if nonempty_text(body, "/LastFrameUrl"@) {
        wadd(n, 1)
    } else {
        n
    }
}

/// `image` is given: a non-empty string, an object or a non-empty array.
pub open spec fn image_given(body: Seq<char>) -> bool {
    json_pointer_present(body, "/image"@) && (nonempty_text(body, "/image"@) || json_object_keys_at(
        body,
        "/image"@,
    ) is Some || nonempty_array(body, "/image"@))
}

/// `image_reference` is given and not null.
pub open spec fn reference_given(body: Seq<char>) -> bool {
    json_pointer_present(body, "/image_reference"@) && json_pointer_raw_at(body, "/image_reference"@) != Some(
        "null"@,
    )
}

/// The first of `images`, `image_urls`, `image_list` present.
pub open spec fn image_lists_pointer(body: Seq<char>) -> Option<Seq<char>> {
    if json_pointer_present(body, "/images"@) {
        Some("/images"@)
    } else if json_pointer_present(body, "/image_urls"@) {
        Some("/image_urls"@)
    } else if json_pointer_present(body, "/image_list"@) {
        Some("/image_list"@)
    } else {
        None
    }
}

/// The reference image count before any declared `input_images`: from
/// `image` (one string or an array), else the first image list, else the
/// Tencent references; `None` unless positive.
pub open spec fn listed_ref_count(body: Seq<char>) -> Option<i32> {
    let from_image: i32 = if json_pointer_present(body, "/image"@) {
        if nonempty_text(body, "/image"@) {
            1
        } else {
            match json_array_len_at(body, "/image"@) {
                Some(n) => n as i32,
                None => 0,
            }
        }
    } else {
        0
    };
    let from_lists: i32 = match image_lists_pointer(body) {
        Some(p) => match json_array_len_at(body, p) {
            Some(n) => n as i32,
            None => 0,
        },
        None => 0,
    };
    let count = if from_image > 0 {
        from_image
    } else if from_lists > 0 {
        from_lists
    } else {
        tencent_refs(body)
    };
    if count > 0 {
        Some(count)
    } else {
        None
    }
}

/// The usage block a body carries: `usage`, else `task.usage`.
pub open spec fn usage_base(body: Seq<char>) -> Option<Seq<char>> {
    if json_pointer_present(body, "/usage"@) {
        Some("/usage"@)
    } else if json_pointer_present(body, "/task/usage"@) {
        Some("/task/usage"@)
    } else {
        None
    }
}

/// The integer at the first of `first`, `second` present.
pub open spec fn first_present_int(body: Seq<char>, first: Seq<char>, second: Seq<char>) -> Option<i64> {
    if json_pointer_present(body, first) {
        json_pointer_integer(body, first)
    } else {
        json_pointer_integer(body, second)
    }
}

/// Declared input images: the usage's `input_images` (else its
/// `image_count`), else the body's or its parameters' `input_images`.
pub open spec fn input_images_model(body: Seq<char>) -> Option<i32> {
    let from_usage = match usage_base(body) {
        Some(u) => first_present_int(body, u + "/input_images"@, u + "/image_count"@),
        None => None,
    };
    match from_usage {
        Some(ii) => Some(ii as i32),
        None => match first_present_int(body, "/input_images"@, "/parameters/input_images"@) {
            Some(ii) => Some(ii as i32),
            None => None,
        },
    }
}

/// The request carries reference images.
pub open spec fn has_image_ref_model(body: Seq<char>) -> bool {
    ||| image_given(body)
    ||| nonempty_array(body, "/image_urls"@)
    ||| nonempty_array(body, "/image_list"@)
    ||| nonempty_array(body, "/subject_image_list"@)
    ||| reference_given(body)
    ||| tencent_refs(body) > 0
    ||| (input_images_model(body) matches Some(ii) && ii > 0)
}

/// The reference image count: declared input images, else the listed ones.
pub open spec fn image_ref_count_model(body: Seq<char>) -> Option<i32> {
    match input_images_model(body) {
        Some(ii) => Some(ii),
        None => listed_ref_count(body),
    }
}

fn tencent_refs_in(body: &str) -> (r: i32)
    ensures
        r == tencent_refs(body@),
{
    let n: i32 = match json_array_items(body, "/FileInfos") {
        Some(f) => {
            let mut k: usize = 0;
            let mut i: usize = 0;
            while i < f.len()
                invariant
                    i <= f.len(),
                    k <= i,
                    count_ref_usage(f.deep_view(), 0) == k + count_ref_usage(f.deep_view(), i as int),
                decreases f.len() - i,
            {
                let u = usage_text(f[i].as_str());
                if is_tencent_ref_usage(u.as_str()) {
                    k = k + 1;
                }
                i = i + 1;
            }
            k as i32
        },
        None => 0,
    };
    if nonempty_at(body, "/LastFrameUrl") {
        n.wrapping_add(1)
    } else {
        n
    }
}

fn image_given_in(body: &str) -> (r: bool)
    ensures
        r == image_given(body@),
{
    json_has_pointer(body, "/image") && (nonempty_at(body, "/image") || json_object_keys(body, "/image").is_some()
        || nonempty_array_at(body, "/image"))
}

fn reference_given_in(body: &str) -> (r: bool)
    ensures
        r == reference_given(body@),
{
    if !json_has_pointer(body, "/image_reference") {
        return false;
    }
    match json_pointer_raw(body, "/image_reference") {
        Some(t) => !str_eq(t.as_str(), "null"),
        None => true,
    }
}

fn array_len_i32(body: &str, pointer: &str) -> (r: i32)
    ensures
        r == (match json_array_len_at(body@, pointer@) {
            Some(n) => n as i32,
            None => 0i32,
        }),
{
    match json_array_len(body, pointer) {
        Some(n) => n as i32,
        None => 0,
    }
}

fn listed_ref_count_in(body: &str) -> (r: Option<i32>)
    ensures
        r == listed_ref_count(body@),
{
    let from_image: i32 = if json_has_pointer(body, "/image") {
        if nonempty_at(body, "/image") {
            1
        } else {
            array_len_i32(body, "/image")
        }
    } else {
        0
    };
    let from_lists: i32 = if json_has_pointer(body, "/images") {
        array_len_i32(body, "/images")
    } else if json_has_pointer(body, "/image_urls") {
        array_len_i32(body, "/image_urls")
    } else if json_has_pointer(body, "/image_list") {
        array_len_i32(body, "/image_list")
    } else {
        0
    };
    let count = if from_image > 0 {
        from_image
    } else if from_lists > 0 {
        from_lists
    } else {
        tencent_refs_in(body)
    };
    if count > 0 {
        Some(count)
    } else {
        None
    }
}

fn usage_base_in(body: &str) -> (r: Option<&'static str>)
    ensures
        r.deep_view() == usage_base(body@),
{
    if json_has_pointer(body, "/usage") {
        Some("/usage")
    } else if json_has_pointer(body, "/task/usage") {
        Some("/task/usage")
    } else {
        None
    }
}

fn joined(base: &str, suffix: &str) -> (r: String)
    ensures
        r@ == base@ + suffix@,
{
    let mut s = to_owned_string(base);
    string_append(&mut s, suffix);
    s
}

fn first_present_int_in(body: &str, first: &str, second: &str) -> (r: Option<i64>)
    ensures
        r == first_present_int(body@, first@, second@),
{
    if json_has_pointer(body, first) {
        json_pointer_i64(body, first)
    } else {
        json_pointer_i64(body, second)
    }
}

fn input_images_in(body: &str) -> (r: Option<i32>)
    ensures
        r == input_images_model(body@),
{
    let from_usage = match usage_base_in(body) {
        Some(u) => {
            let a = joined(u, "/input_images");
            let b = joined(u, "/image_count");
            first_present_int_in(body, a.as_str(), b.as_str())
        },
        None => None,
    };
    match from_usage {
        Some(ii) => Some(ii as i32),
        None => match first_present_int_in(body, "/input_images", "/parameters/input_images") {
            Some(ii) => Some(ii as i32),
            None => None,
        },
    }
}

// ───────────────────────── resolution and size ─────────────────────────

/// The string at `pointer` when it is non-empty.
pub open spec fn nonempty_pick(body: Seq<char>, pointer: Seq<char>) -> Option<Seq<char>> {
    if nonempty_text(body, pointer) {
        json_pointer_text(body, pointer)
    } else {
        None
    }
}

/// `inner` under `outer` when `outer` is present, else `inner` at the root.
pub open spec fn under_or_root(body: Seq<char>, outer: Seq<char>, inner: Seq<char>) -> Seq<char> {
    if json_pointer_present(body, outer) {
        outer + inner
    } else {
        inner
    }
}

/// `a` unless it is `None`, then `b`.
pub open spec fn or_opt(a: Option<Seq<char>>, b: Option<Seq<char>>) -> Option<Seq<char>> {
    match a {
        Some(x) => Some(x),
        None => b,
    }
}

/// The first non-empty `resolution` of the root, `final_result`, `task`,
/// `parameters`, or `OutputConfig.Resolution`.
pub open spec fn stated_resolution(body: Seq<char>) -> Option<Seq<char>> {
    or_opt(
        nonempty_pick(body, "/resolution"@),
        or_opt(
            nonempty_pick(body, under_or_root(body, "/final_result"@, "/resolution"@)),
            or_opt(
                nonempty_pick(body, under_or_root(body, "/task"@, "/resolution"@)),
                or_opt(
                    nonempty_pick(body, "/parameters/resolution"@),
                    nonempty_pick(body, "/OutputConfig/Resolution"@),
                ),
            ),
        ),
    )
}

/// The resolution after the usage's `SR` (a number `n` reads `np`, a string
/// as it is) overrides the stated one.
pub open spec fn usage_resolution(body: Seq<char>) -> Option<Seq<char>> {
    match usage_base(body) {
        Some(u) => match json_pointer_integer(body, u + "/SR"@) {
            Some(n) => Some(int_string(n as int) + "p"@),
            None => match json_pointer_text(body, u + "/SR"@) {
                Some(s) => Some(s),
                None => stated_resolution(body),
            },
        },
        None => stated_resolution(body),
    }
}

/// The raw `size`: the root's, else the first `data[]` item's.
pub open spec fn size_model(body: Seq<char>) -> Option<Seq<char>> {
    match json_pointer_text(body, "/size"@) {
        Some(s) => Some(s),
        None => if json_array_len_at(body, "/data"@) is Some {
            json_pointer_text(body, "/data/0/size"@)
        } else {
            None
        },
    }
}

/// The resolution: the normalised label found, else the tier of the size.
pub open spec fn resolution_model(body: Seq<char>) -> Option<Seq<char>> {
    match usage_resolution(body) {
        Some(r) => Some(resolution_label_model(r)),
        None => match size_model(body) {
            Some(s) => pixel_resolution_model(s),
            None => None,
        },
    }
}

fn nonempty_pick_in(body: &str, pointer: &str) -> (r: Option<String>)
    ensures
        r.deep_view() == nonempty_pick(body@, pointer@),
{
    if nonempty_at(body, pointer) {
        json_pointer_str(body, pointer)
    } else {
        None
    }
}

fn under_or_root_in(body: &str, outer: &str, inner: &str) -> (r: String)
    ensures
        r@ == under_or_root(body@, outer@, inner@),
{
    if json_has_pointer(body, outer) {
        joined(outer, inner)
    } else {
        to_owned_string(inner)
    }
}

fn stated_resolution_in(body: &str) -> (r: Option<String>)
    ensures
        r.deep_view() == stated_resolution(body@),
{
    if let Some(s) = nonempty_pick_in(body, "/resolution") {
        return Some(s);
    }
    let p = under_or_root_in(body, "/final_result", "/resolution");
    if let Some(s) = nonempty_pick_in(body, p.as_str()) {
        return Some(s);
    }
    let p = under_or_root_in(body, "/task", "/resolution");
    if let Some(s) = nonempty_pick_in(body, p.as_str()) {
        return Some(s);
    }
    if let Some(s) = nonempty_pick_in(body, "/parameters/resolution") {
        return Some(s);
    }
    nonempty_pick_in(body, "/OutputConfig/Resolution")
}

fn usage_resolution_in(body: &str) -> (r: Option<String>)
    ensures
        r.deep_view() == usage_resolution(body@),
{
    match usage_base_in(body) {
        Some(u) => {
            let p = joined(u, "/SR");
            match json_pointer_i64(body, p.as_str()) {
                Some(n) => {
                    let mut s = String::new();
                    push_i64(&mut s, n);
                    string_push(&mut s, 'p');
                    proof {
                        reveal_strlit("p");
                        assert(s@ =~= int_string(n as int) + "p"@);
                    }
                    Some(s)
                },
                None => match json_pointer_str(body, p.as_str()) {
                    Some(t) => Some(t),
                    None => stated_resolution_in(body),
                },
            }
        },
        None => stated_resolution_in(body),
    }
}

fn size_in(body: &str) -> (r: Option<String>)
    ensures
        r.deep_view() == size_model(body@),
{
    match json_pointer_str(body, "/size") {
        Some(s) => Some(s),
        None => if json_array_len(body, "/data").is_some() {
            json_pointer_str(body, "/data/0/size")
        } else {
            None
        },
    }
}

// ───────────────────────── switches and counts ─────────────────────────

/// `o` lower-cased (`str::to_lowercase`).
pub open spec fn lower_opt(o: Option<Seq<char>>) -> Option<Seq<char>> {
    match o {
        Some(s) => Some(unicode_lower(s)),
        None => None,
    }
}

fn lower_of(o: Option<String>) -> (r: Option<String>)
    ensures
        r.deep_view() == lower_opt(o.deep_view()),
{
    match o {
        Some(s) => Some(to_lowercase(s.as_str())),
        None => None,
    }
}

/// The service tier: root or parameters `service_tier` (the first present,
/// when a string), else `flex` for Tencent off-peak.
pub open spec fn service_tier_model(body: Seq<char>) -> Option<Seq<char>> {
    let direct = if json_pointer_present(body, "/service_tier"@) {
        json_pointer_text(body, "/service_tier"@)
    } else {
        json_pointer_text(body, "/parameters/service_tier"@)
    };
    match direct {
        Some(s) => Some(s),
        None => match json_pointer_text(body, "/OutputConfig/OffPeak"@) {
            Some(x) => if eq_ignore_case(x, "Enabled"@) {
                Some("flex"@)
            } else {
                None
            },
            None => None,
        },
    }
}

/// Prompt extension is on at the root or in the parameters.
pub open spec fn prompt_extend_model(body: Seq<char>) -> bool {
    json_pointer_boolean(body, "/prompt_extend"@) == Some(true) || json_pointer_boolean(
        body,
        "/parameters/prompt_extend"@,
    ) == Some(true)
}

/// The sound switch: from `generate_audio` when given (`true` as a boolean
/// or string turns it on), else `sound` lower-cased.
pub open spec fn sound_model(body: Seq<char>) -> Option<Seq<char>> {
    if json_pointer_present(body, "/generate_audio"@) {
        if json_pointer_boolean(body, "/generate_audio"@) == Some(true) || json_pointer_text(
            body,
            "/generate_audio"@,
        ) == Some("true"@) {
            Some("on"@)
        } else {
            Some("off"@)
        }
    } else {
        lower_opt(json_pointer_text(body, "/sound"@))
    }
}

/// The quality label, root or parameters, lower-cased.
pub open spec fn quality_model(body: Seq<char>) -> Option<Seq<char>> {
    lower_opt(or_opt(json_pointer_text(body, "/quality"@), json_pointer_text(body, "/parameters/quality"@)))
}

/// Characters of the text to synthesise: `input`, `req_params.text` or
/// `request.text`.
pub open spec fn text_characters_model(body: Seq<char>) -> Option<i32> {
    match or_opt(
        json_pointer_text(body, "/input"@),
        or_opt(json_pointer_text(body, "/req_params/text"@), json_pointer_text(body, "/request/text"@)),
    ) {
        Some(t) => Some(t.len() as i32),
        None => None,
    }
}

/// Images requested: `n`, else Tencent's `OutputImageCount`; at least one.
pub open spec fn image_count_model(body: Seq<char>) -> Option<i32> {
    let n = match json_pointer_integer(body, "/n"@) {
        Some(v) => Some(v),
        None => json_pointer_integer(body, "/OutputConfig/OutputImageCount"@),
    };
    match n {
        Some(v) => Some(
            (if v >= 1 {
                v
            } else {
                1
            }) as i32,
        ),
        None => None,
    }
}

fn service_tier_in(body: &str) -> (r: Option<String>)
    ensures
        r.deep_view() == service_tier_model(body@),
{
    let direct = if json_has_pointer(body, "/service_tier") {
        json_pointer_str(body, "/service_tier")
    } else {
        json_pointer_str(body, "/parameters/service_tier")
    };
    match direct {
        Some(s) => Some(s),
        None => match json_pointer_str(body, "/OutputConfig/OffPeak") {
            Some(x) => {
                if chars_eq_ignore_case(chars_of(x.as_str()).as_slice(), chars_of("Enabled").as_slice()) {
                    Some(to_owned_string("flex"))
                } else {
                    None
                }
            },
            None => None,
        },
    }
}

fn sound_in(body: &str) -> (r: Option<String>)
    ensures
        r.deep_view() == sound_model(body@),
{
    if json_has_pointer(body, "/generate_audio") {
        let as_bool = json_pointer_bool(body, "/generate_audio");
        let as_text = match json_pointer_str(body, "/generate_audio") {
            Some(t) => str_eq(t.as_str(), "true"),
            None => false,
        };
        let on = match as_bool {
            Some(b) => b,
            None => false,
        } || as_text;
        if on {
            Some(to_owned_string("on"))
        } else {
            Some(to_owned_string("off"))
        }
    } else {
        lower_of(json_pointer_str(body, "/sound"))
    }
}

fn first_text(body: &str, a: &str, b: &str) -> (r: Option<String>)
    ensures
        r.deep_view() == or_opt(json_pointer_text(body@, a@), json_pointer_text(body@, b@)),
{
    match json_pointer_str(body, a) {
        Some(s) => Some(s),
        None => json_pointer_str(body, b),
    }
}

fn text_characters_in(body: &str) -> (r: Option<i32>)
    ensures
        r == text_characters_model(body@),
{
    let t = match json_pointer_str(body, "/input") {
        Some(s) => Some(s),
        None => first_text(body, "/req_params/text", "/request/text"),
    };
    match t {
        Some(s) => {
            let n = chars_of(s.as_str()).len();
            Some(n as i32)
        },
        None => None,
    }
}

fn image_count_in(body: &str) -> (r: Option<i32>)
    ensures
        r == image_count_model(body@),
{
    let n = match json_pointer_i64(body, "/n") {
        Some(v) => Some(v),
        None => json_pointer_i64(body, "/OutputConfig/OutputImageCount"),
    };
    match n {
        Some(v) => Some(
            (if v >= 1 {
                v
            } else {
                1
            }) as i32,
        ),
        None => None,
    }
}

/// The billing features of a request body (JSON text).  Each field is
/// stated by its own model: [`has_video_model`], [`has_audio_model`],
/// [`has_image_ref_model`], [`resolution_model`], [`image_count_model`],
/// [`service_tier_model`], [`prompt_extend_model`], [`sound_model`],
/// [`image_ref_count_model`], [`size_model`], [`quality_model`],
/// [`text_characters_model`]; `mode` and `version` are lower-cased as
/// given; cache creation and web searches come later from the usage.
pub fn extract_request_features(body: &str) -> (r: ExtractedFeatures)
    ensures
        r.has_video == has_video_model(body@),
        r.has_audio == has_audio_model(body@),
        r.has_image_ref == has_image_ref_model(body@),
        r.resolution.deep_view() == resolution_model(body@),
        r.image_count == image_count_model(body@),
        r.service_tier.deep_view() == service_tier_model(body@),
        r.prompt_extend == prompt_extend_model(body@),
        r.mode.deep_view() == lower_opt(json_pointer_text(body@, "/mode"@)),
        r.sound.deep_view() == sound_model(body@),
        r.cache_creation is None,
        r.image_ref_count == image_ref_count_model(body@),
        r.size.deep_view() == size_model(body@),
        r.quality.deep_view() == quality_model(body@),
        r.text_characters == text_characters_model(body@),
        r.version.deep_view() == lower_opt(json_pointer_text(body@, "/version"@)),
        r.web_search is None,
{
    let has_audio = modalities_audio_in(body) || json_pointer_bool(body, "/generate_audio") == Some(true)
        || nested_typed_in(body, "/messages", "audio") || any_typed_in(body, "/content", "audio")
        || nested_typed_in(body, "/input", "audio");
    let has_video = nested_typed_in(body, "/messages", "video") || nonempty_array_at(body, "/videos")
        || any_typed_in(body, "/content", "video") || any_typed_in(body, "/input/media", "video")
        || fileinfo_video_in(body);
    let input_images = input_images_in(body);
    let refs = tencent_refs_in(body);
    let has_image_ref = image_given_in(body) || nonempty_array_at(body, "/image_urls") || nonempty_array_at(
        body,
        "/image_list",
    ) || nonempty_array_at(body, "/subject_image_list") || reference_given_in(body) || refs > 0 || match input_images {
        Some(ii) => ii > 0,
        None => false,
    };
    let image_ref_count = match input_images {
        Some(ii) => Some(ii),
        None => listed_ref_count_in(body),
    };
    let size = size_in(body);
    let resolution = match usage_resolution_in(body) {
        Some(r) => Some(normalize_resolution_label(r.as_str())),
        None => match &size {
            Some(s) => parse_pixel_resolution(s.as_str()),
            None => None,
        },
    };
    let prompt_extend = json_pointer_bool(body, "/prompt_extend") == Some(true) || json_pointer_bool(
        body,
        "/parameters/prompt_extend",
    ) == Some(true);
    ExtractedFeatures {
        has_video,
        has_audio,
        has_image_ref,
        resolution,
        image_count: image_count_in(body),
        service_tier: service_tier_in(body),
        prompt_extend,
        mode: lower_of(json_pointer_str(body, "/mode")),
        sound: sound_in(body),
        cache_creation: None,
        image_ref_count,
        size,
        quality: lower_of(first_text(body, "/quality", "/parameters/quality")),
        text_characters: text_characters_in(body),
        version: lower_of(json_pointer_str(body, "/version")),
        web_search: None,
    }
}


/// `b` when it holds a value, else `a` (a later stage overriding).
pub open spec fn override_opt<T>(a: Option<T>, b: Option<T>) -> Option<T> {
    match b {
        Some(x) => Some(x),
        None => a,
    }
}

/// `a` when it holds a value, else `b` (an earlier stage kept).
pub open spec fn keep_opt<T>(a: Option<T>, b: Option<T>) -> Option<T> {
    match a {
        Some(x) => Some(x),
        None => b,
    }
}

impl ExtractedFeatures {
    /// Folds the features of a later stage (the response) into these (the
    /// request's), so that both bill alike: labels already known are kept
    /// (resolution, mode, sound, version), counts and the size the later
    /// stage reports replace earlier ones, media flags accumulate; service
    /// tier, prompt extension, quality, text and cache figures stay.
    pub fn merge(&mut self, other: ExtractedFeatures)
        ensures
            final(self).resolution.deep_view() == keep_opt(old(self).resolution.deep_view(), other.resolution.deep_view()),
            final(self).mode.deep_view() == keep_opt(old(self).mode.deep_view(), other.mode.deep_view()),
            final(self).sound.deep_view() == keep_opt(old(self).sound.deep_view(), other.sound.deep_view()),
            final(self).version.deep_view() == keep_opt(old(self).version.deep_view(), other.version.deep_view()),
            final(self).has_video == (old(self).has_video || other.has_video),
            final(self).has_audio == (old(self).has_audio || other.has_audio),
            final(self).has_image_ref == (old(self).has_image_ref || other.has_image_ref),
            final(self).web_search == override_opt(old(self).web_search, other.web_search),
            final(self).image_ref_count == override_opt(old(self).image_ref_count, other.image_ref_count),
            final(self).size.deep_view() == override_opt(old(self).size.deep_view(), other.size.deep_view()),
            final(self).image_count == override_opt(old(self).image_count, other.image_count),
            final(self).service_tier == old(self).service_tier,
            final(self).prompt_extend == old(self).prompt_extend,
            final(self).quality == old(self).quality,
            final(self).text_characters == old(self).text_characters,
            final(self).cache_creation == old(self).cache_creation,
    {
        if self.resolution.is_none() {
            self.resolution = other.resolution;
        }
        if self.mode.is_none() {
            self.mode = other.mode;
        }
        if self.sound.is_none() {
            self.sound = other.sound;
        }
        if self.version.is_none() {
            self.version = other.version;
        }
        if other.has_video {
            self.has_video = true;
        }
        if other.has_audio {
            self.has_audio = true;
        }
        if other.has_image_ref {
            self.has_image_ref = true;
        }
        if other.web_search.is_some() {
            self.web_search = other.web_search;
        }
        if other.image_ref_count.is_some() {
            self.image_ref_count = other.image_ref_count;
        }
        if other.size.is_some() {
            self.size = other.size;
        }
        if other.image_count.is_some() {
            self.image_count = other.image_count;
        }
    }
}

/// Writes the billing figures of the usage back into the features: cache
/// creation and web searches, when positive.
pub fn enrich_features_from_usage(features: &mut ExtractedFeatures, usage: &UsageTokens)
    ensures
        final(features).cache_creation == (if usage.cache_creation > 0 {
            Some(usage.cache_creation)
        } else {
            old(features).cache_creation
        }),
        final(features).web_search == (if usage.web_search > 0 {
            Some(usage.web_search)
        } else {
            old(features).web_search
        }),
        final(features).has_video == old(features).has_video,
        final(features).has_audio == old(features).has_audio,
        final(features).has_image_ref == old(features).has_image_ref,
        final(features).resolution == old(features).resolution,
        final(features).image_count == old(features).image_count,
        final(features).service_tier == old(features).service_tier,
        final(features).prompt_extend == old(features).prompt_extend,
        final(features).mode == old(features).mode,
        final(features).sound == old(features).sound,
        final(features).image_ref_count == old(features).image_ref_count,
        final(features).size == old(features).size,
        final(features).quality == old(features).quality,
        final(features).text_characters == old(features).text_characters,
        final(features).version == old(features).version,
{
    if usage.cache_creation > 0 {
        features.cache_creation = Some(usage.cache_creation);
    }
    if usage.web_search > 0 {
        features.web_search = Some(usage.web_search);
    }
}


/// The resolution a final task response states at `result.resolution`.
pub open spec fn result_resolution(resp: Seq<char>) -> Option<Seq<char>> {
    json_pointer_text(resp, "/result/resolution"@)
}

impl ExtractedFeatures {
    /// Settles the features with a task's final response: its stated
    /// `result.resolution` replaces the resolution, the features of the
    /// response are merged in ([`ExtractedFeatures::merge`]), the vendor's
    /// output resolution tier (`vendor_resolution`, Tencent VOD's final
    /// metadata, read by the caller from floating-point sizes) replaces it
    /// again, and the images counted in the stored body (`store_body`, see
    /// [`crate::response_scan::count_response_images`]) replace the image
    /// count.  Durations and frame rates are settled by the caller.
    pub fn merge_settlement_response(&mut self, resp: &str, store_body: &str, vendor_resolution: Option<String>)
        ensures
            final(self).resolution.deep_view() == override_opt(
                keep_opt(
                    override_opt(old(self).resolution.deep_view(), result_resolution(resp@)),
                    resolution_model(resp@),
                ),
                vendor_resolution.deep_view(),
            ),
            final(self).image_count == override_opt(
                override_opt(old(self).image_count, image_count_model(resp@)),
                response_images_model(store_body@),
            ),
            final(self).mode.deep_view() == keep_opt(
                old(self).mode.deep_view(),
                lower_opt(json_pointer_text(resp@, "/mode"@)),
            ),
            final(self).sound.deep_view() == keep_opt(old(self).sound.deep_view(), sound_model(resp@)),
            final(self).version.deep_view() == keep_opt(
                old(self).version.deep_view(),
                lower_opt(json_pointer_text(resp@, "/version"@)),
            ),
            final(self).has_video == (old(self).has_video || has_video_model(resp@)),
            final(self).has_audio == (old(self).has_audio || has_audio_model(resp@)),
            final(self).has_image_ref == (old(self).has_image_ref || has_image_ref_model(resp@)),
            final(self).web_search == old(self).web_search,
            final(self).image_ref_count == override_opt(old(self).image_ref_count, image_ref_count_model(resp@)),
            final(self).size.deep_view() == override_opt(old(self).size.deep_view(), size_model(resp@)),
            final(self).service_tier == old(self).service_tier,
            final(self).prompt_extend == old(self).prompt_extend,
            final(self).quality == old(self).quality,
            final(self).text_characters == old(self).text_characters,
            final(self).cache_creation == old(self).cache_creation,
    {
        if let Some(res) = json_pointer_str(resp, "/result/resolution") {
            self.resolution = Some(res);
        }
        let other = extract_request_features(resp);
        self.merge(other);
        if let Some(r) = vendor_resolution {
            self.resolution = Some(r);
        }
        if let Some(n) = count_response_images(store_body) {
            self.image_count = Some(n);
        }
    }
}

} // verus!
