//! What an upstream response says of its own size: the number of images it
//! returned and the usage block worth keeping, read from a whole JSON
//! document or, failing that, line by line from a buffered SSE stream.
use vstd::prelude::*;
use crate::json::{
    json_array_items, json_array_items_at, json_array_strings, json_array_strings_at, json_has_pointer,
    json_pointer_i64, json_pointer_integer, json_pointer_present, json_pointer_raw, json_pointer_raw_at,
    json_pointer_str, json_pointer_text,
};
use crate::text::{char_is_ws, chars_of, is_ws, matches_at, occurs_at, string_append, to_owned_string};
use crate::usage::{char_views, line_payload, lines_of, split_lines, sse_payload};

verus! {

/// `i32` addition as the release build computes counts: wrapping.
pub open spec fn wadd(a: i32, b: i32) -> i32 {
    vstd::wrapping::i32_specs::wrapping_add(a, b)
}

/// `step` applied to `acc` and to each of `items[i..]` in turn.
pub open spec fn fold_items(
    acc: i32,
    items: Seq<Seq<char>>,
    i: int,
    step: spec_fn(i32, Seq<char>) -> i32,
) -> i32
    decreases items.len() - i,
{
    if i < 0 || i >= items.len() {
        acc
    } else {
        fold_items(step(acc, items[i]), items, i + 1, step)
    }
}

// ───────────────────────── strings inside items ─────────────────────────

/// `pointer` of `json` holds a non-empty string.
pub open spec fn nonempty_text(json: Seq<char>, pointer: Seq<char>) -> bool {
    match json_pointer_text(json, pointer) {
        Some(s) => s.len() > 0,
        None => false,
    }
}

pub(crate) fn nonempty_at(json: &str, pointer: &str) -> (r: bool)
    ensures
        r == nonempty_text(json@, pointer@),
{
    match json_pointer_str(json, pointer) {
        Some(s) => !s.as_str().is_empty(),
        None => false,
    }
}

/// An array item that is a non-empty string.
pub open spec fn nonempty_item(o: Option<Seq<char>>) -> bool {
    match o {
        Some(s) => s.len() > 0,
        None => false,
    }
}

/// How many of `items[i..]` are non-empty strings.
pub open spec fn count_nonempty(items: Seq<Option<Seq<char>>>, i: int) -> nat
    decreases items.len() - i,
{
    if i < 0 || i >= items.len() {
        0
    } else {
        (if nonempty_item(items[i]) {
            1nat
        } else {
            0nat
        }) + count_nonempty(items, i + 1)
    }
}

fn count_nonempty_strings(items: &Vec<Option<String>>) -> (r: usize)
    ensures
        r as nat == count_nonempty(items.deep_view(), 0),
{
    let mut k: usize = 0;
    let mut i: usize = 0;
    while i < items.len()
        invariant
            i <= items.len(),
            k <= i,
            count_nonempty(items.deep_view(), 0) == k + count_nonempty(items.deep_view(), i as int),
        decreases items.len() - i,
    {
        match &items[i] {
            Some(s) => {
                if !s.as_str().is_empty() {
                    k = k + 1;
                }
            },
            None => {},
        }
        i = i + 1;
    }
    k
}

/// The image links of an item's `url`: the non-empty strings of an array,
/// or one for a non-empty string.
pub open spec fn url_count(item: Seq<char>) -> i32 {
    match json_array_strings_at(item, "/url"@) {
        Some(a) => count_nonempty(a, 0) as i32,
        None => if nonempty_text(item, "/url"@) {
            1
        } else {
            0
        },
    }
}

fn url_count_of(item: &str) -> (r: i32)
    ensures
        r == url_count(item@),
{
    match json_array_strings(item, "/url") {
        Some(a) => {
            let c = count_nonempty_strings(&a);
            c as i32
        },
        None => if nonempty_at(item, "/url") {
            1
        } else {
            0
        },
    }
}

/// An item with inline image data: a non-empty `b64_json` or `image`.
pub open spec fn inline_image(item: Seq<char>) -> bool {
    nonempty_text(item, "/b64_json"@) || nonempty_text(item, "/image"@)
}

fn inline_image_at(item: &str) -> (r: bool)
    ensures
        r == inline_image(item@),
{
    nonempty_at(item, "/b64_json") || nonempty_at(item, "/image")
}

// ───────────────────────── the array layouts ─────────────────────────

/// One `data[]` item (OpenAI, Volcano Ark): its links, else one for inline
/// data.
pub open spec fn data_item(acc: i32, item: Seq<char>) -> i32 {
    let u = url_count(item);
    if u > 0 {
        wadd(acc, u)
    } else if inline_image(item) {
        wadd(acc, 1)
    } else {
        acc
    }
}

/// [`data_item`] as a step of [`fold_items`].
pub open spec fn data_step() -> spec_fn(i32, Seq<char>) -> i32 {
    |acc: i32, item: Seq<char>| data_item(acc, item)
}

/// One item of an asynchronous result's `images[]`: its `url` member when it
/// has one, else one for inline data.
pub open spec fn image_item(acc: i32, img: Seq<char>) -> i32 {
    if json_pointer_present(img, "/url"@) {
        wadd(acc, url_count(img))
    } else if inline_image(img) {
        wadd(acc, 1)
    } else {
        acc
    }
}

/// [`image_item`] as a step of [`fold_items`].
pub open spec fn image_step() -> spec_fn(i32, Seq<char>) -> i32 {
    |acc: i32, img: Seq<char>| image_item(acc, img)
}

/// Non-overlapping occurrences of `p` in `s` from index `i`, found left to
/// right (`str::matches(..).count()`).
pub open spec fn match_count_from(s: Seq<char>, p: Seq<char>, i: int) -> nat
    decreases s.len() - i,
{
    if i < 0 || p.len() == 0 || i + p.len() > s.len() {
        0
    } else if occurs_at(s, p, i) {
        1 + match_count_from(s, p, i + p.len())
    } else {
        match_count_from(s, p, i + 1)
    }
}

/// `s[i]` begins a whitespace-separated word (`str::split_whitespace`).
pub open spec fn word_start(s: Seq<char>, i: int) -> bool {
    0 <= i < s.len() && !is_ws(s[i]) && (i == 0 || is_ws(s[i - 1]))
}

/// A word of `s` begins at `i` and starts with `http://` or `https://`.
/// (Neither prefix holds whitespace, so it lies inside the word.)
pub open spec fn link_word_at(s: Seq<char>, i: int) -> bool {
    word_start(s, i) && (occurs_at(s, "http://"@, i) || occurs_at(s, "https://"@, i))
}

/// `acc` raised by one (wrapping) for each link word of `s` from `i` on.
pub open spec fn link_words_fold(acc: i32, s: Seq<char>, i: int) -> i32
    decreases s.len() - i,
{
    if i < 0 || i >= s.len() {
        acc
    } else {
        link_words_fold(
            if link_word_at(s, i) {
                wadd(acc, 1)
            } else {
                acc
            },
            s,
            i + 1,
        )
    }
}

/// One Gemini `parts[]` item: inline data counts one; a text counts its
/// markdown data images (`](data:`), or else its link words.
pub open spec fn part_item(acc: i32, part: Seq<char>) -> i32 {
    if json_pointer_present(part, "/inline_data"@) || json_pointer_present(part, "/inlineData"@) {
        wadd(acc, 1)
    } else {
        match json_pointer_text(part, "/text"@) {
            Some(t) => {
                let md = match_count_from(t, "](data:"@, 0) as i32;
                if md > 0 {
                    wadd(acc, md)
                } else {
                    link_words_fold(acc, t, 0)
                }
            },
            None => acc,
        }
    }
}

/// [`part_item`] as a step of [`fold_items`].
pub open spec fn part_step() -> spec_fn(i32, Seq<char>) -> i32 {
    |acc: i32, part: Seq<char>| part_item(acc, part)
}

/// One Gemini candidate: the images of its `content.parts`.
pub open spec fn candidate_item(acc: i32, cand: Seq<char>) -> i32 {
    match json_array_items_at(cand, "/content/parts"@) {
        Some(parts) => fold_items(acc, parts, 0, part_step()),
        None => acc,
    }
}

/// [`candidate_item`] as a step of [`fold_items`].
pub open spec fn candidate_step() -> spec_fn(i32, Seq<char>) -> i32 {
    |acc: i32, cand: Seq<char>| candidate_item(acc, cand)
}

/// An item carrying an image: a non-empty `b64_json`, `image` or `url`.
pub open spec fn has_media(item: Seq<char>) -> bool {
    inline_image(item) || nonempty_text(item, "/url"@)
}

/// How many of `items[i..]` carry an image.
pub open spec fn count_media(items: Seq<Seq<char>>, i: int) -> nat
    decreases items.len() - i,
{
    if i < 0 || i >= items.len() {
        0
    } else {
        (if has_media(items[i]) {
            1nat
        } else {
            0nat
        }) + count_media(items, i + 1)
    }
}

/// The first of the asynchronous result layouts present in `json`.
pub open spec fn images_pointer(json: Seq<char>) -> Option<Seq<char>> {
    if json_pointer_present(json, "/data/result/images"@) {
        Some("/data/result/images"@)
    } else if json_pointer_present(json, "/data/task_result/images"@) {
        Some("/data/task_result/images"@)
    } else if json_pointer_present(json, "/result/images"@) {
        Some("/result/images"@)
    } else if json_pointer_present(json, "/task_result/images"@) {
        Some("/task_result/images"@)
    } else if json_pointer_present(json, "/images"@) {
        Some("/images"@)
    } else {
        None
    }
}

/// Images of the `data[]` array.
pub open spec fn data_total(json: Seq<char>) -> i32 {
    match json_array_items_at(json, "/data"@) {
        Some(items) => fold_items(0, items, 0, data_step()),
        None => 0,
    }
}

/// Images of the asynchronous result's `images[]` (see [`images_pointer`]).
pub open spec fn images_total(json: Seq<char>) -> i32 {
    match images_pointer(json) {
        Some(p) => match json_array_items_at(json, p) {
            Some(items) => fold_items(0, items, 0, image_step()),
            None => 0,
        },
        None => 0,
    }
}

/// Images of Gemini's `candidates[]`.
pub open spec fn gemini_total(json: Seq<char>) -> i32 {
    match json_array_items_at(json, "/candidates"@) {
        Some(cands) => fold_items(0, cands, 0, candidate_step()),
        None => 0,
    }
}

/// Images of DashScope's `output.results[]`.
pub open spec fn results_total(json: Seq<char>) -> i32 {
    match json_array_items_at(json, "/output/results"@) {
        Some(items) => count_media(items, 0) as i32,
        None => 0,
    }
}

/// Non-empty strings of the array at `pointer`.
pub open spec fn strings_total(json: Seq<char>, pointer: Seq<char>) -> i32 {
    match json_array_strings_at(json, pointer) {
        Some(a) => count_nonempty(a, 0) as i32,
        None => 0,
    }
}

/// The images listed in the arrays of one JSON value, the first layout
/// that yields a non-zero sum: `data[]`, an asynchronous `images[]`,
/// Gemini candidates, DashScope results, then Jimeng's `data.image_urls[]`
/// and `data.binary_data_base64[]`; `None` unless the sum is positive.
pub open spec fn array_images(json: Seq<char>) -> Option<i32> {
    let t1 = data_total(json);
    let t2 = if t1 == 0 {
        images_total(json)
    } else {
        t1
    };
    let t3 = if t2 == 0 {
        gemini_total(json)
    } else {
        t2
    };
    let t4 = if t3 == 0 {
        results_total(json)
    } else {
        t3
    };
    let t5 = if t4 == 0 {
        strings_total(json, "/data/image_urls"@)
    } else {
        t4
    };
    let t6 = if t5 == 0 {
        strings_total(json, "/data/binary_data_base64"@)
    } else {
        t5
    };
    if t6 > 0 {
        Some(t6)
    } else {
        None
    }
}

/// The image total a value's `usage` declares: `generated_images`, else
/// `image_count`.
pub open spec fn usage_images(json: Seq<char>) -> Option<i32> {
    match json_pointer_integer(json, "/usage/generated_images"@) {
        Some(c) => Some(c as i32),
        None => match json_pointer_integer(json, "/usage/image_count"@) {
            Some(c) => Some(c as i32),
            None => None,
        },
    }
}

/// The images of one JSON value: the declared total, else the arrays.
pub open spec fn value_images(json: Seq<char>) -> Option<i32> {
    match usage_images(json) {
        Some(c) => Some(c),
        None => array_images(json),
    }
}

/// One SSE line read into the scan state (images summed from arrays, last
/// declared total); lines that are not JSON leave it as it is.
pub open spec fn sse_image_step(st: (i32, Option<i32>), line: Seq<char>) -> (i32, Option<i32>) {
    match line_payload(line) {
        Some(j) => if json_pointer_present(j, ""@) {
            let declared = match usage_images(j) {
                Some(c) => Some(c),
                None => st.1,
            };
            let summed = match array_images(j) {
                Some(c) => wadd(st.0, c),
                None => st.0,
            };
            (summed, declared)
        } else {
            st
        },
        None => st,
    }
}

/// The scan state after `lines[i..]`.
pub open spec fn sse_images_fold(st: (i32, Option<i32>), lines: Seq<Seq<char>>, i: int) -> (
    i32,
    Option<i32>,
)
    decreases lines.len() - i,
{
    if i < 0 || i >= lines.len() {
        st
    } else {
        sse_images_fold(sse_image_step(st, lines[i]), lines, i + 1)
    }
}

/// The number of images a response returned: what the whole document says
/// when it is JSON and says anything; else, over the lines of an SSE
/// stream, the last declared total, or the positive sum of the listed
/// images; `None` for a response that lists no images.
pub open spec fn response_images_model(response: Seq<char>) -> Option<i32> {
    if json_pointer_present(response, ""@) && value_images(response) is Some {
        value_images(response)
    } else {
        let st = sse_images_fold((0i32, None), split_lines(response), 0);
        if st.1 is Some {
            st.1
        } else if st.0 > 0 {
            Some(st.0)
        } else {
            None
        }
    }
}

// ───────────────────────── executable counting ─────────────────────────

fn data_item_of(acc: i32, item: &str) -> (r: i32)
    ensures
        r == data_item(acc, item@),
{
    let u = url_count_of(item);
    if u > 0 {
        acc.wrapping_add(u)
    } else if inline_image_at(item) {
        acc.wrapping_add(1)
    } else {
        acc
    }
}

fn image_item_of(acc: i32, img: &str) -> (r: i32)
    ensures
        r == image_item(acc, img@),
{
    if json_has_pointer(img, "/url") {
        acc.wrapping_add(url_count_of(img))
    } else if inline_image_at(img) {
        acc.wrapping_add(1)
    } else {
        acc
    }
}

fn count_matches(v: &[char], p: &[char]) -> (r: usize)
    requires
        p@.len() > 0,
    ensures
        r as nat == match_count_from(v@, p@, 0),
{
    let n = v.len();
    let m = p.len();
    let mut i: usize = 0;
    let mut k: usize = 0;
    while i < n && m <= n - i
        invariant
            n == v@.len(),
            m == p@.len(),
            m > 0,
            i <= n,
            k <= i,
            match_count_from(v@, p@, 0) == k + match_count_from(v@, p@, i as int),
        decreases n - i,
    {
        if matches_at(v, p, i) {
            k = k + 1;
            i = i + m;
        } else {
            i = i + 1;
        }
    }
    k
}

fn add_link_words(acc: i32, v: &[char]) -> (r: i32)
    ensures
        r == link_words_fold(acc, v@, 0),
{
    let http = chars_of("http://");
    let https = chars_of("https://");
    let n = v.len();
    let mut a = acc;
    let mut i: usize = 0;
    while i < n
        invariant
            n == v@.len(),
            i <= n,
            http@ == "http://"@,
            https@ == "https://"@,
            link_words_fold(acc, v@, 0) == link_words_fold(a, v@, i as int),
        decreases n - i,
    {
        let start = !char_is_ws(v[i]) && (i == 0 || char_is_ws(v[i - 1]));
        if start && (matches_at(v, http.as_slice(), i) || matches_at(v, https.as_slice(), i)) {
            a = a.wrapping_add(1);
        }
        i = i + 1;
    }
    a
}

fn part_item_of(acc: i32, part: &str) -> (r: i32)
    ensures
        r == part_item(acc, part@),
{
    if json_has_pointer(part, "/inline_data") || json_has_pointer(part, "/inlineData") {
        return acc.wrapping_add(1);
    }
    match json_pointer_str(part, "/text") {
        Some(t) => {
            let v = chars_of(t.as_str());
            let pat = chars_of("](data:");
            proof {
                reveal_strlit("](data:");
            }
            let md = count_matches(v.as_slice(), pat.as_slice()) as i32;
            if md > 0 {
                acc.wrapping_add(md)
            } else {
                add_link_words(acc, v.as_slice())
            }
        },
        None => acc,
    }
}

fn candidate_item_of(acc: i32, cand: &str) -> (r: i32)
    ensures
        r == candidate_item(acc, cand@),
{
    match json_array_items(cand, "/content/parts") {
        Some(parts) => {
            let mut a = acc;
            let mut i: usize = 0;
            while i < parts.len()
                invariant
                    i <= parts.len(),
                    fold_items(acc, parts.deep_view(), 0, part_step()) == fold_items(
                        a,
                        parts.deep_view(),
                        i as int,
                        part_step(),
                    ),
                decreases parts.len() - i,
            {
                a = part_item_of(a, parts[i].as_str());
                i = i + 1;
            }
            a
        },
        None => acc,
    }
}

fn data_total_of(json: &str) -> (r: i32)
    ensures
        r == data_total(json@),
{
    match json_array_items(json, "/data") {
        Some(items) => {
            let mut a: i32 = 0;
            let mut i: usize = 0;
            while i < items.len()
                invariant
                    i <= items.len(),
                    fold_items(0, items.deep_view(), 0, data_step()) == fold_items(
                        a,
                        items.deep_view(),
                        i as int,
                        data_step(),
                    ),
                decreases items.len() - i,
            {
                a = data_item_of(a, items[i].as_str());
                i = i + 1;
            }
            a
        },
        None => 0,
    }
}

fn images_pointer_of(json: &str) -> (r: Option<&'static str>)
    ensures
        r.deep_view() == images_pointer(json@),
{
    if json_has_pointer(json, "/data/result/images") {
        Some("/data/result/images")
    } else if json_has_pointer(json, "/data/task_result/images") {
        Some("/data/task_result/images")
    } else if json_has_pointer(json, "/result/images") {
        Some("/result/images")
    } else if json_has_pointer(json, "/task_result/images") {
        Some("/task_result/images")
    } else if json_has_pointer(json, "/images") {
        Some("/images")
    } else {
        None
    }
}

fn images_total_of(json: &str) -> (r: i32)
    ensures
        r == images_total(json@),
{
    let p = match images_pointer_of(json) {
        Some(p) => p,
        None => return 0,
    };
    match json_array_items(json, p) {
        Some(items) => {
            let mut a: i32 = 0;
            let mut i: usize = 0;
            while i < items.len()
                invariant
                    i <= items.len(),
                    fold_items(0, items.deep_view(), 0, image_step()) == fold_items(
                        a,
                        items.deep_view(),
                        i as int,
                        image_step(),
                    ),
                decreases items.len() - i,
            {
                a = image_item_of(a, items[i].as_str());
                i = i + 1;
            }
            a
        },
        None => 0,
    }
}

fn gemini_total_of(json: &str) -> (r: i32)
    ensures
        r == gemini_total(json@),
{
    match json_array_items(json, "/candidates") {
        Some(cands) => {
            let mut a: i32 = 0;
            let mut i: usize = 0;
            while i < cands.len()
                invariant
                    i <= cands.len(),
                    fold_items(0, cands.deep_view(), 0, candidate_step()) == fold_items(
                        a,
                        cands.deep_view(),
                        i as int,
                        candidate_step(),
                    ),
                decreases cands.len() - i,
            {
                a = candidate_item_of(a, cands[i].as_str());
                i = i + 1;
            }
            a
        },
        None => 0,
    }
}

fn results_total_of(json: &str) -> (r: i32)
    ensures
        r == results_total(json@),
{
    match json_array_items(json, "/output/results") {
        Some(items) => {
            let mut k: usize = 0;
            let mut i: usize = 0;
            while i < items.len()
                invariant
                    i <= items.len(),
                    k <= i,
                    count_media(items.deep_view(), 0) == k + count_media(items.deep_view(), i as int),
                decreases items.len() - i,
            {
                let s = items[i].as_str();
                if inline_image_at(s) || nonempty_at(s, "/url") {
                    k = k + 1;
                }
                i = i + 1;
            }
            k as i32
        },
        None => 0,
    }
}

fn strings_total_of(json: &str, pointer: &str) -> (r: i32)
    ensures
        r == strings_total(json@, pointer@),
{
    match json_array_strings(json, pointer) {
        Some(a) => {
            let c = count_nonempty_strings(&a);
            c as i32
        },
        None => 0,
    }
}

fn array_images_of(json: &str) -> (r: Option<i32>)
    ensures
        r == array_images(json@),
{
    let mut t = data_total_of(json);
    if t == 0 {
        t = images_total_of(json);
    }
    if t == 0 {
        t = gemini_total_of(json);
    }
    if t == 0 {
        t = results_total_of(json);
    }
    if t == 0 {
        t = strings_total_of(json, "/data/image_urls");
    }
    if t == 0 {
        t = strings_total_of(json, "/data/binary_data_base64");
    }
    if t > 0 {
        Some(t)
    } else {
        None
    }
}

fn usage_images_of(json: &str) -> (r: Option<i32>)
    ensures
        r == usage_images(json@),
{
    match json_pointer_i64(json, "/usage/generated_images") {
        Some(c) => Some(c as i32),
        None => match json_pointer_i64(json, "/usage/image_count") {
            Some(c) => Some(c as i32),
            None => None,
        },
    }
}

/// The number of images an upstream response returned (see
/// [`response_images_model`]): the `data` array of OpenAI and Volcano Ark,
/// Gemini `candidates`, asynchronous result layouts, or the lines of a
/// buffered SSE stream; `None` when no image list is recognised.
pub fn count_response_images(response: &str) -> (r: Option<i32>)
    ensures
        r == response_images_model(response@),
{
    if json_has_pointer(response, "") {
        let whole = match usage_images_of(response) {
            Some(c) => Some(c),
            None => array_images_of(response),
        };
        if whole.is_some() {
            return whole;
        }
    }
    let lines = lines_of(response);
    let ghost ls = char_views(lines@);
    let mut summed: i32 = 0;
    let mut declared: Option<i32> = None;
    let mut i: usize = 0;
    while i < lines.len()
        invariant
            i <= lines.len(),
            ls == char_views(lines@),
            ls == split_lines(response@),
            sse_images_fold((0i32, None), ls, 0) == sse_images_fold((summed, declared), ls, i as int),
        decreases lines.len() - i,
    {
        match sse_payload(lines[i].as_slice()) {
            Some(j) => {
                if json_has_pointer(j.as_str(), "") {
                    match usage_images_of(j.as_str()) {
                        Some(c) => {
                            declared = Some(c);
                        },
                        None => {},
                    }
                    match array_images_of(j.as_str()) {
                        Some(c) => {
                            summed = summed.wrapping_add(c);
                        },
                        None => {},
                    }
                }
            },
            None => {},
        }
        i = i + 1;
    }
    if declared.is_some() {
        declared
    } else if summed > 0 {
        Some(summed)
    } else {
        None
    }
}

// ───────────────────────── usage excerpts ─────────────────────────

/// The compact JSON text `{"<key>":<raw>}`.
pub open spec fn wrap_member(key: Seq<char>, raw: Seq<char>) -> Seq<char> {
    "{\""@ + key + "\":"@ + raw + "}"@
}

fn wrap_member_text(key: &str, raw: &str) -> (r: String)
    ensures
        r@ == wrap_member(key@, raw@),
{
    let mut s = to_owned_string("{\"");
    string_append(&mut s, key);
    string_append(&mut s, "\":");
    string_append(&mut s, raw);
    string_append(&mut s, "}");
    s
}

/// The usage block of one SSE event: `usage`, `response.usage` or
/// `usageMetadata`, kept under its own key.
pub open spec fn sse_usage_step(last: Option<Seq<char>>, line: Seq<char>) -> Option<Seq<char>> {
    match line_payload(line) {
        Some(j) => if json_pointer_present(j, ""@) {
            match json_pointer_raw_at(j, "/usage"@) {
                Some(u) => Some(wrap_member("usage"@, u)),
                None => match json_pointer_raw_at(j, "/response/usage"@) {
                    Some(u) => Some(wrap_member("usage"@, u)),
                    None => match json_pointer_raw_at(j, "/usageMetadata"@) {
                        Some(u) => Some(wrap_member("usageMetadata"@, u)),
                        None => last,
                    },
                },
            }
        } else {
            last
        },
        None => last,
    }
}

/// The last usage block of `lines[i..]` after `last`.
pub open spec fn sse_usage_fold(last: Option<Seq<char>>, lines: Seq<Seq<char>>, i: int) -> Option<Seq<char>>
    decreases lines.len() - i,
{
    if i < 0 || i >= lines.len() {
        last
    } else {
        sse_usage_fold(sse_usage_step(last, lines[i]), lines, i + 1)
    }
}

/// The usage part of a response, for storage without the response's
/// content: of a JSON document the first of `usage`, `usageMetadata`,
/// `response.usage`, `final_result.usage` (kept nested) and `data.usage`;
/// of an SSE stream the last event's block.
pub open spec fn usage_excerpt_model(response: Seq<char>) -> Option<Seq<char>> {
    if json_pointer_present(response, ""@) {
        match json_pointer_raw_at(response, "/usage"@) {
            Some(u) => Some(wrap_member("usage"@, u)),
            None => match json_pointer_raw_at(response, "/usageMetadata"@) {
                Some(u) => Some(wrap_member("usageMetadata"@, u)),
                None => match json_pointer_raw_at(response, "/response/usage"@) {
                    Some(u) => Some(wrap_member("usage"@, u)),
                    None => match json_pointer_raw_at(response, "/final_result/usage"@) {
                        Some(u) => Some(wrap_member("final_result"@, wrap_member("usage"@, u))),
                        None => match json_pointer_raw_at(response, "/data/usage"@) {
                            Some(u) => Some(wrap_member("usage"@, u)),
                            None => None,
                        },
                    },
                },
            },
        }
    } else {
        sse_usage_fold(None, split_lines(response), 0)
    }
}

fn sse_usage_of(last: Option<String>, line: &[char]) -> (r: Option<String>)
    ensures
        r.deep_view() == sse_usage_step(last.deep_view(), line@),
{
    let j = match sse_payload(line) {
        Some(j) => j,
        None => return last,
    };
    if !json_has_pointer(j.as_str(), "") {
        return last;
    }
    match json_pointer_raw(j.as_str(), "/usage") {
        Some(u) => Some(wrap_member_text("usage", u.as_str())),
        None => match json_pointer_raw(j.as_str(), "/response/usage") {
            Some(u) => Some(wrap_member_text("usage", u.as_str())),
            None => match json_pointer_raw(j.as_str(), "/usageMetadata") {
                Some(u) => Some(wrap_member_text("usageMetadata", u.as_str())),
                None => last,
            },
        },
    }
}

/// The usage block of a response as compact JSON (see
/// [`usage_excerpt_model`]); `None` when it carries none.
pub fn extract_usage_json_string(response: &str) -> (r: Option<String>)
    ensures
        r.deep_view() == usage_excerpt_model(response@),
{
    if json_has_pointer(response, "") {
        if let Some(u) = json_pointer_raw(response, "/usage") {
            return Some(wrap_member_text("usage", u.as_str()));
        }
        if let Some(u) = json_pointer_raw(response, "/usageMetadata") {
            return Some(wrap_member_text("usageMetadata", u.as_str()));
        }
        if let Some(u) = json_pointer_raw(response, "/response/usage") {
            return Some(wrap_member_text("usage", u.as_str()));
        }
        if let Some(u) = json_pointer_raw(response, "/final_result/usage") {
            let inner = wrap_member_text("usage", u.as_str());
            return Some(wrap_member_text("final_result", inner.as_str()));
        }
        if let Some(u) = json_pointer_raw(response, "/data/usage") {
            return Some(wrap_member_text("usage", u.as_str()));
        }
        return None;
    }
    let lines = lines_of(response);
    let ghost ls = char_views(lines@);
    let mut last: Option<String> = None;
    let mut i: usize = 0;
    while i < lines.len()
        invariant
            i <= lines.len(),
            ls == char_views(lines@),
            ls == split_lines(response@),
            sse_usage_fold(None, ls, 0) == sse_usage_fold(last.deep_view(), ls, i as int),
        decreases lines.len() - i,
    {
        last = sse_usage_of(last, lines[i].as_slice());
        i = i + 1;
    }
    last
}

} // verus!
