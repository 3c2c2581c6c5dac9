//! Media handling for asset conversion and duration probing: URL and
//! base64 classification, log-friendly URLs, `Content-Range` totals, file
//! extensions from magic bytes, and the integer fields that carry a video's
//! duration in MP4, WebM, AVI and FLV headers.
use vstd::prelude::*;
use crate::json::{json_pointer_str, json_pointer_text};
use crate::proxy::{parse_ebml_vint, vint_model};
use crate::json_tree::{item_views, jget, with_member, JsonValue, JsonView};
use crate::digest::{hex_encode, hex_model, sha256, sha256_of};
use crate::text::{
    all_digits, ascii_lower, chars_ascii_lower, chars_contains, chars_eq, chars_of, chars_rfind,
    chars_starts_with, contains, is_digit, last_index, occurs_at, slice_range, split_once_at,
    split_once_model, starts_with, str_eq, string_append, string_from_chars, to_owned_string, trim,
    trim_str, dec_string, push_u64, str_contains, to_lowercase, unicode_lower,
};

verus! {

// ───────────────────────── URLs and inline data ─────────────────────────

/// An `http://` or `https://` URL.
pub fn is_http_media_url(s: &str) -> (r: bool)
    ensures
        r == (starts_with(s@, "http://"@) || starts_with(s@, "https://"@)),
{
    let v = chars_of(s);
    let a = chars_of("http://");
    let b = chars_of("https://");
    chars_starts_with(v.as_slice(), a.as_slice()) || chars_starts_with(v.as_slice(), b.as_slice())
}

/// The UTF-8 length of a character sequence (`str::len`, read as `usize`
/// where it is compared).
pub open spec fn utf8_len(s: Seq<char>) -> nat {
    vstd::utf8::encode_utf8(s).len()
}

/// Inline media: a `data:` URI, or a bare base64 candidate (at least 32
/// bytes after trimming, with no `.` or `:`, so no URL or path).
pub open spec fn base64_media_model(s: Seq<char>) -> bool {
    let t = trim(s);
    starts_with(t, "data:"@) || (utf8_len(t) as usize >= 32 && !contains(t, "."@) && !contains(t, ":"@))
}

/// Whether `s` is inline base64 media.
pub fn is_base64_media(s: &str) -> (r: bool)
    ensures
        r == base64_media_model(s@),
{
    let t = trim_str(s);
    let v = chars_of(t);
    let d = chars_of("data:");
    if chars_starts_with(v.as_slice(), d.as_slice()) {
        return true;
    }
    let dot = chars_of(".");
    let colon = chars_of(":");
    t.len() >= 32 && !chars_contains(v.as_slice(), dot.as_slice()) && !chars_contains(
        v.as_slice(),
        colon.as_slice(),
    )
}

/// A URL as logged: inline data is named, not printed; a URL longer than
/// 80 bytes keeps its first 80 characters and gains `...`.
pub open spec fn short_url_model(url: Seq<char>) -> Seq<char> {
    if base64_media_model(url) {
        "base64数据"@
    } else if utf8_len(url) as usize > 80 {
        let n: int = if url.len() > 80 {
            80
        } else {
            url.len() as int
        };
        url.subrange(0, n) + "..."@
    } else {
        url
    }
}

/// A URL shortened for logs.
pub fn shorten_url_for_log(url: &str) -> (r: String)
    ensures
        r@ == short_url_model(url@),
{
    if is_base64_media(url) {
        return to_owned_string("base64数据");
    }
    if url.len() > 80 {
        let v = chars_of(url);
        let n: usize = if v.len() > 80 {
            80
        } else {
            v.len()
        };
        let head = slice_range(v.as_slice(), 0, n);
        let mut s = string_from_chars(head.as_slice());
        string_append(&mut s, "...");
        s
    } else {
        to_owned_string(url)
    }
}

// ───────────────────────── content items to convert ─────────────────────────

/// The URL member and asset type of a `content[]` item type that holds a
/// convertible URL.
pub open spec fn url_type(t: Seq<char>) -> Option<(Seq<char>, Seq<char>)> {
    if t == "image_url"@ {
        Some(("image_url"@, "Image"@))
    } else if t == "video_url"@ {
        Some(("video_url"@, "Video"@))
    } else if t == "audio_url"@ {
        Some(("audio_url"@, "Audio"@))
    } else {
        None
    }
}

/// The conversion a `content[]` item asks for: its URL member, asset type
/// and the URL at `<member>.url`, unless that is already an `asset://` id.
pub open spec fn convert_task(item: Seq<char>) -> Option<(Seq<char>, Seq<char>, Seq<char>)> {
    match json_pointer_text(item, "/type"@) {
        Some(t) => match url_type(t) {
            Some((k, a)) => match json_pointer_text(item, "/"@ + k + "/url"@) {
                Some(u) => if starts_with(u, "asset://"@) {
                    None
                } else {
                    Some((k, a, u))
                },
                None => None,
            },
            None => None,
        },
        None => None,
    }
}

/// The conversions of `items[i..]`: index, URL member, asset type, URL and
/// the URL as logged, in order.
pub open spec fn convert_tasks(items: Seq<Seq<char>>, i: int) -> Seq<
    (usize, Seq<char>, Seq<char>, Seq<char>, Seq<char>),
>
    decreases items.len() - i,
{
    if i < 0 || i >= items.len() {
        seq![]
    } else {
        match convert_task(items[i]) {
            Some((k, a, u)) => seq![(i as usize, k, a, u, short_url_model(u))] + convert_tasks(items, i + 1),
            None => convert_tasks(items, i + 1),
        }
    }
}

fn url_type_of(t: &str) -> (r: Option<(&'static str, &'static str)>)
    ensures
        r.deep_view() == url_type(t@),
{
    if str_eq(t, "image_url") {
        Some(("image_url", "Image"))
    } else if str_eq(t, "video_url") {
        Some(("video_url", "Video"))
    } else if str_eq(t, "audio_url") {
        Some(("audio_url", "Audio"))
    } else {
        None
    }
}

fn convert_task_of(item: &str) -> (r: Option<(&'static str, &'static str, String)>)
    ensures
        r.deep_view() == convert_task(item@),
{
    let t = match json_pointer_str(item, "/type") {
        Some(t) => t,
        None => return None,
    };
    let (k, a) = match url_type_of(t.as_str()) {
        Some(p) => p,
        None => return None,
    };
    let mut p = to_owned_string("/");
    string_append(&mut p, k);
    string_append(&mut p, "/url");
    let u = match json_pointer_str(item, p.as_str()) {
        Some(u) => u,
        None => return None,
    };
    if chars_starts_with(chars_of(u.as_str()).as_slice(), chars_of("asset://").as_slice()) {
        None
    } else {
        Some((k, a, u))
    }
}

/// The items of a request's `content[]` (each as JSON text) whose image,
/// video or audio URL is to become an uploaded asset, with their index,
/// URL member, asset type, URL and the URL as logged (see
/// [`convert_tasks`]).
pub fn collect_content_convert_tasks(content_arr: &[String]) -> (r: Vec<(usize, String, String, String, String)>)
    ensures
        r.deep_view() == convert_tasks(content_arr.deep_view(), 0),
{
    let ghost items = content_arr.deep_view();
    let mut out: Vec<(usize, String, String, String, String)> = Vec::new();
    let mut i: usize = 0;
    while i < content_arr.len()
        invariant
            i <= content_arr@.len(),
            items == content_arr.deep_view(),
            out.deep_view() + convert_tasks(items, i as int) == convert_tasks(items, 0),
        decreases content_arr.len() - i,
    {
        let ghost before = out.deep_view();
        match convert_task_of(content_arr[i].as_str()) {
            Some((k, a, u)) => {
                let short = shorten_url_for_log(u.as_str());
                let entry = (i, to_owned_string(k), to_owned_string(a), u, short);
                out.push(entry);
                assert(out.deep_view() =~= before.push(entry.deep_view()));
                assert(before + convert_tasks(items, i as int) =~= before.push(entry.deep_view())
                    + convert_tasks(items, i + 1));
            },
            None => {},
        }
        i = i + 1;
    }
    assert(out.deep_view() + convert_tasks(items, i as int) =~= out.deep_view());
    out
}

/// The whole-file length of a `Content-Range` value (`bytes 0-0/N` or
/// `bytes */N`): the digits after the last `/`; `None` for `*` or anything
/// that is not a number.
pub open spec fn range_total_model(cr: Seq<char>) -> Option<Seq<char>> {
    let after = if contains(cr, "/"@) {
        cr.subrange(last_index(cr, "/"@) + 1, cr.len() as int)
    } else {
        cr
    };
    let t = trim(after);
    if t.len() == 0 || t == "*"@ {
        None
    } else if all_digits(t) {
        Some(t)
    } else {
        None
    }
}

pub(crate) fn all_digit_chars(v: &[char]) -> (r: bool)
    ensures
        r == all_digits(v@),
{
    let mut i: usize = 0;
    while i < v.len()
        invariant
            i <= v@.len(),
            forall|k: int| 0 <= k < i ==> is_digit(#[trigger] v@[k]),
        decreases v.len() - i,
    {
        let c = v[i] as u32;
        if !(48 <= c && c <= 57) {
            assert(!is_digit(v@[i as int]));
            return false;
        }
        i = i + 1;
    }
    true
}

/// The total length announced by a `Content-Range` header.
pub fn content_range_total(cr: &str) -> (r: Option<&str>)
    ensures
        match r {
            Some(t) => range_total_model(cr@) == Some(t@),
            None => range_total_model(cr@) is None,
        },
{
    let v = chars_of(cr);
    let slash: Vec<char> = vec!['/'];
    proof {
        reveal_strlit("/");
        reveal_strlit("*");
        assert(slash@ =~= "/"@);
    }
    let after: &str = match chars_rfind(v.as_slice(), slash.as_slice()) {
        Some(i) => {
            assert(occurs_at(v@, slash@, i as int));
            let n = v.len();
            assert(i + slash@.len() <= n);
            proof {
                assert(contains(cr@, "/"@));
            }
            cr.substring_char(i + 1, n)
        },
        None => cr,
    };
    let t = trim_str(after);
    let tv = chars_of(t);
    if tv.len() == 0 || str_eq(t, "*") {
        return None;
    }
    if !all_digit_chars(tv.as_slice()) {
        return None;
    }
    Some(t)
}

/// A content item once its `url_key` member, where that is an object, has
/// its `url` set to `asset://` and the asset id; any other item unchanged.
pub open spec fn asset_url_set(item: JsonView, url_key: Seq<char>, asset_id: Seq<char>) -> JsonView {
    match jget(item, url_key) {
        Some(u) => if u is Object {
            with_member(item, url_key, with_member(u, "url"@, JsonView::Str("asset://"@ + asset_id)))
        } else {
            item
        },
        None => item,
    }
}

/// The log line of a converted item: `[type] url ✓ asset://id`, marked when
/// the asset came from the cache.
pub open spec fn convert_ok_line(asset_type: Seq<char>, url_short: Seq<char>, asset_id: Seq<char>, cached: bool) -> Seq<
    char,
> {
    "["@ + asset_type + "] "@ + url_short + " ✓ asset://"@ + asset_id + (if cached {
        " [命中缓存]"@
    } else {
        ""@
    })
}

/// Points item `idx` of `content[]` at its uploaded asset (see
/// [`asset_url_set`]; an index past the end changes nothing) and logs the
/// conversion (see [`convert_ok_line`]).
pub fn push_convert_ok(
    content_arr: &mut Vec<JsonValue>,
    logs: &mut Vec<String>,
    idx: usize,
    url_key: &str,
    asset_type: &str,
    url_short: &str,
    asset_id: &str,
    cached: bool,
)
    ensures
        item_views(final(content_arr)@) == (if idx < old(content_arr)@.len() {
            item_views(old(content_arr)@).update(
                idx as int,
                asset_url_set(old(content_arr)@[idx as int]@, url_key@, asset_id@),
            )
        } else {
            item_views(old(content_arr)@)
        }),
        final(logs)@.len() == old(logs)@.len() + 1,
        forall|i: int| 0 <= i < old(logs)@.len() ==> #[trigger] final(logs)@[i] == old(logs)@[i],
        final(logs)@[old(logs)@.len() as int]@ == convert_ok_line(asset_type@, url_short@, asset_id@, cached),
{
    let ghost before = item_views(content_arr@);
    if idx < content_arr.len() {
        let ghost old_item = content_arr@[idx as int]@;
        let mut item = content_arr[idx].duplicate();
        let replaced = match item.get(url_key) {
            Some(u) => if u.is_object() {
                let mut u2 = u.duplicate();
                let mut target = to_owned_string("asset://");
                string_append(&mut target, asset_id);
                proof {
                    reveal_strlit("asset://");
                }
                u2.insert_member("url", JsonValue::Str(target));
                Some(u2)
            } else {
                None
            },
            None => None,
        };
        if let Some(u2) = replaced {
            item.insert_member(url_key, u2);
            content_arr.set(idx, item);
            assert(item_views(content_arr@) =~= before.update(
                idx as int,
                asset_url_set(old_item, url_key@, asset_id@),
            ));
        } else {
            assert(asset_url_set(old_item, url_key@, asset_id@) == old_item);
            assert(before.update(idx as int, old_item) =~= before);
        }
    }
    let mut line = to_owned_string("[");
    string_append(&mut line, asset_type);
    string_append(&mut line, "] ");
    string_append(&mut line, url_short);
    string_append(&mut line, " ✓ asset://");
    string_append(&mut line, asset_id);
    if cached {
        string_append(&mut line, " [命中缓存]");
    } else {
        proof {
            reveal_strlit("");
        }
        assert(line@ + ""@ =~= line@);
    }
    logs.push(line);
}

// ───────────────────────── asset identities ─────────────────────────

/// The part of a URL before its query (`?`) and fragment (`#`).
pub open spec fn url_base(url: Seq<char>) -> Seq<char> {
    let a = match split_once_model(url, '?') {
        Some(p) => p.0,
        None => url,
    };
    match split_once_model(a, '#') {
        Some(p) => p.0,
        None => a,
    }
}

/// [`url_base`] as characters.
fn url_base_chars(url: &str) -> (r: Vec<char>)
    ensures
        r@ == url_base(url@),
{
    let v = chars_of(url);
    let a = match split_once_at(v.as_slice(), '?') {
        Some((a, _)) => a,
        None => v,
    };
    match split_once_at(a.as_slice(), '#') {
        Some((b, _)) => b,
        None => a,
    }
}

/// The whole file's length as a ranged metadata response states it: the
/// total of `Content-Range`, else `Content-Length` of a 200 answer, else
/// nothing.
pub open spec fn full_length(status: u16, content_range: Seq<char>, content_length: Seq<char>) -> Seq<char> {
    match range_total_model(content_range) {
        Some(t) => t,
        None => if status == 200 && content_length.len() > 0 {
            content_length
        } else {
            Seq::empty()
        },
    }
}

/// The metadata fingerprint of a remote file: the hexadecimal SHA-256 of
/// `base|length|etag|last-modified` (see [`url_base`], [`full_length`]);
/// `None` when the response states none of length, ETag and modification
/// time.
pub open spec fn fingerprint_model(
    url: Seq<char>,
    status: u16,
    etag: Seq<char>,
    last_modified: Seq<char>,
    content_range: Seq<char>,
    content_length: Seq<char>,
) -> Option<Seq<char>> {
    let fl = full_length(status, content_range, content_length);
    if fl.len() == 0 && etag.len() == 0 && last_modified.len() == 0 {
        None
    } else {
        Some(
            hex_model(
                sha256_of(
                    vstd::utf8::encode_utf8(url_base(url) + "|"@ + fl + "|"@ + etag + "|"@ + last_modified),
                ),
            ),
        )
    }
}

/// The metadata fingerprint of a remote file from the headers of a ranged
/// request for it (see [`fingerprint_model`]): `status`, `ETag`,
/// `Last-Modified`, `Content-Range` and `Content-Length`, each empty when
/// absent.
pub fn meta_fingerprint_of(
    url: &str,
    status: u16,
    etag: &str,
    last_modified: &str,
    content_range: &str,
    content_length: &str,
) -> (r: Option<String>)
    ensures
        r.deep_view() == fingerprint_model(url@, status, etag@, last_modified@, content_range@, content_length@),
{
    let full_len = match content_range_total(content_range) {
        Some(t) => to_owned_string(t),
        None => if status == 200 && !content_length.is_empty() {
            to_owned_string(content_length)
        } else {
            proof {
                reveal_strlit("");
            }
            to_owned_string("")
        },
    };
    if full_len.as_str().is_empty() && etag.is_empty() && last_modified.is_empty() {
        return None;
    }
    let base = url_base_chars(url);
    let mut text = string_from_chars(base.as_slice());
    string_append(&mut text, "|");
    string_append(&mut text, full_len.as_str());
    string_append(&mut text, "|");
    string_append(&mut text, etag);
    string_append(&mut text, "|");
    string_append(&mut text, last_modified);
    let dig = sha256(text.as_str().as_bytes());
    Some(hex_encode(dig.as_slice()))
}

/// Where the segment of `s` that ends at `e` starts: just after the last
/// `/` before `e`, or 0.
pub open spec fn seg_start(s: Seq<char>, e: int) -> int
    decreases e,
{
    if e <= 0 {
        0
    } else if s[e - 1] == '/' {
        e
    } else {
        seg_start(s, e - 1)
    }
}

/// The last non-empty `/`-separated segment of `s[..e]`; empty when there
/// is none.
pub open spec fn last_segment(s: Seq<char>, e: int) -> Seq<char>
    decreases e,
{
    if e <= 0 {
        Seq::empty()
    } else if s[e - 1] == '/' {
        last_segment(s, e - 1)
    } else {
        s.subrange(seg_start(s, e), e)
    }
}

/// The name an uploaded asset is created with, before the service's length
/// limit: the last path segment of the URL (query and fragment dropped);
/// where there is none, or the URL has no `/`, `tb_`, the asset type in
/// lower case, `_` and the first four bytes of the URL's SHA-256 in
/// hexadecimal.
pub open spec fn asset_name_model(url: Seq<char>, asset_type: Seq<char>) -> Seq<char> {
    let bare = url_base(url);
    let name = last_segment(bare, bare.len() as int);
    if name.len() == 0 || name == bare {
        "tb_"@ + ascii_lower(asset_type) + "_"@ + hex_model(sha256_of(vstd::utf8::encode_utf8(url)).subrange(0, 4))
    } else {
        name
    }
}

/// The name an uploaded asset is created with (see [`asset_name_model`]).
pub fn create_asset_base_name(url: &str, asset_type: &str) -> (r: String)
    ensures
        r@ == asset_name_model(url@, asset_type@),
{
    let bare = url_base_chars(url);
    let n = bare.len();
    let mut e = n;
    while e > 0 && bare[e - 1] == '/'
        invariant
            e <= n,
            n == bare@.len(),
            last_segment(bare@, e as int) == last_segment(bare@, n as int),
        decreases e,
    {
        e = e - 1;
    }
    let name = if e == 0 {
        Vec::new()
    } else {
        let mut k = e;
        while k > 0 && bare[k - 1] != '/'
            invariant
                k <= e,
                e <= n,
                n == bare@.len(),
                seg_start(bare@, k as int) == seg_start(bare@, e as int),
            decreases k,
        {
            k = k - 1;
        }
        slice_range(bare.as_slice(), k, e)
    };
    if name.len() == 0 || chars_eq(name.as_slice(), bare.as_slice()) {
        let dig = sha256(url.as_bytes());
        let mut head: Vec<u8> = Vec::new();
        head.push(dig[0]);
        head.push(dig[1]);
        head.push(dig[2]);
        head.push(dig[3]);
        assert(head@ =~= dig@.subrange(0, 4));
        let mut out = to_owned_string("tb_");
        let lower = chars_ascii_lower(chars_of(asset_type).as_slice());
        let lt = string_from_chars(lower.as_slice());
        string_append(&mut out, lt.as_str());
        string_append(&mut out, "_");
        let h = hex_encode(head.as_slice());
        string_append(&mut out, h.as_str());
        out
    } else {
        string_from_chars(name.as_slice())
    }
}

// ───────────────────────── creating and awaiting an asset ─────────────────────────

/// Seconds between two polls of a new asset.
pub const ASSET_POLL_INTERVAL_SECS: u64 = 3;

/// How long a new asset is awaited: 60 s for an image, 120 s for audio,
/// 180 s otherwise (video).
pub open spec fn asset_wait_model(asset_type: Seq<char>) -> u64 {
    if asset_type == "Image"@ {
        60
    } else if asset_type == "Audio"@ {
        120
    } else {
        180
    }
}

/// How long a new asset is awaited (see [`asset_wait_model`]).
pub fn asset_wait_secs(asset_type: &str) -> (r: u64)
    ensures
        r == asset_wait_model(asset_type@),
{
    if str_eq(asset_type, "Image") {
        60
    } else if str_eq(asset_type, "Audio") {
        120
    } else {
        180
    }
}

/// Whether a failed asset creation is retried with a fresh asset group:
/// its error mentions a group or authorisation (in lower case).
pub fn create_asset_retry_with_new_group(err: &str) -> (r: bool)
    ensures
        r == (contains(unicode_lower(err@), "group"@) || contains(unicode_lower(err@), "auth"@)),
{
    let lower = to_lowercase(err);
    str_contains(lower.as_str(), "group") || str_contains(lower.as_str(), "auth")
}

/// The asset group to retry with.
#[derive(Debug, PartialEq, Eq)]
pub enum GroupRefresh {
    /// Another request already stored a different group: use it.
    UseStored(String),
    /// Make a new group.
    CreateNew,
}

/// The group to retry a creation with: the stored group when the stored
/// settings (`stored`, `None` when they cannot be read) hold one that
/// differs from the group just used; otherwise a new group.
pub fn group_after_failure(current: &str, stored: Option<Option<&str>>) -> (r: GroupRefresh)
    ensures
        match stored {
            Some(Some(g)) => if g@ != current@ {
                r matches GroupRefresh::UseStored(x) && x@ == g@
            } else {
                r is CreateNew
            },
            _ => r is CreateNew,
        },
{
    match stored {
        Some(Some(g)) => if !str_eq(g, current) {
            GroupRefresh::UseStored(to_owned_string(g))
        } else {
            GroupRefresh::CreateNew
        },
        _ => GroupRefresh::CreateNew,
    }
}

/// Why an asset failed: the error's message, else its code; without an
/// error object, `[code] reason`, `[code]` or the reason; `审核未通过` when
/// nothing is given.
pub open spec fn asset_fail_reason_model(
    error: Option<(Seq<char>, Seq<char>)>,
    fail_code: Seq<char>,
    fail_reason: Seq<char>,
) -> Seq<char> {
    match error {
        Some(e) => if e.0.len() > 0 {
            e.0
        } else if e.1.len() > 0 {
            e.1
        } else {
            "审核未通过"@
        },
        None => if fail_code.len() > 0 && fail_reason.len() > 0 {
            "["@ + fail_code + "] "@ + fail_reason
        } else if fail_code.len() > 0 {
            "["@ + fail_code + "]"@
        } else if fail_reason.len() > 0 {
            fail_reason
        } else {
            "审核未通过"@
        },
    }
}

/// Why an asset failed (see [`asset_fail_reason_model`]); `error` is the
/// response's error (message, code), absent codes and reasons are empty.
pub fn asset_fail_reason(error: Option<(&str, &str)>, fail_code: &str, fail_reason: &str) -> (r: String)
    ensures
        r@ == asset_fail_reason_model(
            match error {
                Some(e) => Some((e.0@, e.1@)),
                None => None,
            },
            fail_code@,
            fail_reason@,
        ),
{
    match error {
        Some((m, c)) => if !m.is_empty() {
            to_owned_string(m)
        } else if !c.is_empty() {
            to_owned_string(c)
        } else {
            to_owned_string("审核未通过")
        },
        None => if !fail_code.is_empty() && !fail_reason.is_empty() {
            let mut out = to_owned_string("[");
            string_append(&mut out, fail_code);
            string_append(&mut out, "] ");
            string_append(&mut out, fail_reason);
            out
        } else if !fail_code.is_empty() {
            let mut out = to_owned_string("[");
            string_append(&mut out, fail_code);
            string_append(&mut out, "]");
            out
        } else if !fail_reason.is_empty() {
            to_owned_string(fail_reason)
        } else {
            to_owned_string("审核未通过")
        },
    }
}

/// The next step of awaiting an asset.
#[derive(Debug, PartialEq, Eq)]
pub enum AssetPollAction {
    /// Wait the poll interval, then ask for the asset's status.
    Poll,
    /// The asset is ready.
    Ready,
    /// Give up with this message.
    Fail(String),
}

/// The state of awaiting a newly created asset.
pub struct AssetPoll {
    pub asset_id: String,
    /// The longest wait, in seconds (see [`asset_wait_model`]).
    pub wait_secs: u64,
    /// Polls made so far.
    pub polls: u64,
    /// The error of the latest poll that could not be made.
    pub last_err: Option<String>,
}

/// The polls an asset gets: the wait divided by the poll interval.
pub open spec fn max_polls(wait_secs: u64) -> u64 {
    wait_secs / ASSET_POLL_INTERVAL_SECS
}

/// The message of an asset that did not become ready in time.
pub open spec fn asset_timeout_model(wait_secs: u64, asset_id: Seq<char>, last_err: Option<Seq<char>>) -> Seq<char> {
    match last_err {
        Some(e) => "素材处理超时("@ + dec_string(wait_secs as nat) + "s): "@ + asset_id + ", 错误: "@ + e,
        None => "素材处理超时("@ + dec_string(wait_secs as nat) + "s): "@ + asset_id,
    }
}

impl AssetPoll {
    /// Starts awaiting asset `asset_id` of type `asset_type`.
    pub fn new(asset_id: &str, asset_type: &str) -> (r: Self)
        ensures
            r.asset_id@ == asset_id@,
            r.wait_secs == asset_wait_model(asset_type@),
            r.polls == 0,
            r.last_err is None,
    {
        AssetPoll { asset_id: to_owned_string(asset_id), wait_secs: asset_wait_secs(asset_type), polls: 0, last_err: None }
    }

    /// What to do next: poll while polls remain, else give up with the
    /// timeout message (see [`asset_timeout_model`]).
    pub fn next(&self) -> (r: AssetPollAction)
        ensures
            self.polls < max_polls(self.wait_secs) ==> r is Poll,
            self.polls >= max_polls(self.wait_secs) ==> (r matches AssetPollAction::Fail(m) && m@
                == asset_timeout_model(self.wait_secs, self.asset_id@, self.last_err.deep_view())),
    {
        if self.polls < self.wait_secs / ASSET_POLL_INTERVAL_SECS {
            return AssetPollAction::Poll;
        }
        let mut m = to_owned_string("素材处理超时(");
        push_u64(&mut m, self.wait_secs);
        string_append(&mut m, "s): ");
        string_append(&mut m, self.asset_id.as_str());
        match &self.last_err {
            Some(e) => {
                string_append(&mut m, ", 错误: ");
                string_append(&mut m, e.as_str());
            },
            None => {},
        }
        AssetPollAction::Fail(m)
    }

    /// Takes the status a poll returned: `Active` is ready, `Failed` fails
    /// with `素材处理失败(<id>): <reason>`, any other status counts the poll
    /// and polls again.
    pub fn on_status(&mut self, status: &str, reason: &str) -> (r: AssetPollAction)
        requires
            old(self).polls < max_polls(old(self).wait_secs),
        ensures
            final(self).asset_id == old(self).asset_id,
            final(self).wait_secs == old(self).wait_secs,
            final(self).last_err == old(self).last_err,
            final(self).polls == old(self).polls + 1,
            status@ == "Active"@ ==> r is Ready,
            status@ == "Failed"@ ==> (r matches AssetPollAction::Fail(m) && m@ == "素材处理失败("@ + old(self).asset_id@
                + "): "@ + reason@),
            status@ != "Active"@ && status@ != "Failed"@ ==> r is Poll,
    {
        self.polls = self.polls + 1;
        proof {
            reveal_strlit("Active");
            reveal_strlit("Failed");
            assert("Active"@[0] != "Failed"@[0]);
        }
        if str_eq(status, "Active") {
            return AssetPollAction::Ready;
        }
        if str_eq(status, "Failed") {
            let mut m = to_owned_string("素材处理失败(");
            string_append(&mut m, self.asset_id.as_str());
            string_append(&mut m, "): ");
            string_append(&mut m, reason);
            return AssetPollAction::Fail(m);
        }
        AssetPollAction::Poll
    }

    /// Takes a poll that could not be made: the poll counts and its error
    /// is remembered for the timeout message.
    pub fn on_error(&mut self, err: String)
        requires
            old(self).polls < max_polls(old(self).wait_secs),
        ensures
            final(self).asset_id == old(self).asset_id,
            final(self).wait_secs == old(self).wait_secs,
            final(self).polls == old(self).polls + 1,
            final(self).last_err == Some(err),
    {
        self.polls = self.polls + 1;
        self.last_err = Some(err);
    }
}

// ───────────────────────── byte patterns ─────────────────────────

/// `p` occurs in `s` at `i`.
pub open spec fn bytes_at(s: Seq<u8>, i: int, p: Seq<u8>) -> bool {
    0 <= i && i + p.len() <= s.len() && s.subrange(i, i + p.len()) == p
}

/// Where `p` first occurs in `s` (`windows(p.len()).position(..)`).
#[verifier::opaque]
pub open spec fn find_model(s: Seq<u8>, p: Seq<u8>) -> Option<int> {
    if exists|i: int| bytes_at(s, i, p) {
        Some(choose|i: int| bytes_at(s, i, p) && forall|k: int| 0 <= k < i ==> !bytes_at(s, k, p))
    } else {
        None
    }
}

proof fn lemma_find_unique(s: Seq<u8>, p: Seq<u8>, i: int)
    requires
        bytes_at(s, i, p),
        forall|k: int| 0 <= k < i ==> !bytes_at(s, k, p),
    ensures
        find_model(s, p) == Some(i),
{
    reveal(find_model);
    let j = choose|j: int| bytes_at(s, j, p) && forall|k: int| 0 <= k < j ==> !bytes_at(s, k, p);
    assert(bytes_at(s, j, p));
    if j < i {
        assert(!bytes_at(s, j, p));
    }
    if i < j {
        assert(!bytes_at(s, i, p));
    }
}

/// Whether `v[i..]` begins with `p`.
pub fn bytes_match_at(v: &[u8], p: &[u8], i: usize) -> (r: bool)
    ensures
        r == bytes_at(v@, i as int, p@),
{
    let n = v.len();
    if i > n || p.len() > n - i {
        return false;
    }
    let mut k: usize = 0;
    while k < p.len()
        invariant
            n == v@.len(),
            i + p@.len() <= n,
            k <= p@.len(),
            forall|j: int| 0 <= j < k ==> v@[i + j] == p@[j],
        decreases p.len() - k,
    {
        if v[i + k] != p[k] {
            assert(v@.subrange(i as int, i + p@.len())[k as int] != p@[k as int]);
            return false;
        }
        k = k + 1;
    }
    assert(v@.subrange(i as int, i + p@.len()) =~= p@);
    true
}

/// The first index at which `p` occurs in `v`.
pub fn find_bytes(v: &[u8], p: &[u8]) -> (r: Option<usize>)
    requires
        p@.len() > 0,
    ensures
        match r {
            Some(i) => find_model(v@, p@) == Some(i as int) && bytes_at(v@, i as int, p@),
            None => find_model(v@, p@) is None,
        },
{
    let mut i: usize = 0;
    while i < v.len()
        invariant
            i <= v@.len(),
            forall|k: int| 0 <= k < i ==> !bytes_at(v@, k, p@),
        decreases v.len() - i,
    {
        if bytes_match_at(v, p, i) {
            proof {
                lemma_find_unique(v@, p@, i as int);
            }
            return Some(i);
        }
        i = i + 1;
    }
    proof {
        reveal(find_model);
        if exists|k: int| bytes_at(v@, k, p@) {
            let k = choose|k: int| bytes_at(v@, k, p@);
            assert(k < v@.len());
        }
    }
    None
}

/// `v[from..]` as an owned vector.
pub fn bytes_from(v: &[u8], from: usize) -> (r: Vec<u8>)
    requires
        from <= v@.len(),
    ensures
        r@ == v@.subrange(from as int, v@.len() as int),
{
    let mut out: Vec<u8> = Vec::new();
    let mut i: usize = from;
    while i < v.len()
        invariant
            from <= i <= v@.len(),
            out@ == v@.subrange(from as int, i as int),
        decreases v.len() - i,
    {
        out.push(v[i]);
        i = i + 1;
        assert(out@ =~= v@.subrange(from as int, i as int));
    }
    out
}

// ───────────────────────── magic bytes ─────────────────────────

/// The extension of a file from its first bytes, if recognised.
pub open spec fn magic_model(b: Seq<u8>) -> Option<Seq<char>> {
    if bytes_at(b, 0, seq![0x89u8, 0x50u8, 0x4Eu8, 0x47u8, 0x0Du8, 0x0Au8, 0x1Au8, 0x0Au8]) {
        Some("png"@)
    } else if bytes_at(b, 0, seq![0xFFu8, 0xD8u8, 0xFFu8]) {
        Some("jpg"@)
    } else if bytes_at(b, 0, seq![0x47u8, 0x49u8, 0x46u8, 0x38u8]) {
        Some("gif"@)
    } else if bytes_at(b, 0, seq![82u8, 73u8, 70u8, 70u8]) && bytes_at(b, 8, seq![87u8, 69u8, 66u8, 80u8]) {
        Some("webp"@)
    } else if bytes_at(b, 4, seq![102u8, 116u8, 121u8, 112u8]) {
        Some("mp4"@)
    } else if bytes_at(b, 0, seq![0x1Au8, 0x45u8, 0xDFu8, 0xA3u8]) {
        Some("webm"@)
    } else if bytes_at(b, 0, seq![73u8, 68u8, 51u8]) || bytes_at(b, 0, seq![0xFFu8, 0xFBu8])
        || bytes_at(b, 0, seq![0xFFu8, 0xF3u8]) || bytes_at(b, 0, seq![0xFFu8, 0xF2u8]) {
        Some("mp3"@)
    } else if bytes_at(b, 0, seq![82u8, 73u8, 70u8, 70u8]) && bytes_at(b, 8, seq![87u8, 65u8, 86u8, 69u8]) {
        Some("wav"@)
    } else if bytes_at(b, 0, seq![79u8, 103u8, 103u8, 83u8]) {
        Some("ogg"@)
    } else {
        None
    }
}

fn at(b: &[u8], off: usize, p: Vec<u8>) -> (r: bool)
    ensures
        r == bytes_at(b@, off as int, p@),
{
    bytes_match_at(b, p.as_slice(), off)
}

/// The extension for `bytes` by their magic number; `default_ext` when
/// unknown.
pub fn ext_from_magic(bytes: &[u8], default_ext: &str) -> (r: String)
    ensures
        r@ == (match magic_model(bytes@) {
            Some(e) => e,
            None => default_ext@,
        }),
{
    let b = bytes;
    let png = vec![0x89u8, 0x50u8, 0x4Eu8, 0x47u8, 0x0Du8, 0x0Au8, 0x1Au8, 0x0Au8];
    assert(png@ =~= seq![0x89u8, 0x50u8, 0x4Eu8, 0x47u8, 0x0Du8, 0x0Au8, 0x1Au8, 0x0Au8]);
    let jpg = vec![0xFFu8, 0xD8u8, 0xFFu8];
    assert(jpg@ =~= seq![0xFFu8, 0xD8u8, 0xFFu8]);
    let gif = vec![0x47u8, 0x49u8, 0x46u8, 0x38u8];
    assert(gif@ =~= seq![0x47u8, 0x49u8, 0x46u8, 0x38u8]);
    let riff = vec![82u8, 73u8, 70u8, 70u8];
    assert(riff@ =~= seq![82u8, 73u8, 70u8, 70u8]);
    let webp = vec![87u8, 69u8, 66u8, 80u8];
    assert(webp@ =~= seq![87u8, 69u8, 66u8, 80u8]);
    let ftyp = vec![102u8, 116u8, 121u8, 112u8];
    assert(ftyp@ =~= seq![102u8, 116u8, 121u8, 112u8]);
    let ebml = vec![0x1Au8, 0x45u8, 0xDFu8, 0xA3u8];
    assert(ebml@ =~= seq![0x1Au8, 0x45u8, 0xDFu8, 0xA3u8]);
    let id3 = vec![73u8, 68u8, 51u8];
    assert(id3@ =~= seq![73u8, 68u8, 51u8]);
    let fb = vec![0xFFu8, 0xFBu8];
    assert(fb@ =~= seq![0xFFu8, 0xFBu8]);
    let f3 = vec![0xFFu8, 0xF3u8];
    assert(f3@ =~= seq![0xFFu8, 0xF3u8]);
    let f2 = vec![0xFFu8, 0xF2u8];
    assert(f2@ =~= seq![0xFFu8, 0xF2u8]);
    let wave = vec![87u8, 65u8, 86u8, 69u8];
    assert(wave@ =~= seq![87u8, 65u8, 86u8, 69u8]);
    let ogg = vec![79u8, 103u8, 103u8, 83u8];
    assert(ogg@ =~= seq![79u8, 103u8, 103u8, 83u8]);
    let ext: &str = if at(b, 0, png) {
        "png"
    } else if at(b, 0, jpg) {
        "jpg"
    } else if at(b, 0, gif) {
        "gif"
    } else if at(b, 0, riff.clone()) && at(b, 8, webp) {
        "webp"
    } else if at(b, 4, ftyp) {
        "mp4"
    } else if at(b, 0, ebml) {
        "webm"
    } else if at(b, 0, id3) || at(b, 0, fb) || at(b, 0, f3) || at(b, 0, f2) {
        "mp3"
    } else if at(b, 0, riff) && at(b, 8, wave) {
        "wav"
    } else if at(b, 0, ogg) {
        "ogg"
    } else {
        default_ext
    };
    to_owned_string(ext)
}


// ───────────────────────── video duration fields ─────────────────────────

/// Big-endian 32-bit value at `o`.
#[verifier::opaque]
pub open spec fn be32(s: Seq<u8>, o: int) -> nat {
    s[o] as nat * 16777216 + s[o + 1] as nat * 65536 + s[o + 2] as nat * 256 + s[o + 3] as nat
}

/// Big-endian 64-bit value at `o`.
#[verifier::opaque]
pub open spec fn be64(s: Seq<u8>, o: int) -> nat {
    be32(s, o) * 4294967296 + be32(s, o + 4)
}

/// Little-endian 32-bit value at `o`.
#[verifier::opaque]
pub open spec fn le32(s: Seq<u8>, o: int) -> nat {
    s[o] as nat + s[o + 1] as nat * 256 + s[o + 2] as nat * 65536 + s[o + 3] as nat * 16777216
}

fn be32_at(b: &[u8], o: usize) -> (r: u32)
    requires
        o + 4 <= b@.len(),
    ensures
        r as nat == be32(b@, o as int),
{
    proof {
        reveal(be32);
    }
    (b[o] as u32) * 16777216 + (b[o + 1] as u32) * 65536 + (b[o + 2] as u32) * 256 + (b[o + 3] as u32)
}

fn be64_at(b: &[u8], o: usize) -> (r: u64)
    requires
        o + 8 <= b@.len(),
    ensures
        r as nat == be64(b@, o as int),
{
    proof {
        reveal(be64);
    }
    let n = b.len();
    assert(o + 8 <= n);
    let hi = be32_at(b, o) as u64;
    let lo = be32_at(b, o + 4) as u64;
    hi * 4294967296 + lo
}

fn le32_at(b: &[u8], o: usize) -> (r: u32)
    requires
        o + 4 <= b@.len(),
    ensures
        r as nat == le32(b@, o as int),
{
    proof {
        reveal(le32);
    }
    (b[o] as u32) + (b[o + 1] as u32) * 256 + (b[o + 2] as u32) * 65536 + (b[o + 3] as u32) * 16777216
}

/// `moov`.
pub open spec fn moov_tag() -> Seq<u8> {
    seq![109u8, 111u8, 111u8, 118u8]
}

/// `mvhd`.
pub open spec fn mvhd_tag() -> Seq<u8> {
    seq![109u8, 118u8, 104u8, 100u8]
}

/// An MP4/MOV movie header's `(timescale, duration)`: found after `moov`
/// then `mvhd`; 32-bit fields for version 0, 64-bit duration otherwise; a
/// zero timescale gives nothing.  The duration in seconds is their ratio.
pub open spec fn mp4_model(d: Seq<u8>) -> Option<(nat, nat)> {
    match find_model(d, moov_tag()) {
        None => None,
        Some(mp) => {
            let moov = d.subrange(mp + 4, d.len() as int);
            match find_model(moov, mvhd_tag()) {
                None => None,
                Some(hp) => {
                    let mvhd = moov.subrange(hp + 4, moov.len() as int);
                    if mvhd.len() == 0 {
                        None
                    } else {
                        let v0 = mvhd[0] == 0;
                        let ts_off: int = if v0 {
                            12
                        } else {
                            20
                        };
                        let dur_off: int = if v0 {
                            16
                        } else {
                            24
                        };
                        let dur_len: int = if v0 {
                            4
                        } else {
                            8
                        };
                        if mvhd.len() < dur_off + dur_len {
                            None
                        } else {
                            let ts = be32(mvhd, ts_off);
                            let dur = if v0 {
                                be32(mvhd, dur_off)
                            } else {
                                be64(mvhd, dur_off)
                            };
                            if ts > 0 {
                                Some((ts, dur))
                            } else {
                                None
                            }
                        }
                    }
                },
            }
        },
    }
}

/// The `(timescale, duration)` of an MP4/MOV header (see [`mp4_model`]).
pub fn mp4_duration_fields(data: &[u8]) -> (r: Option<(u32, u64)>)
    ensures
        match r {
            Some((ts, dur)) => mp4_model(data@) == Some((ts as nat, dur as nat)),
            None => mp4_model(data@) is None,
        },
{
    let moov = vec![109u8, 111u8, 111u8, 118u8];
    assert(moov@ =~= moov_tag());
    let mvhd = vec![109u8, 118u8, 104u8, 100u8];
    assert(mvhd@ =~= mvhd_tag());
    let mp = match find_bytes(data, moov.as_slice()) {
        Some(i) => i,
        None => return None,
    };
    let n = data.len();
    assert(mp + moov@.len() <= n);
    let moov_body = bytes_from(data, mp + 4);
    let hp = match find_bytes(moov_body.as_slice(), mvhd.as_slice()) {
        Some(i) => i,
        None => return None,
    };
    let mn = moov_body.len();
    assert(hp + mvhd@.len() <= mn);
    let body = bytes_from(moov_body.as_slice(), hp + 4);
    if body.len() == 0 {
        return None;
    }
    let v0 = body[0] == 0;
    let ts_off: usize = if v0 {
        12
    } else {
        20
    };
    let dur_off: usize = if v0 {
        16
    } else {
        24
    };
    let dur_len: usize = if v0 {
        4
    } else {
        8
    };
    if body.len() < dur_off + dur_len {
        return None;
    }
    let ts = be32_at(body.as_slice(), ts_off);
    let dur: u64 = if v0 {
        be32_at(body.as_slice(), dur_off) as u64
    } else {
        be64_at(body.as_slice(), dur_off)
    };
    if ts > 0 {
        Some((ts, dur))
    } else {
        None
    }
}

/// `RIFF`.
pub open spec fn riff_tag() -> Seq<u8> {
    seq![82u8, 73u8, 70u8, 70u8]
}

/// `AVI `.
pub open spec fn avi_tag() -> Seq<u8> {
    seq![65u8, 86u8, 73u8, 32u8]
}

/// `avih`.
pub open spec fn avih_tag() -> Seq<u8> {
    seq![97u8, 118u8, 105u8, 104u8]
}

/// An AVI file whose main header is located (the reading starts 8 bytes
/// after the `avih` tag).
pub open spec fn avi_header_pos(d: Seq<u8>) -> Option<int> {
    if d.len() < 12 || !bytes_at(d, 0, riff_tag()) || !bytes_at(d, 8, avi_tag()) {
        None
    } else {
        find_model(d, avih_tag())
    }
}

/// An AVI main header's `(microseconds per frame, total frames)`; a zero
/// frame time gives nothing.  The duration in seconds is their product
/// over a million.
pub open spec fn avi_model(d: Seq<u8>) -> Option<(nat, nat)> {
    match avi_header_pos(d) {
        None => None,
        Some(ap) => {
            let body = d.subrange(ap + 8, d.len() as int);
            if body.len() < 20 {
                None
            } else {
                let us = le32(body, 0);
                let frames = le32(body, 16);
                if us > 0 {
                    Some((us, frames))
                } else {
                    None
                }
            }
        },
    }
}

/// The `(microseconds per frame, total frames)` of an AVI header (see
/// [`avi_model`]).  A file whose `avih` tag ends within its last 4 bytes
/// is outside the domain: reading 8 bytes past the tag would fail.
pub fn avi_duration_fields(data: &[u8]) -> (r: Option<(u32, u32)>)
    requires
        avi_header_pos(data@) matches Some(ap) ==> ap + 8 <= data@.len(),
    ensures
        match r {
            Some((us, frames)) => avi_model(data@) == Some((us as nat, frames as nat)),
            None => avi_model(data@) is None,
        },
{
    let riff = vec![82u8, 73u8, 70u8, 70u8];
    assert(riff@ =~= riff_tag());
    let avi = vec![65u8, 86u8, 73u8, 32u8];
    assert(avi@ =~= avi_tag());
    let avih = vec![97u8, 118u8, 105u8, 104u8];
    assert(avih@ =~= avih_tag());
    if data.len() < 12 || !bytes_match_at(data, riff.as_slice(), 0) || !bytes_match_at(data, avi.as_slice(), 8) {
        return None;
    }
    let ap = match find_bytes(data, avih.as_slice()) {
        Some(i) => i,
        None => return None,
    };
    let body = bytes_from(data, ap + 8);
    if body.len() < 20 {
        return None;
    }
    let us = le32_at(body.as_slice(), 0);
    let frames = le32_at(body.as_slice(), 16);
    if us > 0 {
        Some((us, frames))
    } else {
        None
    }
}

/// `FLV`.
pub open spec fn flv_tag() -> Seq<u8> {
    seq![70u8, 76u8, 86u8]
}

/// `duration`.
pub open spec fn duration_tag() -> Seq<u8> {
    seq![100u8, 117u8, 114u8, 97u8, 116u8, 105u8, 111u8, 110u8]
}

/// The bits of the big-endian double after an FLV `duration` key of AMF
/// number type (type byte 0).
pub open spec fn flv_model(d: Seq<u8>) -> Option<nat> {
    if d.len() < 4 || !bytes_at(d, 0, flv_tag()) {
        None
    } else {
        match find_model(d, duration_tag()) {
            None => None,
            Some(dp) => {
                let vt = dp + 8;
                if d.len() >= vt + 9 && d[vt] == 0 {
                    Some(be64(d, vt + 1))
                } else {
                    None
                }
            },
        }
    }
}

/// The raw bits of an FLV file's `duration` (see [`flv_model`]).
pub fn flv_duration_bits(data: &[u8]) -> (r: Option<u64>)
    ensures
        match r {
            Some(bits) => flv_model(data@) == Some(bits as nat),
            None => flv_model(data@) is None,
        },
{
    let flv = vec![70u8, 76u8, 86u8];
    assert(flv@ =~= flv_tag());
    let dtag = vec![100u8, 117u8, 114u8, 97u8, 116u8, 105u8, 111u8, 110u8];
    assert(dtag@ =~= duration_tag());
    if data.len() < 4 || !bytes_match_at(data, flv.as_slice(), 0) {
        return None;
    }
    let dp = match find_bytes(data, dtag.as_slice()) {
        Some(i) => i,
        None => return None,
    };
    let n = data.len();
    assert(dp + 8 <= n);
    let vt = dp + 8;
    if n - vt >= 9 && data[vt] == 0 {
        Some(be64_at(data, vt + 1))
    } else {
        None
    }
}

/// EBML header signature.
pub open spec fn ebml_tag() -> Seq<u8> {
    seq![0x1Au8, 0x45u8, 0xDFu8, 0xA3u8]
}

/// WebM `Info` element id.
pub open spec fn info_tag() -> Seq<u8> {
    seq![0x15u8, 0x49u8, 0xA9u8, 0x66u8]
}

/// WebM `TimecodeScale` element id.
pub open spec fn timescale_tag() -> Seq<u8> {
    seq![0x2Au8, 0xD7u8, 0xB1u8]
}

/// WebM `Duration` element id.
pub open spec fn duration_id() -> Seq<u8> {
    seq![0x44u8, 0x89u8]
}

/// The raw duration of a WebM file: a 4-byte float's bits or an 8-byte
/// float's bits.
pub enum WebmDuration {
    F32Bits(u32),
    F64Bits(u64),
}

/// The `Info` body of a WebM file.
pub open spec fn webm_info(d: Seq<u8>) -> Option<Seq<u8>> {
    if find_model(d, ebml_tag()) is None {
        None
    } else {
        match find_model(d, info_tag()) {
            None => None,
            Some(ip) => Some(d.subrange(ip + 4, d.len() as int)),
        }
    }
}

/// The bytes after the `TimecodeScale` id within the info body.
pub open spec fn webm_ts_bytes(ib: Seq<u8>) -> Option<Seq<u8>> {
    match find_model(ib, timescale_tag()) {
        None => None,
        Some(tp) => Some(ib.subrange(tp + 3, ib.len() as int)),
    }
}

/// The bytes after the `Duration` id within the info body.
pub open spec fn webm_dur_bytes(ib: Seq<u8>) -> Option<Seq<u8>> {
    match find_model(ib, duration_id()) {
        None => None,
        Some(dp) => Some(ib.subrange(dp + 2, ib.len() as int)),
    }
}

/// A VINT read that would fail: its first byte is 1 (an 8-byte VINT, whose
/// first-byte mask shifts a byte by 8 bits).
pub open spec fn vint_unreadable(b: Seq<u8>) -> bool {
    b.len() > 0 && b[0] == 1
}

/// The WebM headers on which the duration reading fails (see
/// [`vint_unreadable`]): the reading reaches a VINT that starts with 1.
pub open spec fn webm_unreadable(d: Seq<u8>) -> bool {
    match webm_info(d) {
        None => false,
        Some(ib) => match webm_ts_bytes(ib) {
            None => false,
            Some(tb) => vint_unreadable(tb) || (vint_model(tb) is Some && match webm_dur_bytes(ib) {
                None => false,
                Some(db) => vint_unreadable(db),
            }),
        },
    }
}

/// A WebM file's `(timescale, duration bits)`: the timescale is the VINT
/// after the `TimecodeScale` id, the duration the 4- or 8-byte float whose
/// size VINT follows the `Duration` id.  The duration in seconds is the
/// float times the timescale over 10^9 (over 1000 when the timescale is 0).
pub open spec fn webm_model(d: Seq<u8>) -> Option<(nat, nat, nat)> {
    match webm_info(d) {
        None => None,
        Some(ib) => match webm_ts_bytes(ib) {
            None => None,
            Some(tb) => match vint_model(tb) {
                None => None,
                Some((timescale, _)) => match webm_dur_bytes(ib) {
                    None => None,
                    Some(db) => match vint_model(db) {
                        None => None,
                        Some((size, len)) => if db.len() < len + size {
                            None
                        } else if size == 4 {
                            Some((timescale, 4nat, be32(db, len as int)))
                        } else if size == 8 {
                            Some((timescale, 8nat, be64(db, len as int)))
                        } else {
                            None
                        },
                    },
                },
            },
        },
    }
}

/// The `(timescale, raw duration)` of a WebM header (see [`webm_model`]).
pub fn webm_duration_fields(data: &[u8]) -> (r: Option<(u64, WebmDuration)>)
    requires
        !webm_unreadable(data@),
    ensures
        match r {
            Some((ts, WebmDuration::F32Bits(b))) => webm_model(data@) == Some((ts as nat, 4nat, b as nat)),
            Some((ts, WebmDuration::F64Bits(b))) => webm_model(data@) == Some((ts as nat, 8nat, b as nat)),
            None => webm_model(data@) is None,
        },
{
    let ebml = vec![0x1Au8, 0x45u8, 0xDFu8, 0xA3u8];
    assert(ebml@ =~= ebml_tag());
    let info = vec![0x15u8, 0x49u8, 0xA9u8, 0x66u8];
    assert(info@ =~= info_tag());
    let tst = vec![0x2Au8, 0xD7u8, 0xB1u8];
    assert(tst@ =~= timescale_tag());
    let did = vec![0x44u8, 0x89u8];
    assert(did@ =~= duration_id());
    if find_bytes(data, ebml.as_slice()).is_none() {
        return None;
    }
    let ip = match find_bytes(data, info.as_slice()) {
        Some(i) => i,
        None => return None,
    };
    let n = data.len();
    assert(ip + info@.len() <= n);
    let ib = bytes_from(data, ip + 4);
    let tp = match find_bytes(ib.as_slice(), tst.as_slice()) {
        Some(i) => i,
        None => return None,
    };
    let ibn = ib.len();
    assert(tp + tst@.len() <= ibn);
    let tb = bytes_from(ib.as_slice(), tp + 3);
    let timescale = match parse_ebml_vint(tb.as_slice()) {
        Some((v, _)) => v,
        None => return None,
    };
    let dp = match find_bytes(ib.as_slice(), did.as_slice()) {
        Some(i) => i,
        None => return None,
    };
    assert(dp + did@.len() <= ibn);
    let db = bytes_from(ib.as_slice(), dp + 2);
    let (size, len) = match parse_ebml_vint(db.as_slice()) {
        Some(p) => p,
        None => return None,
    };
    if (db.len() as u128) < (len as u128) + (size as u128) {
        return None;
    }
    if size == 4 {
        Some((timescale, WebmDuration::F32Bits(be32_at(db.as_slice(), len))))
    } else if size == 8 {
        Some((timescale, WebmDuration::F64Bits(be64_at(db.as_slice(), len))))
    } else {
        None
    }
}


/// Whether reading a WebM header's duration would reach a VINT that starts
/// with 1, which the reading does not accept (see [`webm_unreadable`]).
pub fn webm_unreadable_vint(data: &[u8]) -> (r: bool)
    ensures
        r == webm_unreadable(data@),
{
    let ebml = vec![0x1Au8, 0x45u8, 0xDFu8, 0xA3u8];
    assert(ebml@ =~= ebml_tag());
    let info = vec![0x15u8, 0x49u8, 0xA9u8, 0x66u8];
    assert(info@ =~= info_tag());
    let tst = vec![0x2Au8, 0xD7u8, 0xB1u8];
    assert(tst@ =~= timescale_tag());
    let did = vec![0x44u8, 0x89u8];
    assert(did@ =~= duration_id());
    if find_bytes(data, ebml.as_slice()).is_none() {
        return false;
    }
    let ip = match find_bytes(data, info.as_slice()) {
        Some(i) => i,
        None => return false,
    };
    let n = data.len();
    assert(ip + info@.len() <= n);
    let ib = bytes_from(data, ip + 4);
    let tp = match find_bytes(ib.as_slice(), tst.as_slice()) {
        Some(i) => i,
        None => return false,
    };
    let ibn = ib.len();
    assert(tp + tst@.len() <= ibn);
    let tb = bytes_from(ib.as_slice(), tp + 3);
    if tb.len() > 0 && tb[0] == 1 {
        return true;
    }
    if parse_ebml_vint(tb.as_slice()).is_none() {
        return false;
    }
    let dp = match find_bytes(ib.as_slice(), did.as_slice()) {
        Some(i) => i,
        None => return false,
    };
    assert(dp + did@.len() <= ibn);
    let db = bytes_from(ib.as_slice(), dp + 2);
    db.len() > 0 && db[0] == 1
}

} // verus!
