//! Upstream response headers passed on to the client.  The gateway rebuilds
//! the body, so hop-by-hop and body-bound headers (length, encoding, type)
//! stay behind; the rest is forwarded next to the content type the gateway
//! sets itself.
//!
//! Headers are held as `HeaderMap` iterates them: each name in lower case
//! (as `HeaderName` keeps it) with its value when that is visible ASCII text
//! (`HeaderValue::to_str` succeeds), `None` otherwise.
use vstd::prelude::*;
use crate::text::{ascii_lower, chars_ascii_lower, chars_eq, chars_of, contains, str_contains, to_owned_string};

verus! {

/// The headers never forwarded from upstream.
pub open spec fn dropped_header(name: Seq<char>) -> bool {
    ||| name == "connection"@
    ||| name == "keep-alive"@
    ||| name == "proxy-connection"@
    ||| name == "proxy-authenticate"@
    ||| name == "proxy-authorization"@
    ||| name == "te"@
    ||| name == "trailers"@
    ||| name == "transfer-encoding"@
    ||| name == "upgrade"@
    ||| name == "content-length"@
    ||| name == "content-encoding"@
    ||| name == "content-type"@
    ||| name == "set-cookie"@
}

/// Whether an upstream header is forwarded to the client.
pub fn should_forward_response_header(name: &str) -> (r: bool)
    ensures
        r == !dropped_header(name@),
{
    let dropped = crate::text::str_eq(name, "connection") || crate::text::str_eq(name, "keep-alive")
        || crate::text::str_eq(name, "proxy-connection") || crate::text::str_eq(name, "proxy-authenticate")
        || crate::text::str_eq(name, "proxy-authorization") || crate::text::str_eq(name, "te")
        || crate::text::str_eq(name, "trailers") || crate::text::str_eq(name, "transfer-encoding")
        || crate::text::str_eq(name, "upgrade") || crate::text::str_eq(name, "content-length")
        || crate::text::str_eq(name, "content-encoding") || crate::text::str_eq(name, "content-type")
        || crate::text::str_eq(name, "set-cookie");
    !dropped
}

/// The value of the first header of `h[i..]` named `name`.
pub open spec fn first_value_from(h: Seq<(Seq<char>, Option<Seq<char>>)>, name: Seq<char>, i: int) -> Option<
    Option<Seq<char>>,
>
    decreases h.len() - i,
{
    if i < 0 || i >= h.len() {
        None
    } else if h[i].0 == name {
        Some(h[i].1)
    } else {
        first_value_from(h, name, i + 1)
    }
}

/// The text of the first header named `name` (looked up in lower case,
/// `HeaderMap::get`), when it is text.
pub open spec fn header_text(h: Seq<(Seq<char>, Option<Seq<char>>)>, name: Seq<char>) -> Option<Seq<char>> {
    match first_value_from(h, ascii_lower(name), 0) {
        Some(v) => v,
        None => None,
    }
}

/// The text of the header `name`: the first value under that name, when it
/// is visible ASCII.
pub fn header_str<'a>(headers: &'a [(String, Option<String>)], name: &str) -> (r: Option<&'a str>)
    ensures
        r.deep_view() == header_text(headers.deep_view(), name@),
{
    let key = chars_ascii_lower(chars_of(name).as_slice());
    let ghost h = headers.deep_view();
    let mut i: usize = 0;
    while i < headers.len()
        invariant
            i <= headers@.len(),
            h == headers.deep_view(),
            key@ == ascii_lower(name@),
            first_value_from(h, key@, 0) == first_value_from(h, key@, i as int),
        decreases headers.len() - i,
    {
        if chars_eq(chars_of(headers[i].0.as_str()).as_slice(), key.as_slice()) {
            return match &headers[i].1 {
                Some(v) => Some(v.as_str()),
                None => None,
            };
        }
        i = i + 1;
    }
    None
}

/// The upstream content type names an SSE stream.
pub open spec fn sse_model(h: Seq<(Seq<char>, Option<Seq<char>>)>) -> bool {
    match header_text(h, "content-type"@) {
        Some(ct) => contains(ct, "text/event-stream"@),
        None => false,
    }
}

/// Whether the upstream response is an SSE stream.
pub fn is_sse(headers: &[(String, Option<String>)]) -> (r: bool)
    ensures
        r == sse_model(headers.deep_view()),
{
    match header_str(headers, "content-type") {
        Some(ct) => str_contains(ct, "text/event-stream"),
        None => false,
    }
}

/// The upstream content type names a stream read incrementally: SSE or
/// NDJSON.
pub open spec fn stream_model(h: Seq<(Seq<char>, Option<Seq<char>>)>) -> bool {
    match header_text(h, "content-type"@) {
        Some(ct) => contains(ct, "text/event-stream"@) || contains(ct, "application/x-ndjson"@),
        None => false,
    }
}

/// Whether the upstream response can be consumed as a stream.
pub fn is_stream_content_type(headers: &[(String, Option<String>)]) -> (r: bool)
    ensures
        r == stream_model(headers.deep_view()),
{
    match header_str(headers, "content-type") {
        Some(ct) => str_contains(ct, "text/event-stream") || str_contains(ct, "application/x-ndjson"),
        None => false,
    }
}

/// The forwarded headers of `h`, in order.
pub open spec fn forwarded(h: Seq<(Seq<char>, Option<Seq<char>>)>) -> Seq<(Seq<char>, Option<Seq<char>>)>
    decreases h.len(),
{
    if h.len() == 0 {
        seq![]
    } else if dropped_header(h.last().0) {
        forwarded(h.drop_last())
    } else {
        forwarded(h.drop_last()).push(h.last())
    }
}

fn copy_header(e: &(String, Option<String>)) -> (r: (String, Option<String>))
    ensures
        r.deep_view() == e.deep_view(),
{
    (
        to_owned_string(e.0.as_str()),
        match &e.1 {
            Some(v) => Some(to_owned_string(v.as_str())),
            None => None,
        },
    )
}

/// Appends the forwarded upstream headers to `dest` (an error response's
/// headers, for instance).
pub fn merge_upstream_response_headers(dest: &mut Vec<(String, Option<String>)>, upstream: &[(String, Option<String>)])
    ensures
        final(dest).deep_view() == old(dest).deep_view() + forwarded(upstream.deep_view()),
{
    let ghost d0 = dest.deep_view();
    let ghost h = upstream.deep_view();
    let mut i: usize = 0;
    while i < upstream.len()
        invariant
            i <= upstream@.len(),
            h == upstream.deep_view(),
            dest.deep_view() == d0 + forwarded(h.take(i as int)),
        decreases upstream.len() - i,
    {
        let ghost before = dest.deep_view();
        proof {
            assert(h.take(i + 1).drop_last() =~= h.take(i as int));
            assert(h.take(i + 1).last() == h[i as int]);
        }
        if should_forward_response_header(upstream[i].0.as_str()) {
            let e = copy_header(&upstream[i]);
            dest.push(e);
            assert(dest.deep_view() =~= before.push(h[i as int]));
            assert(d0 + forwarded(h.take(i as int)).push(h[i as int]) =~= (d0 + forwarded(h.take(i as int))).push(
                h[i as int],
            ));
        }
        i = i + 1;
    }
    assert(h.take(upstream.len() as int) =~= h);
}

/// Text the `HeaderValue` of a string returns from `to_str`: the string when
/// every character is visible ASCII or a tab.
pub open spec fn value_text(v: Seq<char>) -> Option<Seq<char>> {
    if forall|i: int| 0 <= i < v.len() ==> (v[i] == '\t' || (32 <= v[i] as u32 && (v[i] as u32) < 127)) {
        Some(v)
    } else {
        None
    }
}

/// A string `HeaderValue::from_str` accepts: no control character but tab,
/// no DEL.
pub open spec fn valid_header_value(v: Seq<char>) -> bool {
    forall|i: int| 0 <= i < v.len() ==> (v[i] == '\t' || (32 <= v[i] as u32 && v[i] as u32 != 127))
}

fn value_text_of(v: &str) -> (r: Option<String>)
    ensures
        r.deep_view() == value_text(v@),
{
    let c = chars_of(v);
    let mut i: usize = 0;
    while i < c.len()
        invariant
            i <= c@.len(),
            c@ == v@,
            forall|k: int| 0 <= k < i ==> (c@[k] == '\t' || (32 <= c@[k] as u32 && (c@[k] as u32) < 127)),
        decreases c.len() - i,
    {
        let ch = c[i];
        if !(ch == '\t' || (32 <= ch as u32 && (ch as u32) < 127)) {
            return None;
        }
        i = i + 1;
    }
    Some(to_owned_string(v))
}

/// The headers of a response built from upstream's: the forwarded ones,
/// then `content-type` as given.
pub open spec fn content_type_headers(upstream: Seq<(Seq<char>, Option<Seq<char>>)>, content_type: Seq<char>) -> Seq<
    (Seq<char>, Option<Seq<char>>),
> {
    forwarded(upstream).push(("content-type"@, value_text(content_type)))
}

/// The headers of a response carrying upstream's diagnostic headers and the
/// content type `content_type` (which must be a valid header value).
pub fn with_content_type_headers(upstream: &[(String, Option<String>)], content_type: &str) -> (r: Vec<
    (String, Option<String>),
>)
    requires
        valid_header_value(content_type@),
    ensures
        r.deep_view() == content_type_headers(upstream.deep_view(), content_type@),
{
    let mut out: Vec<(String, Option<String>)> = Vec::new();
    merge_upstream_response_headers(&mut out, upstream);
    let ghost before = out.deep_view();
    assert(before =~= Seq::<(Seq<char>, Option<Seq<char>>)>::empty() + forwarded(upstream.deep_view()));
    let ct = (to_owned_string("content-type"), value_text_of(content_type));
    out.push(ct);
    assert(out.deep_view() =~= before.push(ct.deep_view()));
    out
}

/// The headers of a JSON response: upstream's forwarded headers and
/// `application/json`.
pub fn json_response_headers(upstream: &[(String, Option<String>)]) -> (r: Vec<(String, Option<String>)>)
    ensures
        r.deep_view() == content_type_headers(upstream.deep_view(), "application/json"@),
{
    proof {
        reveal_strlit("application/json");
    }
    with_content_type_headers(upstream, "application/json")
}

/// `h` with every header named `name` removed and `(name, value)` appended
/// (`HeaderMap::insert`).
pub open spec fn set_header(h: Seq<(Seq<char>, Option<Seq<char>>)>, name: Seq<char>, value: Seq<char>) -> Seq<
    (Seq<char>, Option<Seq<char>>),
> {
    h.filter(other_name(name)).push((name, Some(value)))
}

/// A header not named `name`.
pub open spec fn other_name(name: Seq<char>) -> spec_fn((Seq<char>, Option<Seq<char>>)) -> bool {
    |e: (Seq<char>, Option<Seq<char>>)| e.0 != name
}

/// The headers of an SSE response: upstream's forwarded headers,
/// `text/event-stream`, and the gateway's own `cache-control: no-cache` and
/// `connection: keep-alive` in place of any upstream value.
pub open spec fn sse_headers_model(upstream: Seq<(Seq<char>, Option<Seq<char>>)>) -> Seq<
    (Seq<char>, Option<Seq<char>>),
> {
    set_header(
        set_header(content_type_headers(upstream, "text/event-stream"@), "cache-control"@, "no-cache"@),
        "connection"@,
        "keep-alive"@,
    )
}

fn set_header_in(h: Vec<(String, Option<String>)>, name: &str, value: &str) -> (r: Vec<(String, Option<String>)>)
    ensures
        r.deep_view() == set_header(h.deep_view(), name@, value@),
{
    let ghost hv = h.deep_view();
    let ghost keep = other_name(name@);
    proof {
        reveal(Seq::filter);
        assert(hv.take(0).filter(keep) =~= Seq::<(Seq<char>, Option<Seq<char>>)>::empty());
    }
    let mut out: Vec<(String, Option<String>)> = Vec::new();
    let mut i: usize = 0;
    while i < h.len()
        invariant
            i <= h@.len(),
            hv == h.deep_view(),
            keep == other_name(name@),
            out.deep_view() == hv.take(i as int).filter(keep),
        decreases h.len() - i,
    {
        let ghost before = out.deep_view();
        proof {
            assert(hv.take(i + 1).drop_last() =~= hv.take(i as int));
            assert(hv.take(i + 1).last() == hv[i as int]);
            reveal(Seq::filter);
            assert(hv.take(i + 1).filter(keep) == (if keep(hv[i as int]) {
                hv.take(i as int).filter(keep).push(hv[i as int])
            } else {
                hv.take(i as int).filter(keep)
            }));
        }
        let same = crate::text::str_eq(h[i].0.as_str(), name);
        assert(hv[i as int].0 == h@[i as int].0@);
        if !same {
            let e = copy_header(&h[i]);
            out.push(e);
            assert(out.deep_view() =~= before.push(hv[i as int]));
            assert(keep(hv[i as int]));
        } else {
            assert(!keep(hv[i as int]));
        }
        assert(out.deep_view() == hv.take(i + 1).filter(keep));
        i = i + 1;
    }
    assert(hv.take(h.len() as int) =~= hv);
    let ghost kept = out.deep_view();
    out.push((to_owned_string(name), Some(to_owned_string(value))));
    assert(out.deep_view() =~= kept.push((name@, Some(value@))));
    out
}

/// The headers of an SSE response (see [`sse_headers_model`]).
pub fn sse_response_headers(upstream: &[(String, Option<String>)]) -> (r: Vec<(String, Option<String>)>)
    ensures
        r.deep_view() == sse_headers_model(upstream.deep_view()),
{
    proof {
        reveal_strlit("text/event-stream");
    }
    let h = with_content_type_headers(upstream, "text/event-stream");
    let h = set_header_in(h, "cache-control", "no-cache");
    set_header_in(h, "connection", "keep-alive")
}

} // verus!
