//! Vendor callbacks: the client's callback URL carried in a request or a
//! plugin tag, and the system callback address built from the service's
//! base URL.
use vstd::prelude::*;
use crate::json::{
    json_object_keys, json_object_keys_at, json_pointer_raw_at, json_pointer_str, json_pointer_text,
    json_set_member, json_with_member_text,
};
use crate::text::{
    chars_of, contains, push_i64, int_string, str_contains, str_eq, string_append, string_from_chars,
    to_owned_string, trim, trim_string,
};

verus! {

/// A trimmed, non-empty string at `pointer` of `json`.
pub open spec fn nonblank_at(json: Seq<char>, pointer: Seq<char>) -> Option<Seq<char>> {
    match json_pointer_text(json, pointer) {
        Some(s) => if trim(s).len() > 0 {
            Some(trim(s))
        } else {
            None
        },
        None => None,
    }
}

fn nonblank_string_at(json: &str, pointer: &str) -> (r: Option<String>)
    ensures
        r.deep_view() == nonblank_at(json@, pointer@),
{
    match json_pointer_str(json, pointer) {
        Some(s) => {
            let t = trim_string(s.as_str());
            if t.as_str().is_empty() {
                None
            } else {
                Some(t)
            }
        },
        None => None,
    }
}

/// The client's `callback_url` at the root of a request body.
pub fn extract_client_callback_url(body: &str) -> (r: Option<String>)
    ensures
        r.deep_view() == nonblank_at(body@, "/callback_url"@),
{
    nonblank_string_at(body, "/callback_url")
}

/// The client callback URL stashed in a plugin tag (`cb`).
pub fn cb_from_plugin_tag(plugin_tag: &str) -> (r: Option<String>)
    ensures
        r.deep_view() == nonblank_at(plugin_tag@, "/cb"@),
{
    nonblank_string_at(plugin_tag, "/cb")
}

/// The body sent upstream: when it carries a non-blank root `callback_url`,
/// that member is replaced by the system address; otherwise the body is
/// kept as it is.
pub open spec fn rewritten_body_model(body: Seq<char>, system_url: Seq<char>) -> Seq<char> {
    if nonblank_at(body, "/callback_url"@) is Some && json_object_keys_at(body, ""@) is Some {
        json_with_member_text(body, "callback_url"@, system_url)
    } else {
        body
    }
}

/// Points the root `callback_url` of an upstream request body at the system
/// address (see [`rewritten_body_model`]); afterwards the body's callback
/// is `system_url`.
pub fn rewrite_upstream_callback(body: &str, system_url: &str) -> (r: String)
    ensures
        r@ == rewritten_body_model(body@, system_url@),
        nonblank_at(body@, "/callback_url"@) is Some && json_object_keys_at(body@, ""@) is Some
            ==> json_pointer_text(r@, "/callback_url"@) == Some(system_url@),
{
    if nonblank_string_at(body, "/callback_url").is_some() && json_object_keys(body, "").is_some() {
        proof {
            reveal_strlit("callback_url");
            reveal_strlit("/");
            assert("/"@ + "callback_url"@ =~= "/callback_url"@) by {
                reveal_strlit("/callback_url");
            }
        }
        json_set_member(body, "callback_url", system_url)
    } else {
        to_owned_string(body)
    }
}

/// A plugin tag able to take the client's callback: a JSON object, or null.
pub open spec fn tag_takes_member(tag: Seq<char>) -> bool {
    json_object_keys_at(tag, ""@) is Some || json_pointer_raw_at(tag, ""@) == Some("null"@)
}

/// Stashes the client's callback URL in a plugin tag (`cb`).  Reading it
/// back with [`cb_from_plugin_tag`] gives the URL trimmed, or nothing when
/// it is blank.
pub fn stash_cb_in_plugin_tag(tag: &str, client_url: &str) -> (r: String)
    requires
        tag_takes_member(tag@),
    ensures
        r@ == json_with_member_text(tag@, "cb"@, client_url@),
        json_pointer_text(r@, "/cb"@) == Some(client_url@),
        nonblank_at(r@, "/cb"@) == (if trim(client_url@).len() > 0 {
            Some(trim(client_url@))
        } else {
            None
        }),
{
    proof {
        reveal_strlit("cb");
        reveal_strlit("/");
        assert("/"@ + "cb"@ =~= "/cb"@) by {
            reveal_strlit("/cb");
        }
    }
    json_set_member(tag, "cb", client_url)
}

/// `s` without its trailing `/` characters.
pub open spec fn strip_trailing_slashes(s: Seq<char>) -> Seq<char>
    decreases s.len(),
{
    if s.len() > 0 && s.last() == '/' {
        strip_trailing_slashes(s.drop_last())
    } else {
        s
    }
}

/// A header value that is present (outer `Some`) may still be unreadable
/// as text (inner `None`).
pub open spec fn header_text(h: Option<Option<&str>>) -> Option<Seq<char>> {
    match h {
        Some(Some(s)) => Some(s@),
        _ => None,
    }
}

/// The service's base URL: the configured public URL, else a real
/// `Origin`, else `scheme://host` from the forwarded or plain host (plain
/// HTTP for localhost), else `http://localhost:3000`; without trailing `/`.
pub open spec fn base_url_model(
    public_api_url: Option<&str>,
    origin: Option<&str>,
    forwarded_host: Option<Option<&str>>,
    host: Option<Option<&str>>,
    forwarded_proto: Option<&str>,
) -> Seq<char> {
    let picked = match public_api_url {
        Some(u) if u@.len() > 0 => u@,
        _ => match origin {
            Some(o) if o@.len() > 0 && o@ != "null"@ => o@,
            _ => {
                let h = if forwarded_host is Some {
                    header_text(forwarded_host)
                } else {
                    header_text(host)
                };
                match h {
                    Some(hv) => {
                        let scheme = match forwarded_proto {
                            Some(p) => p@,
                            None => if contains(hv, "localhost"@) || contains(hv, "127.0.0.1"@) {
                                "http"@
                            } else {
                                "https"@
                            },
                        };
                        scheme + "://"@ + hv
                    },
                    None => "http://localhost:3000"@,
                }
            },
        },
    };
    strip_trailing_slashes(picked)
}

fn strip_slashes(s: &str) -> (r: String)
    ensures
        r@ == strip_trailing_slashes(s@),
{
    let v = chars_of(s);
    let mut n: usize = v.len();
    assert(v@.subrange(0, n as int) =~= v@);
    while n > 0 && v[n - 1] == '/'
        invariant
            n <= v@.len(),
            strip_trailing_slashes(v@) == strip_trailing_slashes(v@.subrange(0, n as int)),
        decreases n,
    {
        assert(v@.subrange(0, n as int).drop_last() =~= v@.subrange(0, n - 1));
        n = n - 1;
    }
    let out = crate::text::slice_range(v.as_slice(), 0, n);
    string_from_chars(out.as_slice())
}

/// Infers the service's base URL from the configured public URL and the
/// request's `Origin`, `X-Forwarded-Host`, `Host` and `X-Forwarded-Proto`
/// headers (see [`base_url_model`]).
pub fn infer_base_url(
    public_api_url: Option<&str>,
    origin: Option<&str>,
    forwarded_host: Option<Option<&str>>,
    host: Option<Option<&str>>,
    forwarded_proto: Option<&str>,
) -> (r: String)
    ensures
        r@ == base_url_model(public_api_url, origin, forwarded_host, host, forwarded_proto),
{
    if let Some(u) = public_api_url {
        if !u.is_empty() {
            return strip_slashes(u);
        }
    }
    if let Some(o) = origin {
        if !o.is_empty() && !str_eq(o, "null") {
            return strip_slashes(o);
        }
    }
    let h: Option<&str> = match forwarded_host {
        Some(fh) => fh,
        None => match host {
            Some(hh) => hh,
            None => None,
        },
    };
    match h {
        Some(hv) => {
            let mut s = match forwarded_proto {
                Some(p) => to_owned_string(p),
                None => if str_contains(hv, "localhost") || str_contains(hv, "127.0.0.1") {
                    to_owned_string("http")
                } else {
                    to_owned_string("https")
                },
            };
            string_append(&mut s, "://");
            string_append(&mut s, hv);
            strip_slashes(s.as_str())
        },
        None => strip_slashes("http://localhost:3000"),
    }
}

/// The system callback address of a logged task.
pub fn system_callback_url(db_log_id: i64, base_url: &str) -> (r: String)
    ensures
        r@ == base_url@ + "/api/v1/relay/vendor-callback/"@ + int_string(db_log_id as int),
{
    let mut s = to_owned_string(base_url);
    string_append(&mut s, "/api/v1/relay/vendor-callback/");
    push_i64(&mut s, db_log_id);
    s
}

} // verus!
