//! The application error and what it tells a client.
use vstd::prelude::*;
use crate::json_tree::{jobject, member_views, JsonValue, JsonView};
use crate::text::{chars_contains, chars_of, contains, dec_string, push_u64, string_append, to_owned_string};

verus! {

/// Errors of the relay and admin endpoints.  Errors that carry a value of an
/// outside library (database, HTTP client, …) carry its rendered text here.
pub enum AppError {
    Unauthorized,
    AuthFailed(String),
    Forbidden(String),
    /// The wallet balance is too low (HTTP 402).
    PaymentRequired(String),
    NotFound(String),
    BadRequest(String),
    Conflict(String),
    TooManyRequests(String),
    UpstreamError(String),
    /// An upstream HTTP error: status and message.
    UpstreamHttpError(u16, String),
    Internal(String),
    Database(String),
    Reqwest(String),
    Anyhow(String),
    Json(String),
}

impl AppError {
    /// The HTTP status of this error.
    pub open spec fn status_of(&self) -> u16 {
        match self {
            AppError::UpstreamHttpError(s, _) => *s,
            AppError::Unauthorized | AppError::AuthFailed(_) => 401,
            AppError::PaymentRequired(_) => 402,
            AppError::Forbidden(_) => 403,
            AppError::NotFound(_) => 404,
            AppError::BadRequest(_) => 400,
            AppError::Conflict(_) => 409,
            AppError::TooManyRequests(_) => 429,
            AppError::UpstreamError(_) | AppError::Reqwest(_) => 502,
            _ => 500,
        }
    }

    /// The rendered message of this error.
    pub open spec fn text_of(&self) -> Seq<char> {
        match self {
            AppError::Unauthorized => "Authentication required"@,
            AppError::AuthFailed(m) => m@,
            AppError::Forbidden(m) => "Forbidden: "@ + m@,
            AppError::PaymentRequired(m) => m@,
            AppError::NotFound(m) => "Not found: "@ + m@,
            AppError::BadRequest(m) => "Bad request: "@ + m@,
            AppError::Conflict(m) => "Conflict: "@ + m@,
            AppError::TooManyRequests(m) => "Rate limited: "@ + m@,
            AppError::UpstreamError(m) => "Upstream error: "@ + m@,
            AppError::UpstreamHttpError(s, m) => "Upstream HTTP error "@ + dec_string(*s as nat)
                + ": "@ + m@,
            AppError::Internal(m) => "Internal error: "@ + m@,
            AppError::Database(m) => m@,
            AppError::Reqwest(m) => "HTTP client error: "@ + m@,
            AppError::Anyhow(m) => m@,
            AppError::Json(m) => m@,
        }
    }

    /// Business-side errors, after which no HA failover may happen.
    pub open spec fn access_side(&self) -> bool {
        match self {
            AppError::PaymentRequired(_) | AppError::Forbidden(_) | AppError::BadRequest(_)
            | AppError::Unauthorized | AppError::AuthFailed(_) => true,
            AppError::Internal(m) => contains(m@, "预扣费"@),
            _ => false,
        }
    }

    /// The HTTP status clients and HA failover see (unknown → 500, gateway → 502).
    pub fn http_status(&self) -> (r: u16)
        ensures
            r == self.status_of(),
    {
        match self {
            AppError::UpstreamHttpError(s, _) => *s,
            AppError::Unauthorized | AppError::AuthFailed(_) => 401,
            AppError::PaymentRequired(_) => 402,
            AppError::Forbidden(_) => 403,
            AppError::NotFound(_) => 404,
            AppError::BadRequest(_) => 400,
            AppError::Conflict(_) => 409,
            AppError::TooManyRequests(_) => 429,
            AppError::UpstreamError(_) | AppError::Reqwest(_) => 502,
            _ => 500,
        }
    }

    /// The rendered message (what `to_string` gives for the error).
    pub fn message(&self) -> (r: String)
        ensures
            r@ == self.text_of(),
    {
        let mut out = String::new();
        match self {
            AppError::Unauthorized => string_append(&mut out, "Authentication required"),
            AppError::AuthFailed(m) => string_append(&mut out, m.as_str()),
            AppError::Forbidden(m) => {
                string_append(&mut out, "Forbidden: ");
                string_append(&mut out, m.as_str());
            },
            AppError::PaymentRequired(m) => string_append(&mut out, m.as_str()),
            AppError::NotFound(m) => {
                string_append(&mut out, "Not found: ");
                string_append(&mut out, m.as_str());
            },
            AppError::BadRequest(m) => {
                string_append(&mut out, "Bad request: ");
                string_append(&mut out, m.as_str());
            },
            AppError::Conflict(m) => {
                string_append(&mut out, "Conflict: ");
                string_append(&mut out, m.as_str());
            },
            AppError::TooManyRequests(m) => {
                string_append(&mut out, "Rate limited: ");
                string_append(&mut out, m.as_str());
            },
            AppError::UpstreamError(m) => {
                string_append(&mut out, "Upstream error: ");
                string_append(&mut out, m.as_str());
            },
            AppError::UpstreamHttpError(s, m) => {
                string_append(&mut out, "Upstream HTTP error ");
                push_u64(&mut out, *s as u64);
                string_append(&mut out, ": ");
                string_append(&mut out, m.as_str());
            },
            AppError::Internal(m) => {
                string_append(&mut out, "Internal error: ");
                string_append(&mut out, m.as_str());
            },
            AppError::Database(m) => string_append(&mut out, m.as_str()),
            AppError::Reqwest(m) => {
                string_append(&mut out, "HTTP client error: ");
                string_append(&mut out, m.as_str());
            },
            AppError::Anyhow(m) => string_append(&mut out, m.as_str()),
            AppError::Json(m) => string_append(&mut out, m.as_str()),
        }
        assert(out@ =~= self.text_of());
        out
    }

    /// Whether the error is business-side (payment, permission, request,
    /// authentication, or a pre-deduction failure), which stops failover.
    pub fn is_access_side(&self) -> (r: bool)
        ensures
            r == self.access_side(),
    {
        match self {
            AppError::PaymentRequired(_) | AppError::Forbidden(_) | AppError::BadRequest(_)
            | AppError::Unauthorized | AppError::AuthFailed(_) => true,
            AppError::Internal(m) => {
                let mv = chars_of(m.as_str());
                let p = chars_of("预扣费");
                chars_contains(mv.as_slice(), p.as_slice())
            },
            _ => false,
        }
    }
}


/// The status a response can carry: `StatusCode::from_u16` accepts 100 to
/// 999; anything else becomes 502.
pub open spec fn valid_status_or_gateway(s: u16) -> u16 {
    if 100 <= s && s <= 999 {
        s
    } else {
        502
    }
}

impl AppError {
    /// The status of the error response.
    pub open spec fn response_status_of(&self) -> u16 {
        match self {
            AppError::UpstreamHttpError(s, _) => valid_status_or_gateway(*s),
            _ => self.status_of(),
        }
    }

    /// The message shown to clients: errors of the server and of the
    /// database, HTTP client or serialiser are replaced by a fixed sentence.
    pub open spec fn client_text_of(&self) -> Seq<char> {
        match self {
            AppError::Unauthorized => "Authentication required"@,
            AppError::AuthFailed(m) | AppError::PaymentRequired(m) | AppError::Forbidden(m)
            | AppError::NotFound(m) | AppError::BadRequest(m) | AppError::Conflict(m)
            | AppError::TooManyRequests(m) | AppError::UpstreamError(m) => m@,
            AppError::UpstreamHttpError(_, m) => m@,
            AppError::Internal(_) | AppError::Anyhow(_) => "Internal server error"@,
            AppError::Database(_) => "Internal database error"@,
            AppError::Reqwest(_) => "Upstream request failed"@,
            AppError::Json(_) => "Serialization error"@,
        }
    }

    /// Whether an upstream's JSON message is passed through as the body.
    pub open spec fn passes_json(&self) -> bool {
        self is UpstreamError || self is UpstreamHttpError
    }

    /// The status of the error response (see [`Self::response_status_of`]).
    pub fn response_status(&self) -> (r: u16)
        ensures
            r == self.response_status_of(),
    {
        match self {
            AppError::UpstreamHttpError(s, _) => if 100 <= *s && *s <= 999 {
                *s
            } else {
                502
            },
            _ => self.http_status(),
        }
    }

    /// The message shown to clients (see [`Self::client_text_of`]).
    pub fn client_message(&self) -> (r: String)
        ensures
            r@ == self.client_text_of(),
    {
        let mut out = String::new();
        match self {
            AppError::Unauthorized => string_append(&mut out, "Authentication required"),
            AppError::AuthFailed(m) | AppError::PaymentRequired(m) | AppError::Forbidden(m)
            | AppError::NotFound(m) | AppError::BadRequest(m) | AppError::Conflict(m)
            | AppError::TooManyRequests(m) | AppError::UpstreamError(m) => string_append(&mut out, m.as_str()),
            AppError::UpstreamHttpError(_, m) => string_append(&mut out, m.as_str()),
            AppError::Internal(_) | AppError::Anyhow(_) => string_append(&mut out, "Internal server error"),
            AppError::Database(_) => string_append(&mut out, "Internal database error"),
            AppError::Reqwest(_) => string_append(&mut out, "Upstream request failed"),
            AppError::Json(_) => string_append(&mut out, "Serialization error"),
        }
        assert(out@ =~= self.client_text_of());
        out
    }

    /// Whether an upstream's JSON message is passed through as the body.
    pub fn passthrough_json(&self) -> (r: bool)
        ensures
            r == self.passes_json(),
    {
        match self {
            AppError::UpstreamError(_) | AppError::UpstreamHttpError(_, _) => true,
            _ => false,
        }
    }
}

/// `{"error": {"message": …, "type": "api_error", "code": "<status>"}}`.
pub open spec fn error_object(message: Seq<char>, status: u16) -> JsonView {
    JsonView::Object(
        seq![
            (
                "error"@,
                JsonView::Object(
                    seq![
                        ("message"@, JsonView::Str(message)),
                        ("type"@, JsonView::Str("api_error"@)),
                        ("code"@, JsonView::Str(dec_string(status as nat))),
                    ],
                ),
            ),
        ],
    )
}

/// The body of an error response: an upstream's message that is JSON is
/// sent as it is (`parsed` is the message parsed); any other message is
/// wrapped in [`error_object`].
pub fn error_body(message: &str, status: u16, passthrough: bool, parsed: Option<JsonValue>) -> (r: JsonValue)
    ensures
        r@ == (match parsed {
            Some(p) => if passthrough {
                p@
            } else {
                error_object(message@, status)
            },
            None => error_object(message@, status),
        }),
{
    if passthrough {
        if let Some(p) = parsed {
            return p;
        }
    }
    let mut code = String::new();
    push_u64(&mut code, status as u64);
    let mut inner: Vec<(String, JsonValue)> = Vec::new();
    inner.push((to_owned_string("message"), JsonValue::Str(to_owned_string(message))));
    inner.push((to_owned_string("type"), JsonValue::Str(to_owned_string("api_error"))));
    let ghost cv = code@;
    inner.push((to_owned_string("code"), JsonValue::Str(code)));
    let io = jobject(inner);
    assert(member_views(inner@) =~= seq![
        ("message"@, JsonView::Str(message@)),
        ("type"@, JsonView::Str("api_error"@)),
        ("code"@, JsonView::Str(cv)),
    ]);
    let ghost iv = io@;
    let mut outer: Vec<(String, JsonValue)> = Vec::new();
    outer.push((to_owned_string("error"), io));
    let r = jobject(outer);
    assert(member_views(outer@) =~= seq![("error"@, iv)]);
    r
}

} // verus!
