use tokensbyte::errors::{error_body, AppError};
use tokensbyte::json_tree::JsonValue;

#[test]
fn statuses_of_errors() {
    assert_eq!(AppError::Unauthorized.http_status(), 401);
    assert_eq!(AppError::AuthFailed("x".into()).http_status(), 401);
    assert_eq!(AppError::PaymentRequired("x".into()).http_status(), 402);
    assert_eq!(AppError::Forbidden("x".into()).http_status(), 403);
    assert_eq!(AppError::NotFound("x".into()).http_status(), 404);
    assert_eq!(AppError::BadRequest("x".into()).http_status(), 400);
    assert_eq!(AppError::Conflict("x".into()).http_status(), 409);
    assert_eq!(AppError::TooManyRequests("x".into()).http_status(), 429);
    assert_eq!(AppError::UpstreamError("x".into()).http_status(), 502);
    assert_eq!(AppError::Reqwest("x".into()).http_status(), 502);
    assert_eq!(AppError::UpstreamHttpError(418, "x".into()).http_status(), 418);
    assert_eq!(AppError::Internal("x".into()).http_status(), 500);
    assert_eq!(AppError::Database("x".into()).http_status(), 500);
    assert_eq!(AppError::Anyhow("x".into()).http_status(), 500);
    assert_eq!(AppError::Json("x".into()).http_status(), 500);
}

#[test]
fn messages_of_errors() {
    assert_eq!(AppError::Unauthorized.message(), "Authentication required");
    assert_eq!(AppError::Forbidden("no".into()).message(), "Forbidden: no");
    assert_eq!(AppError::NotFound("m".into()).message(), "Not found: m");
    assert_eq!(AppError::BadRequest("b".into()).message(), "Bad request: b");
    assert_eq!(AppError::Conflict("c".into()).message(), "Conflict: c");
    assert_eq!(AppError::TooManyRequests("t".into()).message(), "Rate limited: t");
    assert_eq!(AppError::UpstreamError("u".into()).message(), "Upstream error: u");
    assert_eq!(AppError::UpstreamHttpError(503, "busy".into()).message(), "Upstream HTTP error 503: busy");
    assert_eq!(AppError::Internal("i".into()).message(), "Internal error: i");
    assert_eq!(AppError::Reqwest("r".into()).message(), "HTTP client error: r");
    assert_eq!(AppError::PaymentRequired("p".into()).message(), "p");
    assert_eq!(AppError::AuthFailed("a".into()).message(), "a");
    assert_eq!(AppError::Database("d".into()).message(), "d");
}

#[test]
fn access_side_errors() {
    assert!(AppError::BadRequest("x".into()).is_access_side());
    assert!(AppError::Unauthorized.is_access_side());
    assert!(AppError::Internal("预扣费失败".into()).is_access_side());
    assert!(!AppError::Internal("other".into()).is_access_side());
    assert!(!AppError::UpstreamError("x".into()).is_access_side());
}

fn s(x: &str) -> String {
    x.to_string()
}

#[test]
fn error_responses() {
    assert_eq!(AppError::UpstreamHttpError(42, s("m")).response_status(), 502);
    assert_eq!(AppError::UpstreamHttpError(1000, s("m")).response_status(), 502);
    assert_eq!(AppError::UpstreamHttpError(429, s("m")).response_status(), 429);
    assert_eq!(AppError::NotFound(s("x")).response_status(), 404);
    assert_eq!(AppError::Internal(s("boom")).client_message(), "Internal server error");
    assert_eq!(AppError::Database(s("db")).client_message(), "Internal database error");
    assert_eq!(AppError::Reqwest(s("r")).client_message(), "Upstream request failed");
    assert_eq!(AppError::Json(s("j")).client_message(), "Serialization error");
    assert_eq!(AppError::Unauthorized.client_message(), "Authentication required");
    assert_eq!(AppError::NotFound(s("x")).client_message(), "x");
    assert!(AppError::UpstreamError(s("u")).passthrough_json());
    assert!(!AppError::BadRequest(s("b")).passthrough_json());
    let wrapped = JsonValue::Object(vec![(
        s("error"),
        JsonValue::Object(vec![
            (s("message"), JsonValue::Str(s("oops"))),
            (s("type"), JsonValue::Str(s("api_error"))),
            (s("code"), JsonValue::Str(s("400"))),
        ]),
    )]);
    assert_eq!(error_body("oops", 400, false, None), wrapped);
    let parsed = JsonValue::Object(vec![(s("x"), JsonValue::Number(s("1")))]);
    assert_eq!(error_body("{\"x\":1}", 502, true, Some(JsonValue::Object(vec![(s("x"), JsonValue::Number(s("1")))]))), parsed);
    assert_eq!(error_body("oops", 400, false, Some(JsonValue::Null)), wrapped);
}
