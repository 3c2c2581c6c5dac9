use tokensbyte::upstream_headers::{
    header_str, is_sse, is_stream_content_type, json_response_headers, merge_upstream_response_headers,
    should_forward_response_header, sse_response_headers, with_content_type_headers,
};

fn h(name: &str, value: &str) -> (String, Option<String>) {
    (name.to_string(), Some(value.to_string()))
}

fn upstream() -> Vec<(String, Option<String>)> {
    vec![
        h("content-type", "text/event-stream; charset=utf-8"),
        h("x-request-id", "r1"),
        h("content-length", "10"),
        h("cache-control", "max-age=0"),
        ("x-binary".to_string(), None),
    ]
}

#[test]
fn reads_headers_case_insensitively() {
    let u = upstream();
    assert_eq!(header_str(&u, "Content-Type"), Some("text/event-stream; charset=utf-8"));
    assert_eq!(header_str(&u, "x-binary"), None);
    assert_eq!(header_str(&u, "missing"), None);
    assert!(is_sse(&u));
    assert!(is_stream_content_type(&u));
    let nd = vec![h("content-type", "application/x-ndjson")];
    assert!(!is_sse(&nd));
    assert!(is_stream_content_type(&nd));
    assert!(!is_stream_content_type(&[h("content-type", "application/json")]));
}

#[test]
fn forwards_only_diagnostic_headers() {
    assert!(should_forward_response_header("x-request-id"));
    for name in ["connection", "keep-alive", "set-cookie", "content-length", "content-type", "te"] {
        assert!(!should_forward_response_header(name), "{}", name);
    }
    let mut dest = vec![h("a", "1")];
    merge_upstream_response_headers(&mut dest, &upstream());
    assert_eq!(
        dest,
        vec![h("a", "1"), h("x-request-id", "r1"), h("cache-control", "max-age=0"), ("x-binary".to_string(), None)]
    );
}

#[test]
fn json_and_sse_response_headers() {
    let u = upstream();
    assert_eq!(
        json_response_headers(&u),
        vec![
            h("x-request-id", "r1"),
            h("cache-control", "max-age=0"),
            ("x-binary".to_string(), None),
            h("content-type", "application/json"),
        ]
    );
    assert_eq!(
        sse_response_headers(&u),
        vec![
            h("x-request-id", "r1"),
            ("x-binary".to_string(), None),
            h("content-type", "text/event-stream"),
            h("cache-control", "no-cache"),
            h("connection", "keep-alive"),
        ]
    );
    assert_eq!(with_content_type_headers(&[], "text/plain; charset=é"), vec![("content-type".to_string(), None)]);
}
