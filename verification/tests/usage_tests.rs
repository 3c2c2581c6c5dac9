use tokensbyte::usage::{
    assign_max, assign_upstream_total, is_tencent_ref_usage, normalize_resolution_label,
    parse_pixel_resolution, parse_usage, set_str_if_none, UsageTokens,
};

#[test]
fn assign_max_only_raises() {
    let mut d = 5;
    assign_max(&mut d, 3);
    assert_eq!(d, 5);
    assign_max(&mut d, 9);
    assert_eq!(d, 9);
}

#[test]
fn upstream_total_marks_stated() {
    let mut u = UsageTokens::default();
    assign_upstream_total(&mut u, 0);
    assert!(!u.has_total_tokens);
    assign_upstream_total(&mut u, 12);
    assert_eq!(u.total, 12);
    assert!(u.has_total_tokens);
    assign_upstream_total(&mut u, 4);
    assert_eq!(u.total, 12);
}

#[test]
fn set_str_if_none_fills_once() {
    let mut d: Option<String> = None;
    set_str_if_none(&mut d, Some(""));
    assert_eq!(d, None);
    set_str_if_none(&mut d, Some("720p"));
    assert_eq!(d.as_deref(), Some("720p"));
    set_str_if_none(&mut d, Some("1080p"));
    assert_eq!(d.as_deref(), Some("720p"));
}

#[test]
fn tencent_reference_usages() {
    assert!(is_tencent_ref_usage("firstframe"));
    assert!(is_tencent_ref_usage("LastFrame"));
    assert!(is_tencent_ref_usage("REFERENCE"));
    assert!(!is_tencent_ref_usage("Background"));
}

#[test]
fn resolution_labels() {
    assert_eq!(normalize_resolution_label(" 720P "), "720p");
    assert_eq!(normalize_resolution_label("1K"), "1k");
    assert_eq!(normalize_resolution_label("720"), "720p");
    assert_eq!(normalize_resolution_label("1024*768"), "1024x768");
    assert_eq!(normalize_resolution_label(""), "");
}

#[test]
fn pixel_resolution_tiers() {
    assert_eq!(parse_pixel_resolution("1024x1024"), Some("1k".to_string()));
    assert_eq!(parse_pixel_resolution("2048x1024"), Some("1k".to_string()));
    assert_eq!(parse_pixel_resolution("2048*1536"), Some("2k".to_string()));
    assert_eq!(parse_pixel_resolution("3840×2160"), Some("4k".to_string()));
    assert_eq!(parse_pixel_resolution(" 2K "), Some("2k".to_string()));
    assert_eq!(parse_pixel_resolution("1:1"), None);
    assert_eq!(parse_pixel_resolution("big"), None);
    assert_eq!(parse_pixel_resolution("black"), None);
    assert_eq!(parse_pixel_resolution(" 4K"), Some("4k".to_string()));
    assert_eq!(parse_pixel_resolution("1024 x 768"), Some("1k".to_string()));
}

#[test]
fn parse_usage_openai_json() {
    let body = r#"{"usage":{"prompt_tokens":10,"completion_tokens":5,"total_tokens":15,"prompt_tokens_details":{"cached_tokens":4}}}"#;
    let u = parse_usage(body);
    assert_eq!(u.prompt, 10);
    assert_eq!(u.completion, 5);
    assert_eq!(u.total, 15);
    assert!(u.has_total_tokens);
    assert_eq!(u.cached, 4);
}

#[test]
fn parse_usage_takes_larger_field_names() {
    let body = r#"{"usage":{"prompt_tokens":0,"input_tokens":1136,"output_tokens":7}}"#;
    let u = parse_usage(body);
    assert_eq!(u.prompt, 1136);
    assert_eq!(u.completion, 7);
    assert_eq!(u.total, 1143);
    assert!(!u.has_total_tokens);
}

#[test]
fn parse_usage_cache_creation_and_hits() {
    let body = r#"{"usage":{"input_tokens":3,"output_tokens":2,"claude_cache_creation_5_m_tokens":6,"claude_cache_creation_1_h_tokens":4,"cache_read_input_tokens":8}}"#;
    let u = parse_usage(body);
    assert_eq!(u.cache_creation, 10);
    assert_eq!(u.cached, 8);
    let native = r#"{"usage":{"cache_creation_input_tokens":11}}"#;
    assert_eq!(parse_usage(native).cache_creation, 11);
}

#[test]
fn parse_usage_gemini() {
    let body = r#"{"usageMetadata":{"promptTokenCount":20,"totalTokenCount":50,"cachedContentTokenCount":3}}"#;
    let u = parse_usage(body);
    assert_eq!(u.prompt, 20);
    assert_eq!(u.completion, 30);
    assert_eq!(u.total, 50);
    assert_eq!(u.cached, 3);
}

#[test]
fn parse_usage_wrapped_data_only_when_nothing_else() {
    let wrapped = r#"{"code":0,"data":{"usage":{"prompt_tokens":2,"completion_tokens":3}}}"#;
    let u = parse_usage(wrapped);
    assert_eq!(u.prompt, 2);
    assert_eq!(u.total, 5);
    let both = r#"{"usage":{"prompt_tokens":1},"data":{"usage":{"prompt_tokens":9}}}"#;
    assert_eq!(parse_usage(both).prompt, 1);
}

#[test]
fn parse_usage_sse_stream() {
    let sse = "data: {\"type\":\"message_start\",\"message\":{\"usage\":{\"input_tokens\":12}}}\n\ndata: {\"type\":\"message_delta\",\"usage\":{\"output_tokens\":30}}\ndata: [DONE]\n";
    let u = parse_usage(sse);
    assert_eq!(u.prompt, 12);
    assert_eq!(u.completion, 30);
    assert_eq!(u.total, 42);
}

#[test]
fn parse_usage_web_search_and_images() {
    let body = r#"{"usage":{"image_tokens":5,"input_tokens_details":{"image_tokens":9},"tool_usage":{"web_search":2}}}"#;
    let u = parse_usage(body);
    assert_eq!(u.image_tokens, 9);
    assert_eq!(u.web_search, 2);
}

#[test]
fn parse_usage_nothing() {
    let u = parse_usage("plain text");
    assert_eq!(u.prompt, 0);
    assert_eq!(u.total, 0);
}
