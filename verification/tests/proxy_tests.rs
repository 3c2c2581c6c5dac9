use tokensbyte::errors::AppError;
use tokensbyte::proxy::{
    bill_record_plan,
    action_type_from_path, category_compatible, category_endpoint, classify_error_code,
    classify_error_text, infer_error_status_code, norm_status, parse_ebml_vint, sanitize_base64,
    sanitize_error_message, type_mismatch_message, upstream_error_text, upstream_fail,
};

#[test]
fn endpoints_and_categories() {
    assert_eq!(category_endpoint(Some("图片")), "/v1/images/generations");
    assert_eq!(category_endpoint(Some("视频增强")), "/v1/video/generations");
    assert_eq!(category_endpoint(Some("排序")), "/v1/rerank");
    assert_eq!(category_endpoint(None), "/v1/chat/completions");
    assert!(category_compatible("视频", "视频增强"));
    assert!(!category_compatible("图片", "视频"));
    assert_eq!(
        type_mismatch_message("m1", "图片", "聊天"),
        "模型 'm1' 为 '图片' 类型，不支持当前 '聊天' 接口请求"
    );
}

#[test]
fn action_types() {
    assert_eq!(action_type_from_path("/v1/Video/enhance-video|x"), Some("视频增强"));
    assert_eq!(action_type_from_path("/api/v3/contents/generations/tasks"), Some("视频"));
    assert_eq!(action_type_from_path("/v1/images/generations"), Some("图片"));
    assert_eq!(action_type_from_path("/v1/audio/speech"), Some("音频"));
    assert_eq!(action_type_from_path("/v1/embeddings"), Some("向量"));
    assert_eq!(action_type_from_path("/v1/chat/completions"), Some("聊天"));
    assert_eq!(action_type_from_path("/unknown"), None);
}

#[test]
fn statuses() {
    assert_eq!(norm_status(429), 429);
    assert_eq!(norm_status(200), 502);
    assert_eq!(norm_status(600), 502);
    assert_eq!(upstream_error_text(503, "  "), "Upstream HTTP error 503");
    assert_eq!(upstream_error_text(503, "busy"), "busy");
}

#[test]
fn error_codes_and_texts() {
    assert_eq!(classify_error_code("429"), Some(429));
    assert_eq!(classify_error_code("2013"), None);
    assert_eq!(classify_error_code("100001"), None);
    assert_eq!(classify_error_code("99999999999999999999999"), None);
    assert_eq!(classify_error_code("+503"), Some(503));
    assert_eq!(classify_error_code("PolicyViolation"), Some(403));
    assert_eq!(classify_error_code("invalid_api_key_auth"), Some(401));
    assert_eq!(classify_error_code("RateLimitExceeded"), Some(429));
    assert_eq!(classify_error_code("GatewayTimeout"), Some(504));
    assert_eq!(classify_error_code("InternalServiceError"), Some(500));
    assert_eq!(classify_error_code("SomethingElse"), Some(400));
    assert_eq!(classify_error_text("Content blocked by safety system"), 403);
    assert_eq!(classify_error_text("You are not authorized"), 403);
    assert_eq!(classify_error_text("Invalid API_KEY"), 401);
    assert_eq!(classify_error_text("余额不足"), 429);
    assert_eq!(infer_error_status_code(Some("2013"), Some("quota exceeded")), 429);
    assert_eq!(infer_error_status_code(Some("404"), Some("quota exceeded")), 404);
    assert_eq!(infer_error_status_code(None, None), classify_error_text(""));
}

#[test]
fn redaction() {
    assert_eq!(
        sanitize_error_message("call https://api.vendor.com/v1/x failed key sk-abcdef123456"),
        "call https://***/v1/x failed key ***"
    );
    let uri = format!("see data:image/png;base64,{} end", "A".repeat(120));
    assert_eq!(sanitize_base64(&uri), "see base64数据 end");
    let raw = format!("{{\"b64\":\"{}\"}}", "Q".repeat(210));
    assert_eq!(sanitize_base64(&raw), "{\"b64\":\"base64数据\"}");
    match upstream_fail(200, "via http://h.example/p") {
        AppError::UpstreamHttpError(s, m) => {
            assert_eq!(s, 502);
            assert_eq!(m, "via http://***/p");
        }
        _ => panic!("expected an upstream error"),
    }
}

#[test]
fn ebml_vints() {
    assert_eq!(parse_ebml_vint(&[0x81]), Some((1, 1)));
    assert_eq!(parse_ebml_vint(&[0x40, 0x02]), Some((2, 2)));
    assert_eq!(parse_ebml_vint(&[0x20, 0x01, 0x00]), Some((256, 3)));
    assert_eq!(parse_ebml_vint(&[0x40]), None);
    assert_eq!(parse_ebml_vint(&[0x00, 0x01]), None);
    assert_eq!(parse_ebml_vint(&[]), None);
}

use tokensbyte::proxy::{
    error_json_slice, extract_error_message, extract_request_video_urls, infer_error_status_code_from_str,
};

#[test]
fn request_video_urls_sorted_and_unique() {
    let body = r#"{"videos":["b","",{"url":"a"},{"video_url":"c"},{"url":""}],"content":[{"type":"video_url","video_url":{"url":"a"}},{"type":"text","video_url":"z"},{"type":"input_video","video_url":"d"}]}"#;
    assert_eq!(extract_request_video_urls(body), vec!["a", "b", "c", "d"]);
    assert!(extract_request_video_urls("{}").is_empty());
}

#[test]
fn error_message_from_json_part() {
    assert_eq!(error_json_slice("HTTP 400: {\"e\":1}"), "{\"e\":1}");
    assert_eq!(error_json_slice("plain"), "plain");
    assert_eq!(extract_error_message("HTTP 400: {\"error\":{\"message\":\"bad\"}}", Some("bad".to_string())), "bad");
    assert_eq!(extract_error_message("HTTP 400: {broken", Some("x".to_string())), "HTTP 400: {broken");
    assert_eq!(extract_error_message("{\"a\":1}", None), "{\"a\":1}");
}

#[test]
fn status_from_error_text() {
    assert_eq!(infer_error_status_code_from_str("rate limit exceeded", None, None), 429);
    assert_eq!(infer_error_status_code_from_str("x {\"error\":{\"code\":\"401\"}}", Some("401"), None), 401);
    assert_eq!(infer_error_status_code_from_str("x {\"error\":{}}", None, Some("content policy")), 403);
}

#[test]
fn billing_log_records() {
    let p = bill_record_plan(
        1,
        "视频",
        None,
        Some("{\"a\":1}"),
        None,
        Some("{\"id\":\"t1\"}"),
        "/v1/video|https://up/api",
        Some("预扣冻结 1.0"),
        true,
    );
    assert_eq!(p.request_content.as_deref(), Some("{\"a\":1}"));
    assert_eq!(p.upstream_req_content, None);
    assert_eq!((p.system_endpoint.as_str(), p.upstream_endpoint.as_str()), ("/v1/video", "https://up/api"));
    assert!(p.is_freeze);
    assert_eq!(p.post_response.as_deref(), Some("{\"id\":\"t1\"}"));
    assert_eq!((p.action_type.as_str(), p.is_completed, p.log_id_prefix.as_str()), ("视频", 0, "tsk_"));
    // logging off: requests dropped, chat keeps only usage (or [])
    let p = bill_record_plan(0, "聊天", None, Some("x"), Some("y"), Some(r#"{"id":1,"usage":{"prompt_tokens":5}}"#), "/v1/chat", None, false);
    assert_eq!((p.request_content, p.upstream_req_content), (None, None));
    assert_eq!(p.response_content.as_deref(), Some(r#"{"usage":{"prompt_tokens":5}}"#));
    assert_eq!((p.system_endpoint.as_str(), p.upstream_endpoint.as_str()), ("/v1/chat", "/v1/chat"));
    assert_eq!((p.is_freeze, p.is_completed, p.log_id_prefix.as_str()), (false, 1, "log_"));
    let p = bill_record_plan(0, "", Some("文本"), None, None, Some("plain"), "e", None, true);
    assert_eq!(p.action_type, "文本");
    assert_eq!(p.response_content.as_deref(), Some("plain"));
    let p = bill_record_plan(0, "文本", None, None, None, Some("plain"), "e", None, false);
    assert_eq!(p.response_content.as_deref(), Some("[]"));
}

#[test]
fn category_endpoints_read_back() {
    for c in ["图片", "视频", "音频", "向量", "排序", "聊天"] {
        assert_eq!(action_type_from_path(category_endpoint(Some(c))), Some(c));
    }
    assert_eq!(action_type_from_path(category_endpoint(Some("视频增强"))), Some("视频"));
}
