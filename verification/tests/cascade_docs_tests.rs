use serde_json::Value;
use tokensbyte::cascade_docs::{
    cascade_s2_payload, cascade_s2_retry_delay, cascade_s2_retryable,
    cascade_client_task_id, cascade_combine_stages, cascade_s1_json_from_log, cascade_s1_with_s2_url,
    cascade_s2_apply_resolution_param, cascade_scrub_plugin_tag_for_user, cascade_seal_s1_task_id,
    cascade_standard_480p_crop, cascade_upstream_req_combined, patch_json_fields_by_key,
    replace_exact_url_in_json,
};
use tokensbyte::json_tree::JsonValue;

fn j(s: &str) -> Value {
    serde_json::from_str(s).unwrap()
}

fn tree(v: &Value) -> JsonValue {
    match v {
        Value::Null => JsonValue::Null,
        Value::Bool(b) => JsonValue::Bool(*b),
        Value::Number(n) => JsonValue::Number(n.to_string()),
        Value::String(s) => JsonValue::Str(s.clone()),
        Value::Array(a) => JsonValue::Array(a.iter().map(tree).collect()),
        Value::Object(m) => JsonValue::Object(m.iter().map(|(k, v)| (k.clone(), tree(v))).collect()),
    }
}

fn value(t: &JsonValue) -> Value {
    match t {
        JsonValue::Null => Value::Null,
        JsonValue::Bool(b) => Value::Bool(*b),
        JsonValue::Number(n) => serde_json::from_str(n).unwrap(),
        JsonValue::Str(s) => Value::String(s.clone()),
        JsonValue::Array(a) => Value::Array(a.iter().map(value).collect()),
        JsonValue::Object(m) => Value::Object(m.iter().map(|(k, v)| (k.clone(), value(v))).collect()),
    }
}

#[test]
fn resolution_parameter_of_stage_two() {
    let mut p = tree(&j(r#"{"resolution":"x","resolution_limit":1,"model":"m"}"#));
    cascade_s2_apply_resolution_param(&mut p, " 480P ", "vve-sd");
    assert_eq!(value(&p), j(r#"{"model":"m","resolution_limit":496}"#));
    let mut q = tree(&j(r#"{"resolution":"x"}"#));
    cascade_s2_apply_resolution_param(&mut q, "480p", " VVE-GT ");
    assert_eq!(value(&q), j(r#"{"resolution":"480p"}"#));
    let mut r = tree(&j(r#"{}"#));
    cascade_s2_apply_resolution_param(&mut r, "1080P", "vve-sd");
    assert_eq!(value(&r), j(r#"{"resolution":"1080p"}"#));
}

#[test]
fn plugin_tag_loses_channel_secrets() {
    let raw = r#"{"cascade":{"api_key":"k","base_url":"u","resolution":"720p","mid":"vve-sd"},"x":1}"#;
    let parsed = tree(&serde_json::from_str(raw).unwrap());
    let out = cascade_scrub_plugin_tag_for_user(Some(raw), Some(parsed)).unwrap();
    assert_eq!(value(&out), j(r#"{"cascade":{"resolution":"720p"},"x":1}"#));
    let clean = r#"{"cascade":{"resolution":"720p"}}"#;
    assert!(cascade_scrub_plugin_tag_for_user(Some(clean), Some(tree(&serde_json::from_str(clean).unwrap()))).is_none());
    assert!(cascade_scrub_plugin_tag_for_user(Some("{}"), Some(tree(&j(r#"{}"#)))).is_none());
    assert!(cascade_scrub_plugin_tag_for_user(None, None).is_none());
}

#[test]
fn stage_records_are_combined() {
    let c = cascade_combine_stages(tree(&j(r#"{"id":"a"}"#)), "oops", None);
    assert_eq!(value(&c), j(r#"{"stage1":{"id":"a"},"stage2":"oops"}"#));
    let d = cascade_combine_stages(tree(&j(r#"1"#)), "{\"b\":2}", Some(tree(&j(r#"{"b":2}"#))));
    assert_eq!(value(&d), j(r#"{"stage1":1,"stage2":{"b":2}}"#));
    assert!(cascade_upstream_req_combined("", None, tree(&j(r#"{}"#))).is_none());
    let e = cascade_upstream_req_combined("not json", None, tree(&j(r#"{"s":2}"#))).unwrap();
    assert_eq!(value(&e), j(r#"{"stage1":{},"stage2":{"s":2}}"#));
}

#[test]
fn patches_and_url_replacement() {
    let mut v = tree(&j(r#"{"content":{"video_url":"old","fps":30},"resolution":"480p"}"#));
    patch_json_fields_by_key(&mut v, &[("video_url", "new"), ("resolution", "1080p")], &[("fps", 60)]);
    assert_eq!(value(&v), j(r#"{"content":{"video_url":"new","fps":60},"resolution":"1080p"}"#));
    let mut w = tree(&j(r#"{"a":"u1","b":["u1"]}"#));
    replace_exact_url_in_json(&mut w, "u1", "");
    assert_eq!(value(&w), j(r#"{"a":"u1","b":["u1"]}"#));
    replace_exact_url_in_json(&mut w, "u1", "u2");
    assert_eq!(value(&w), j(r#"{"a":"u2","b":["u2"]}"#));
}

#[test]
fn s1_shown_with_s2_output() {
    let s1 = tree(&j(r#"{"id":"t","content":{"video_url":"http://old.mp4","last_frame_url":"http://f1.png"},"resolution":"480p","fps":24,"framespersecond":24,"ratio":"16:9"}"#));
    let out = cascade_s1_with_s2_url(&s1, "http://old.mp4", "http://new.mp4", r#"{"cascade":{"resolution":" 1080P "}}"#, Some(30), Some(("http://f1.png", "http://f2.png")));
    assert_eq!(value(&out), j(r#"{"id":"t","content":{"video_url":"http://new.mp4","last_frame_url":"http://f2.png"},"resolution":"1080p","fps":30,"framespersecond":30,"ratio":"16:9"}"#));
    // no stage-one URL: every existing video_url is overwritten; default 720p and 60 fps
    let s1b = tree(&j(r#"{"content":{"video_url":""},"fps":24,"resolution":"480p"}"#));
    let out = cascade_s1_with_s2_url(&s1b, "", "http://new.mp4", "", None, None);
    assert_eq!(value(&out), j(r#"{"content":{"video_url":"http://new.mp4"},"fps":60,"resolution":"720p"}"#));
    // no stage-two URL: unchanged
    let out = cascade_s1_with_s2_url(&s1b, "x", "", "", Some(5), None);
    assert_eq!(value(&out), value(&s1b));
}

#[test]
fn standard_480p_crop_plans() {
    let s1 = tree(&j(r#"{"ratio":" 16:9 "}"#));
    assert_eq!(cascade_standard_480p_crop(&s1, "720P", &[]), Some((2, 6, 862, 490)));
    assert_eq!(cascade_standard_480p_crop(&s1, "1080p", &[]), None);
    let s1 = tree(&j(r#"{"resolution":"720p","ratio":"16:9"}"#));
    assert_eq!(cascade_standard_480p_crop(&s1, "720p", &[]), None);
    let s1 = tree(&j(r#"{"resolution":"480P"}"#));
    let hints = vec![tree(&j(r#"{"ratio":""}"#)), tree(&j(r#"{"ratio":"9:16"}"#))];
    assert_eq!(cascade_standard_480p_crop(&s1, "720p", &hints), Some((6, 2, 490, 862)));
    let hints = vec![tree(&j(r#"{"ratio":"1:1"}"#))];
    assert_eq!(cascade_standard_480p_crop(&s1, "720p", &hints), None);
    assert_eq!(cascade_standard_480p_crop(&s1, "720p", &[]), None);
}

#[test]
fn seal_stage_one_task_id() {
    let tag = cascade_seal_s1_task_id(Some(tree(&j(r#"{"cascade":{"resolution":"1080p"},"x":1}"#))), "  up-1 ").unwrap();
    assert_eq!(value(&tag), j(r#"{"cascade":{"resolution":"1080p","s1_task_id":"up-1"},"x":1}"#));
    let tag = cascade_seal_s1_task_id(None, "up-2").unwrap();
    assert_eq!(value(&tag), j(r#"{"cascade":{"s1_task_id":"up-2"}}"#));
    assert!(cascade_seal_s1_task_id(None, "   ").is_none());
    assert!(cascade_seal_s1_task_id(Some(tree(&j(r#"{"cascade":"x"}"#))), "a").is_none());
    assert!(cascade_seal_s1_task_id(Some(tree(&j(r#"[1]"#))), "a").is_none());
    assert_eq!(cascade_client_task_id("20240101120000", "01HQZ8X9ABCDEFGHJKMNPQRSTV"), "cgt-20240101120000-qrstv");
}

#[test]
fn stage_one_from_log() {
    assert_eq!(value(&cascade_s1_json_from_log("", None)), j("{}"));
    assert_eq!(value(&cascade_s1_json_from_log("oops", None)), j("{}"));
    let raw = r#"{"stage1":{"id":"a"},"stage2":{"id":"b"}}"#;
    assert_eq!(value(&cascade_s1_json_from_log(raw, Some(tree(&j(raw))))), j(r#"{"id":"a"}"#));
    let raw = r#"{"id":"c"}"#;
    assert_eq!(value(&cascade_s1_json_from_log(raw, Some(tree(&j(raw))))), j(r#"{"id":"c"}"#));
}

#[test]
fn stage_two_submission() {
    let p = cascade_s2_payload("http://v.mp4", "1080p", "vve-sd", None, "");
    assert_eq!(value(&p), j(r#"{"video_url":"http://v.mp4","fps":24,"bitrate_level":"high","resolution":"1080p"}"#));
    let p = cascade_s2_payload("http://v.mp4", "480p", "vve-sd", Some("standard"), r#"{"cascade":{"scene":"bogus"}}"#);
    let v = value(&p);
    assert_eq!(v["tool_version"], j("\"standard\""));
    assert_eq!(v["scene"], j("\"common\""));
    assert_eq!(v["resolution_limit"], j("496"));
    let p = cascade_s2_payload("u", "720p", "m", Some("pro"), "");
    assert_eq!(value(&p)["tool_version"], j("\"pro\""));
    assert!(value(&p).get("scene").is_none());
    assert!(cascade_s2_retryable(true, None));
    assert!(cascade_s2_retryable(false, Some("RequestLimitExceeded")));
    assert!(!cascade_s2_retryable(false, Some("InvalidParameter")));
    assert!(!cascade_s2_retryable(false, None));
    let delays: Vec<Option<u64>> = (1..=5).map(|a| cascade_s2_retry_delay(a, true)).collect();
    assert_eq!(delays, vec![Some(10), Some(20), Some(40), Some(60), None]);
    assert_eq!(cascade_s2_retry_delay(1, false), None);
}
