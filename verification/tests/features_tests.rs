use tokensbyte::features::{enrich_features_from_usage, extract_request_features};
use tokensbyte::usage::UsageTokens;

#[test]
fn chat_body_features() {
    let f = extract_request_features(
        r#"{"model":"m","messages":[{"role":"user","content":[{"type":"input_audio"},{"type":"video_url"}]}],"n":0,"size":"1024x1024","quality":"HIGH","mode":"Pro","generate_audio":"true","version":"Fast"}"#,
    );
    assert!(f.has_audio);
    assert!(f.has_video);
    assert!(!f.has_image_ref);
    assert_eq!(f.image_count, Some(1));
    assert_eq!(f.size.as_deref(), Some("1024x1024"));
    assert_eq!(f.resolution.as_deref(), Some("1k"));
    assert_eq!(f.quality.as_deref(), Some("high"));
    assert_eq!(f.mode.as_deref(), Some("pro"));
    assert_eq!(f.sound.as_deref(), Some("on"));
    assert_eq!(f.version.as_deref(), Some("fast"));
    assert_eq!(f.cache_creation, None);
    assert_eq!(f.web_search, None);
}

#[test]
fn tencent_body_features() {
    let f = extract_request_features(
        r#"{"FileInfos":[{"Usage":"firstframe"},{"Category":"Video","Usage":"Reference"},{"Usage":"other"}],"LastFrameUrl":"u","OutputConfig":{"Resolution":"720P","OffPeak":"enabled","OutputImageCount":3}}"#,
    );
    assert!(f.has_video);
    assert!(f.has_image_ref);
    assert_eq!(f.image_ref_count, Some(3));
    assert_eq!(f.resolution.as_deref(), Some("720p"));
    assert_eq!(f.service_tier.as_deref(), Some("flex"));
    assert_eq!(f.image_count, Some(3));
    assert_eq!(f.sound, None);
}

#[test]
fn usage_block_overrides() {
    let f = extract_request_features(r#"{"resolution":"480p","usage":{"SR":1080,"input_images":2}}"#);
    assert_eq!(f.resolution.as_deref(), Some("1080p"));
    assert_eq!(f.image_ref_count, Some(2));
    assert!(f.has_image_ref);
    let g = extract_request_features(r#"{"task":{"usage":{"SR":"720"}},"image":["a","b"]}"#);
    assert_eq!(g.resolution.as_deref(), Some("720p"));
    assert_eq!(g.image_ref_count, Some(2));
}

#[test]
fn text_and_tier_details() {
    assert_eq!(extract_request_features(r#"{"input":"你好ab"}"#).text_characters, Some(4));
    assert_eq!(extract_request_features(r#"{"request":{"text":"abc"}}"#).text_characters, Some(3));
    let f = extract_request_features(r#"{"service_tier":5,"parameters":{"service_tier":"flex"}}"#);
    assert_eq!(f.service_tier, None);
    let g = extract_request_features(r#"{"parameters":{"service_tier":"flex","prompt_extend":true}}"#);
    assert_eq!(g.service_tier.as_deref(), Some("flex"));
    assert!(g.prompt_extend);
    let h = extract_request_features(r#"{"generate_audio":false,"sound":"ON"}"#);
    assert_eq!(h.sound.as_deref(), Some("off"));
    assert!(!h.has_audio);
    let k = extract_request_features(r#"{"image_reference":null,"image_url":"x"}"#);
    assert!(!k.has_image_ref);
    assert_eq!(k.image_ref_count, None);
}

#[test]
fn merge_keeps_labels_and_takes_counts() {
    let mut a = extract_request_features(r#"{"resolution":"720p","n":2,"size":"1x1"}"#);
    let b = extract_request_features(r#"{"resolution":"1080p","n":4,"videos":["v"],"mode":"std"}"#);
    a.merge(b);
    assert_eq!(a.resolution.as_deref(), Some("720p"));
    assert_eq!(a.image_count, Some(4));
    assert!(a.has_video);
    assert_eq!(a.mode.as_deref(), Some("std"));
    assert_eq!(a.size.as_deref(), Some("1x1"));
}

#[test]
fn usage_figures_enrich_features() {
    let mut f = extract_request_features("{}");
    let mut u = UsageTokens::default();
    u.cache_creation = 5;
    enrich_features_from_usage(&mut f, &u);
    assert_eq!(f.cache_creation, Some(5));
    assert_eq!(f.web_search, None);
    u.web_search = 2;
    enrich_features_from_usage(&mut f, &u);
    assert_eq!(f.web_search, Some(2));
}

#[test]
fn settlement_merges_final_response() {
    let mut f = extract_request_features(r#"{"n":1}"#);
    f.merge_settlement_response(r#"{"result":{"resolution":"480p"}}"#, r#"{"data":[{"url":"a"},{"url":"b"}]}"#, None);
    assert_eq!(f.resolution.as_deref(), Some("480p"));
    assert_eq!(f.image_count, Some(2));
    f.merge_settlement_response("{}", "no images", Some("1080p".to_string()));
    assert_eq!(f.resolution.as_deref(), Some("1080p"));
    assert_eq!(f.image_count, Some(2));
}
