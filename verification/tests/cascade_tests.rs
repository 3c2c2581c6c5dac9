use tokensbyte::cascade::{
    cascade_allowed_bases, cascade_billing_enabled_resolutions, cascade_check_resolution,
    cascade_clamp_base_resolution, cascade_enhance_pair, cascade_is_combined_resp, cascade_is_res,
    cascade_is_version, cascade_json_ptr, cascade_json_str, cascade_resolve_base,
    cascade_resolve_enhance, cascade_resolve_scene, cascade_resolve_target_resolution,
    cascade_s1_upstream_task_id, cascade_scene_pair, cascade_stage_num, BillingRule,
};
use tokensbyte::errors::AppError;

fn pairs(v: &[(&str, &str)]) -> Vec<(String, String)> {
    v.iter().map(|(a, b)| (a.to_string(), b.to_string())).collect()
}

#[test]
fn enhance_pair_versions() {
    assert_eq!(cascade_enhance_pair(" Fast "), Some(("fast", "vve-ft")));
    assert_eq!(cascade_enhance_pair("standard"), Some(("standard", "vve-sd")));
    assert_eq!(cascade_enhance_pair("PRO"), Some(("pro", "vve-pf")));
    assert_eq!(cascade_enhance_pair("ai"), Some(("ai", "vve-gt")));
    assert_eq!(cascade_enhance_pair("ultra"), None);
    assert!(cascade_is_version("Pro"));
    assert!(!cascade_is_version(""));
}

#[test]
fn resolve_enhance_uses_config_and_guards_ai() {
    let cfg = pairs(&[("1080p", "ai"), ("480p", "ai"), ("720p", "fast"), ("2k", "bogus")]);
    assert_eq!(cascade_resolve_enhance("1080P", &cfg), ("ai", "vve-gt"));
    assert_eq!(cascade_resolve_enhance("480p", &cfg), ("standard", "vve-sd"));
    assert_eq!(cascade_resolve_enhance(" 720p ", &cfg), ("fast", "vve-ft"));
    assert_eq!(cascade_resolve_enhance("2k", &cfg), ("standard", "vve-sd"));
    assert_eq!(cascade_resolve_enhance("4k", &cfg), ("standard", "vve-sd"));
}

#[test]
fn scenes() {
    assert_eq!(cascade_scene_pair(" UGC "), Some("ugc"));
    assert_eq!(cascade_scene_pair("old_film"), Some("old_film"));
    assert_eq!(cascade_scene_pair("cartoon"), None);
    let cfg = pairs(&[("720p", "aigc"), ("1080p", "cartoon")]);
    assert_eq!(cascade_resolve_scene("standard", "720p", &cfg), Some("aigc"));
    assert_eq!(cascade_resolve_scene("standard", "1080p", &cfg), Some("common"));
    assert_eq!(cascade_resolve_scene("standard", "4k", &cfg), Some("common"));
    assert_eq!(cascade_resolve_scene("pro", "720p", &cfg), None);
}

#[test]
fn resolutions_and_bases() {
    assert!(cascade_is_res(" 768P "));
    assert!(cascade_is_res("4k"));
    assert!(!cascade_is_res("360p"));
    assert_eq!(cascade_allowed_bases("480p"), vec!["480p"]);
    assert_eq!(cascade_allowed_bases("720p"), vec!["480p", "720p"]);
    assert_eq!(cascade_allowed_bases("1080P"), vec!["720p", "480p", "1080p"]);
    assert_eq!(cascade_allowed_bases("4k"), vec!["1080p", "720p", "480p"]);
    assert_eq!(cascade_allowed_bases("weird"), vec!["720p"]);
    assert_eq!(cascade_clamp_base_resolution("2k"), "1080p");
    assert_eq!(cascade_clamp_base_resolution("720p"), "480p");
}

#[test]
fn resolve_base_prefers_allowed_config() {
    let cfg = pairs(&[("1080p", " 480P "), ("720p", "1080p")]);
    assert_eq!(cascade_resolve_base("1080p", &cfg), "480p");
    assert_eq!(cascade_resolve_base("720p", &cfg), "480p");
    assert_eq!(cascade_resolve_base("2k", &cfg), "1080p");
}

#[test]
fn json_pointer_reads() {
    let tag = r#"{"cascade":{"s1_task_id":"  Task-AB  ","resolution":" 1080P "}}"#;
    assert_eq!(cascade_json_ptr(tag, "/cascade/s1_task_id", false), Some("Task-AB".to_string()));
    assert_eq!(cascade_json_ptr(tag, "/cascade/s1_task_id", true), Some("task-ab".to_string()));
    assert_eq!(cascade_json_str(tag, "/cascade/missing"), None);
    assert_eq!(cascade_json_str("not json", "/x"), None);
    assert_eq!(cascade_json_str(r#"{"x":"   "}"#, "/x"), None);
    assert_eq!(cascade_s1_upstream_task_id(tag, "fb"), "Task-AB");
    assert_eq!(cascade_s1_upstream_task_id("{}", "fb"), "fb");
    assert_eq!(cascade_resolve_target_resolution(tag, r#"{"resolution":"480p"}"#), "1080p");
    assert_eq!(cascade_resolve_target_resolution("{}", r#"{"resolution":"480P"}"#), "480p");
    assert_eq!(cascade_resolve_target_resolution("{}", "{}"), "720p");
}

#[test]
fn stage_numbers() {
    assert_eq!(cascade_stage_num(false, r#"{"stage2":{}}"#), 0);
    assert_eq!(cascade_stage_num(true, r#"{"stage2":{}}"#), 2);
    assert_eq!(cascade_stage_num(true, r#"{"stage1":{}}"#), 1);
    assert!(cascade_is_combined_resp(r#"{"stage1":1,"stage2":2}"#));
    assert!(!cascade_is_combined_resp(r#"{"stage1":1}"#));
}

fn rule(bt: &str, ext: &str, tiers: &str) -> BillingRule {
    BillingRule {
        billing_type: bt.to_string(),
        extended_config: ext.to_string(),
        pricing_tiers: tiers.to_string(),
    }
}

fn sorted(v: Option<Vec<String>>) -> Option<Vec<String>> {
    v.map(|mut x| {
        x.sort();
        x.dedup();
        x
    })
}

#[test]
fn billing_requests_and_empty_rules_price_no_resolution() {
    assert_eq!(cascade_billing_enabled_resolutions(&rule("Requests", r#"{"resolution_rates":{"720p":1}}"#, ""), ""), None);
    assert_eq!(cascade_billing_enabled_resolutions(&rule("tokens", "{}", "[]"), ""), None);
    assert_eq!(cascade_billing_enabled_resolutions(&rule("tokens", r#"{"other":1}"#, ""), ""), None);
}

#[test]
fn billing_resolution_rates_and_price_table() {
    let ext = r#"{"resolution_rates":{"720P":1,"bogus":2},"price_table":{"standard|1080p":1,"fast|480p":1,"audio|2k":1,"x|y|z":1},"price_table_disabled":["AUDIO|2K"]}"#;
    let r = sorted(cascade_billing_enabled_resolutions(&rule("tokens", ext, ""), "standard"));
    assert_eq!(r, Some(vec!["1080p".to_string(), "720p".to_string()]));
    let any = sorted(cascade_billing_enabled_resolutions(&rule("tokens", ext, ""), ""));
    assert_eq!(any, Some(vec!["1080p".to_string(), "480p".to_string(), "720p".to_string()]));
}

#[test]
fn billing_pricing_tiers() {
    let tiers = r#"[{"resolution":" 720P "},{"resolution":"1080p","enabled":false},{"resolution":"bad"}]"#;
    let r = sorted(cascade_billing_enabled_resolutions(&rule("tokens", "", tiers), ""));
    assert_eq!(r, Some(vec!["720p".to_string()]));
    let only_disabled = r#"[{"resolution":"1080p","enabled":false}]"#;
    assert_eq!(cascade_billing_enabled_resolutions(&rule("tokens", "", only_disabled), ""), Some(vec![]));
}

#[test]
fn check_resolution_errors_and_passes() {
    assert!(cascade_check_resolution(None, "", "8k").is_ok());
    let priced = rule("tokens", r#"{"resolution_rates":{"720p":1}}"#, "");
    assert!(cascade_check_resolution(Some(&priced), "", " 720P ").is_ok());
    match cascade_check_resolution(Some(&priced), "", " 1080p ") {
        Err(AppError::BadRequest(m)) => assert_eq!(m, "当前分辨率 1080p 不支持"),
        _ => panic!("expected a bad request"),
    }
    let unpriced = rule("tokens", r#"{"other":1}"#, "");
    assert!(cascade_check_resolution(Some(&unpriced), "", "1080p").is_ok());
}
