use tokensbyte::catalog::{
    default_status, default_unlimited, default_weight, resolve_api_key, sanitize_sync_interval,
    sanitize_upstream_group, MAX_SYNC_INTERVAL_MINUTES,
};
use tokensbyte::forward_rules::{required_plugin_for_forward_rule, should_hide_plugin_gated_rule};

#[test]
fn channel_config_inputs() {
    assert_eq!(sanitize_sync_interval(-5), 0);
    assert_eq!(sanitize_sync_interval(30), 30);
    assert_eq!(sanitize_sync_interval(MAX_SYNC_INTERVAL_MINUTES + 1), MAX_SYNC_INTERVAL_MINUTES);
    assert_eq!(sanitize_upstream_group("  vip "), "vip");
    assert_eq!(resolve_api_key(Some(" sk-new "), "sk-old"), "sk-new");
    assert_eq!(resolve_api_key(Some("sk-******abcd"), "sk-old"), "sk-old");
    assert_eq!(resolve_api_key(Some("  "), "sk-old"), "sk-old");
    assert_eq!(resolve_api_key(None, "sk-old"), "sk-old");
    assert_eq!(default_weight(), 1);
    assert_eq!(default_status(), 1);
    assert_eq!(default_unlimited(), -1);
}

#[test]
fn plugin_gated_rules() {
    assert_eq!(required_plugin_for_forward_rule("火山方舟 级联视频生成", "{}"), Some("volcengine_enhance"));
    assert_eq!(required_plugin_for_forward_rule("自定义", r#"{"asset_convert_ns":"asset_manager_intl"}"#), Some("asset_manager_intl"));
    assert_eq!(required_plugin_for_forward_rule("自定义", r#"{"asset_convert_ns":"other"}"#), None);
    let avail = [("volcengine_enhance", true), ("asset_manager", false)];
    assert!(!should_hide_plugin_gated_rule("火山方舟 级联视频生成", "{}", &avail));
    assert!(should_hide_plugin_gated_rule("火山方舟 视频素材转换", "{}", &avail));
    assert!(should_hide_plugin_gated_rule("火山方舟 视频素材转换(国际版)", "{}", &avail));
    assert!(!should_hide_plugin_gated_rule("自定义", "{}", &avail));
}
