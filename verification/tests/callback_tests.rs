use tokensbyte::callback::{cb_from_plugin_tag, extract_client_callback_url, infer_base_url, system_callback_url};

#[test]
fn callback_urls_from_json() {
    assert_eq!(
        extract_client_callback_url(r#"{"callback_url":"  https://c.example/cb  "}"#),
        Some("https://c.example/cb".to_string())
    );
    assert_eq!(extract_client_callback_url(r#"{"callback_url":"   "}"#), None);
    assert_eq!(extract_client_callback_url("nope"), None);
    assert_eq!(cb_from_plugin_tag(r#"{"cb":"https://x/y"}"#), Some("https://x/y".to_string()));
    assert_eq!(cb_from_plugin_tag("{}"), None);
}

#[test]
fn base_url_precedence() {
    assert_eq!(infer_base_url(Some("https://api.site/"), Some("https://o"), None, None, None), "https://api.site");
    assert_eq!(infer_base_url(Some(""), Some("https://front.site"), None, None, None), "https://front.site");
    assert_eq!(infer_base_url(None, Some("null"), None, Some(Some("localhost:8080")), None), "http://localhost:8080");
    assert_eq!(infer_base_url(None, None, Some(Some("edge.site")), Some(Some("inner")), None), "https://edge.site");
    assert_eq!(infer_base_url(None, None, Some(Some("edge.site")), None, Some("http")), "http://edge.site");
    assert_eq!(infer_base_url(None, None, Some(None), Some(Some("inner")), None), "http://localhost:3000");
    assert_eq!(infer_base_url(None, None, None, None, None), "http://localhost:3000");
}

#[test]
fn system_callback() {
    assert_eq!(
        system_callback_url(42, "https://api.site"),
        "https://api.site/api/v1/relay/vendor-callback/42"
    );
    assert_eq!(system_callback_url(-1, ""), "/api/v1/relay/vendor-callback/-1");
}

use tokensbyte::callback::{rewrite_upstream_callback, stash_cb_in_plugin_tag};

#[test]
fn callback_is_pointed_at_the_system() {
    assert_eq!(
        rewrite_upstream_callback(r#"{"callback_url":" http://c "}"#, "https://sys/cb"),
        r#"{"callback_url":"https://sys/cb"}"#
    );
    assert_eq!(rewrite_upstream_callback(r#"{"callback_url":"  "}"#, "https://sys/cb"), r#"{"callback_url":"  "}"#);
    assert_eq!(rewrite_upstream_callback(r#"{"x":1}"#, "s"), r#"{"x":1}"#);
}

#[test]
fn stashed_callback_reads_back() {
    let tag = stash_cb_in_plugin_tag("{}", " https://c ");
    assert_eq!(tag, r#"{"cb":" https://c "}"#);
    assert_eq!(cb_from_plugin_tag(&tag).as_deref(), Some("https://c"));
    assert_eq!(stash_cb_in_plugin_tag("null", "u"), r#"{"cb":"u"}"#);
}
