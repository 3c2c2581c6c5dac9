use serde_json::Value;
use tokensbyte::json_tree::JsonValue;
use tokensbyte::marketplace::marketplace_models;
use tokensbyte::portal_config::nav_with_site_logo;

fn j(s: &str) -> Value {
    serde_json::from_str(s).unwrap()
}

fn tree(v: &Value) -> JsonValue {
    match v {
        Value::Null => JsonValue::Null,
        Value::Bool(b) => JsonValue::Bool(*b),
        Value::Number(n) => JsonValue::Number(n.to_string()),
        Value::String(s) => JsonValue::Str(s.clone()),
        Value::Array(a) => JsonValue::Array(a.iter().map(tree).collect()),
        Value::Object(m) => JsonValue::Object(m.iter().map(|(k, v)| (k.clone(), tree(v))).collect()),
    }
}

fn value(t: &JsonValue) -> Value {
    match t {
        JsonValue::Null => Value::Null,
        JsonValue::Bool(b) => Value::Bool(*b),
        JsonValue::Number(n) => serde_json::from_str(n).unwrap(),
        JsonValue::Str(s) => Value::String(s.clone()),
        JsonValue::Array(a) => Value::Array(a.iter().map(value).collect()),
        JsonValue::Object(m) => Value::Object(m.iter().map(|(k, v)| (k.clone(), value(v))).collect()),
    }
}

fn listing(models: &[&str], confs: &[Option<&str>], blacklist: bool) -> Value {
    let ms: Vec<JsonValue> = models.iter().map(|m| tree(&j(m))).collect();
    let cs: Vec<Option<JsonValue>> = confs.iter().map(|c| c.map(|x| tree(&j(x)))).collect();
    Value::Array(marketplace_models(&ms, &cs, blacklist).iter().map(value).collect())
}

const M1: &str = r#"{"id":3,"model_id":"gpt","original_id":"","type_name":"聊天","description":"d1","sort_order":0}"#;
const M2: &str = r#"{"id":2,"model_id":"gpt-alt","original_id":"gpt","type_name":"聊天","description":null,"sort_order":0}"#;
const M3: &str = r#"{"id":1,"model_id":"img","original_id":"","type_name":"图片","description":"x","sort_order":0}"#;

#[test]
fn variants_grouped_after_ordering() {
    let out = listing(
        &[M1, M2, M3],
        &[None, Some(r#"{"sort_order":5,"description":"custom"}"#), Some(r#"{"enabled":false}"#)],
        true,
    );
    let m2 = j(r#"{"id":2,"model_id":"gpt-alt","original_id":"gpt","type_name":"聊天","description":"custom","sort_order":5}"#);
    let m1 = j(M1);
    let mut group = m2.clone();
    group["variant_count"] = Value::from(2);
    group["variants"] = Value::Array(vec![m2, m1]);
    group["model_id"] = Value::from("gpt");
    assert_eq!(out, Value::Array(vec![group]));
}

#[test]
fn whitelist_and_stable_order() {
    let m4 = r#"{"id":0,"model_id":"tts","original_id":"","type_name":"音频","description":"","sort_order":0}"#;
    // whitelist: only switched-on models; equal orders keep their order
    let out = listing(
        &[M3, M1, m4],
        &[Some(r#"{"enabled":true}"#), None, Some(r#"{"enabled":true,"sort_order":"9"}"#)],
        false,
    );
    let ids: Vec<Value> = out.as_array().unwrap().iter().map(|g| g["id"].clone()).collect();
    assert_eq!(ids, vec![j("1"), j("0")]);
    assert_eq!(out[0]["variant_count"], j("1"));
    assert_eq!(out[1]["model_id"], j("\"tts\""));
    assert_eq!(listing(&[], &[], true), j("[]"));
    // a higher order comes first
    let out = listing(&[M3, M1], &[Some(r#"{"sort_order":-2}"#), Some(r#"{"sort_order":1}"#)], true);
    let ids: Vec<Value> = out.as_array().unwrap().iter().map(|g| g["id"].clone()).collect();
    assert_eq!(ids, vec![j("3"), j("1")]);
    assert_eq!(out[1]["sort_order"], j("-2"));
}

#[test]
fn site_logo_fills_navigation() {
    let nav = nav_with_site_logo(tree(&j(r#"{"logo_url":"","x":1}"#)), "/logo.png");
    assert_eq!(value(&nav), j(r#"{"logo_url":"/logo.png","x":1}"#));
    let nav = nav_with_site_logo(tree(&j(r#"{"logo_url":"/own.png"}"#)), "/logo.png");
    assert_eq!(value(&nav), j(r#"{"logo_url":"/own.png"}"#));
    let nav = nav_with_site_logo(tree(&j(r#"{"x":1}"#)), "");
    assert_eq!(value(&nav), j(r#"{"x":1}"#));
    let nav = nav_with_site_logo(tree(&j(r#"{"x":1}"#)), "/l");
    assert_eq!(value(&nav), j(r#"{"x":1,"logo_url":"/l"}"#));
    assert_eq!(value(&nav_with_site_logo(tree(&j("[1]")), "/l")), j("[1]"));
}
