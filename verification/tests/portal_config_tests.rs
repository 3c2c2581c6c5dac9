use serde_json::Value;
use tokensbyte::errors::AppError;
use tokensbyte::json_tree::JsonValue;
use tokensbyte::portal_config::{
    default_portal_footer_config, default_portal_nav_config, merge_portal_defaults, portal_footer_config,
    portal_nav_config, portal_section_update, rewrite_whatstoken_brand,
};

fn j(s: &str) -> Value {
    serde_json::from_str(s).unwrap()
}

fn tree(v: &Value) -> JsonValue {
    match v {
        Value::Null => JsonValue::Null,
        Value::Bool(b) => JsonValue::Bool(*b),
        Value::Number(n) => JsonValue::Number(n.to_string()),
        Value::String(s) => JsonValue::Str(s.clone()),
        Value::Array(a) => JsonValue::Array(a.iter().map(tree).collect()),
        Value::Object(m) => JsonValue::Object(m.iter().map(|(k, v)| (k.clone(), tree(v))).collect()),
    }
}

fn value(t: &JsonValue) -> Value {
    match t {
        JsonValue::Null => Value::Null,
        JsonValue::Bool(b) => Value::Bool(*b),
        JsonValue::Number(n) => serde_json::from_str(n).unwrap(),
        JsonValue::Str(s) => Value::String(s.clone()),
        JsonValue::Array(a) => Value::Array(a.iter().map(value).collect()),
        JsonValue::Object(m) => Value::Object(m.iter().map(|(k, v)| (k.clone(), value(v))).collect()),
    }
}

#[test]
fn nav_defaults_when_nothing_saved() {
    let nav = value(&portal_nav_config(None));
    assert_eq!(nav, value(&default_portal_nav_config()));
    assert_eq!(nav["logo_text"], "TokensByte");
    assert_eq!(nav["items"].as_array().unwrap().len(), 5);
    assert_eq!(nav["items"][4]["path"], "/home/models");
}

#[test]
fn legacy_nav_gets_section_entries_and_brand() {
    let saved = j(r#"{"logo_text":"WhatsToken AI","items":[{"key":"home","label":"Home"},{"key":"about"}],"cta_link":"/signin"}"#);
    let nav = value(&portal_nav_config(Some(tree(&saved))));
    assert_eq!(nav["logo_text"], "TokensByte");
    assert_eq!(nav["items"][0]["key"], "features");
    assert_eq!(nav["cta_link"], "/signin");
    assert_eq!(nav["register_link"], "/register");
    let custom = j(r#"{"logo_text":"Mine","items":[{"key":"home"},{"key":"pricing"}]}"#);
    let nav2 = value(&portal_nav_config(Some(tree(&custom))));
    assert_eq!(nav2["items"].as_array().unwrap().len(), 2);
    assert_eq!(nav2["logo_text"], "Mine");
}

#[test]
fn legacy_footer_keeps_its_texts() {
    let saved = j(r#"{"copyright":"© WhatsToken AI","description":"","icp_number":"ICP-1"}"#);
    let f = value(&portal_footer_config(Some(tree(&saved))));
    assert_eq!(f["copyright"], "© TokensByte");
    assert_eq!(f["icp_number"], "ICP-1");
    assert_eq!(f["brand_name"], "TokensByte");
    assert!(f["description"].as_str().unwrap().starts_with("TokensByte 是一个开源"));
    let current = j(r#"{"brand_name":"B","links":[]}"#);
    let g = value(&portal_footer_config(Some(tree(&current))));
    assert_eq!(g["brand_name"], "B");
    assert_eq!(g["links"], j(r#"[]"#));
    assert_eq!(g["terms_link"], "/legal/terms");
    assert_eq!(value(&portal_footer_config(None)), value(&default_portal_footer_config()));
}

#[test]
fn brand_rewrite_and_merge_helpers() {
    let mut v = tree(&j(r#"{"a":["WhatsToken AI"]}"#));
    rewrite_whatstoken_brand(&mut v);
    assert_eq!(value(&v), j(r#"{"a":["TokensByte"]}"#));
    let mut w = tree(&j(r#"{"x":1}"#));
    merge_portal_defaults(&mut w, &tree(&j(r#"{"x":2,"y":3}"#)));
    assert_eq!(value(&w), j(r#"{"x":1,"y":3}"#));
}

fn saved(section: &str, data: &str, style: Option<&str>, columns: Option<&str>) -> (String, Value) {
    let r = portal_section_update(section, tree(&j(data)), style.map(|x| tree(&j(x))), columns.map(|x| tree(&j(x))));
    match r {
        Ok((k, v)) => (k, value(&v)),
        Err(_) => panic!("refused"),
    }
}

#[test]
fn portal_sections_saved() {
    assert_eq!(saved("nav", r#"{"a":1}"#, None, None), ("nav_config".to_string(), j(r#"{"a":1}"#)));
    assert_eq!(saved("scripts", r#"{"analytics":""}"#, None, None).0, "custom_scripts");
    assert_eq!(saved("seo", "{}", None, None).0, "seo_config");
    assert_eq!(saved("static_gen", "{}", None, None).0, "static_gen_config");
    assert_eq!(saved("custom_homepage", "{}", None, None).0, "custom_homepage");
    assert_eq!(saved("columns", "[1]", None, None), ("columns_config".to_string(), j("[1]")));
    assert_eq!(
        saved("style", r#"{"current_style":"neo"}"#, None, None),
        ("style_config".to_string(), j(r#"{"current_style":"neo","apply_to_homepage":true}"#))
    );
    assert_eq!(
        saved("style", r#"{"x":2}"#, Some(r#"{"current_style":"a","x":1}"#), None).1,
        j(r#"{"current_style":"a","x":2}"#)
    );
    assert_eq!(saved("style", "[1]", Some(r#"{"a":1}"#), None).1, j(r#"{"a":1}"#));
    assert_eq!(
        saved("about", r#"{"title":"A"}"#, None, None).1,
        j(r#"{"models":{"title":"模型数据","path":"models","enabled":true},"contact":{"title":"联系我们","path":"contact","enabled":true},"about":{"title":"A"}}"#)
    );
    assert_eq!(saved("contact", "1", None, Some("null")).1, j(r#"{"contact":1}"#));
    assert_eq!(saved("contact", "1", None, Some(r#"{"x":0}"#)).1, j(r#"{"x":0,"contact":1}"#));
    match portal_section_update("bogus", JsonValue::Null, None, None) {
        Err(AppError::BadRequest(m)) => assert_eq!(m, "未知配置区域: bogus"),
        _ => panic!("expected a bad request"),
    }
}
