use serde_json::Value;
use tokensbyte::json_tree::{merge_defaults, patch_fields, replace_exact_string, replace_in_strings, JsonValue};

fn j(s: &str) -> Value {
    serde_json::from_str(s).unwrap()
}

fn tree(v: &Value) -> JsonValue {
    match v {
        Value::Null => JsonValue::Null,
        Value::Bool(b) => JsonValue::Bool(*b),
        Value::Number(n) => JsonValue::Number(n.to_string()),
        Value::String(s) => JsonValue::Str(s.clone()),
        Value::Array(a) => JsonValue::Array(a.iter().map(tree).collect()),
        Value::Object(m) => JsonValue::Object(m.iter().map(|(k, v)| (k.clone(), tree(v))).collect()),
    }
}

fn value(t: &JsonValue) -> Value {
    match t {
        JsonValue::Null => Value::Null,
        JsonValue::Bool(b) => Value::Bool(*b),
        JsonValue::Number(n) => serde_json::from_str(n).unwrap(),
        JsonValue::Str(s) => Value::String(s.clone()),
        JsonValue::Array(a) => Value::Array(a.iter().map(value).collect()),
        JsonValue::Object(m) => Value::Object(m.iter().map(|(k, v)| (k.clone(), value(v))).collect()),
    }
}

fn parse(s: &str) -> JsonValue {
    tree(&serde_json::from_str(s).unwrap())
}

#[test]
fn members_read_set_and_remove() {
    let mut v = parse(r#"{"a":1,"b":"x"}"#);
    assert_eq!(v.get("b").and_then(|x| x.as_str()), Some("x"));
    assert!(v.get("c").is_none());
    assert!(parse("[1]").get("a").is_none());
    v.insert_member("a", JsonValue::Str("y".to_string()));
    v.insert_member("c", JsonValue::Bool(true));
    assert_eq!(value(&v), j(r#"{"a":"y","b":"x","c":true}"#));
    assert!(v.remove_member("b"));
    assert!(!v.remove_member("b"));
    assert_eq!(value(&v), j(r#"{"a":"y","c":true}"#));
    let mut s = JsonValue::Str("z".to_string());
    s.insert_member("k", JsonValue::Null);
    assert_eq!(s, JsonValue::Str("z".to_string()));
}

#[test]
fn defaults_fill_only_missing_members() {
    let mut v = parse(r#"{"a":1}"#);
    merge_defaults(&mut v, &parse(r#"{"a":2,"b":[3]}"#));
    assert_eq!(value(&v), j(r#"{"a":1,"b":[3]}"#));
    let mut arr = parse("[1]");
    merge_defaults(&mut arr, &parse(r#"{"a":2}"#));
    assert_eq!(value(&arr), j(r#"[1]"#));
}

#[test]
fn strings_rewritten_at_every_depth() {
    let v = parse(r#"{"t":"WhatsToken AI rocks","l":[{"x":"by WhatsToken AI"}],"n":5}"#);
    let r = replace_in_strings(&v, "WhatsToken AI", "TokensByte");
    assert_eq!(value(&r), j(r#"{"t":"TokensByte rocks","l":[{"x":"by TokensByte"}],"n":5}"#));
}

#[test]
fn field_patches_touch_existing_fields_only() {
    let v = parse(r#"{"resolution":"480p","fps":24,"content":{"video_url":"a","fps":"x"},"list":[{"resolution":"720p"}]}"#);
    let r = patch_fields(&v, &[("resolution", "1080p"), ("video_url", "b")], &[("fps", 60), ("framespersecond", 60)]);
    assert_eq!(
        value(&r),
        j(r#"{"resolution":"1080p","fps":60,"content":{"video_url":"b","fps":"x"},"list":[{"resolution":"1080p"}]}"#)
    );
}

#[test]
fn exact_strings_replaced() {
    let v = parse(r#"{"u":"http://a","v":["http://a","http://a/x"]}"#);
    let r = replace_exact_string(&v, "http://a", "http://b");
    assert_eq!(value(&r), j(r#"{"u":"http://b","v":["http://b","http://a/x"]}"#));
}
