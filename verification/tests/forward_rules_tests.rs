use tokensbyte::errors::AppError;
use tokensbyte::forward_rules::{prepare_new_rule, rule_name_update};

#[test]
fn new_rules_are_completed() {
    let r = prepare_new_rule("  My Rule ", " chat ", None, None, None, None, 42).ok().unwrap();
    assert_eq!(r.name, "My Rule");
    assert_eq!(r.rule_type, "chat");
    assert_eq!(r.category, "聊天");
    assert_eq!(r.config_json, "{}");
    assert_eq!(r.eid, "10042");
    assert_eq!(r.sort_order, 0);
    let r = prepare_new_rule("a", "b", Some("图片".to_string()), Some("{\"x\":1}".to_string()), Some(String::new()), Some(7), 9999)
        .ok()
        .unwrap();
    assert_eq!((r.category.as_str(), r.config_json.as_str(), r.eid.as_str(), r.sort_order), ("图片", "{\"x\":1}", "19999", 7));
    let r = prepare_new_rule("a", "b", None, None, Some("e-1".to_string()), None, 0).ok().unwrap();
    assert_eq!(r.eid, "e-1");
    match prepare_new_rule("  ", "b", None, None, None, None, 0) {
        Err(AppError::BadRequest(m)) => assert_eq!(m, "规则名和类型不能为空"),
        _ => panic!("expected a bad request"),
    }
}

#[test]
fn rule_renames() {
    assert!(matches!(rule_name_update(None), Ok(None)));
    assert!(matches!(rule_name_update(Some(" x ")), Ok(Some(ref n)) if n == "x"));
    assert!(matches!(rule_name_update(Some("  ")), Err(AppError::BadRequest(ref m)) if m == "规则名称不能为空"));
}
