use tokensbyte::catalog::{source_filter_sql, source_join_predicate};

#[test]
fn source_filter_sql_only_known_values() {
    assert_eq!(source_filter_sql(None), "");
    assert_eq!(source_filter_sql(Some("all")), "");
    assert_eq!(source_filter_sql(Some("system")), " AND is_system = 1");
    assert_eq!(source_filter_sql(Some("custom")), " AND is_system = 0");
    assert_eq!(source_filter_sql(Some("'; drop table models --")), "");
    assert_eq!(source_join_predicate(Some("system")), Some("m.is_system = 1"));
    assert_eq!(source_join_predicate(Some("custom")), Some("m.is_system = 0"));
    assert_eq!(source_join_predicate(Some("all")), None);
    assert_eq!(source_join_predicate(None), None);
}
