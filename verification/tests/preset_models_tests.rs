use tokensbyte::preset_models::{preset_model_catalog, VIDEO_IO, VIDEO_REF};

#[test]
fn preset_catalogue() {
    let c = preset_model_catalog();
    assert_eq!(c.len(), 7);
    assert_eq!(c[0].mid, "310001");
    assert_eq!(c[0].model_id_alias, "doubao-seedance-2-0-260128");
    assert_eq!(c[2].pre_deduction_units, 50);
    assert_eq!(c[4].feature_attributes, VIDEO_REF);
    assert_eq!(c[6].pre_deduction_units, 5);
    assert_eq!(c[6].feature_attributes, VIDEO_IO);
    assert!(c.iter().all(|d| d.model_type == "视频"));
    let mids: Vec<&str> = c.iter().map(|d| d.mid).collect();
    assert_eq!(mids, vec!["310001", "310002", "310003", "310004", "310005", "310006", "310007"]);
}
