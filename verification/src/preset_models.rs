//! The models a fresh installation is seeded with, each bound to a
//! built-in billing rule and forward rule.
use vstd::prelude::*;

verus! {

/// Video models taking text or an image.
pub const VIDEO_IO: &'static str = r#"["文生视频","图生视频"]"#;

/// Video models also taking reference videos.
pub const VIDEO_REF: &'static str = r#"["文生视频","图生视频","参考生视频"]"#;

/// A preset model.  Its pre-deduction is a whole number of currency
/// units (every preset's is whole); the stored amount is that number.
#[derive(Debug, Clone, Copy, PartialEq, Eq)]
pub struct PresetModelDef {
    pub mid: &'static str,
    pub name: &'static str,
    pub model_id: &'static str,
    pub original_id: &'static str,
    pub model_id_alias: &'static str,
    pub provider_name: &'static str,
    pub model_type: &'static str,
    pub billing_rule_name: &'static str,
    pub forward_rule_name: &'static str,
    pub logo: &'static str,
    pub pre_deduction_units: u32,
    pub feature_attributes: &'static str,
}

/// The preset catalogue, in seeding order.
pub open spec fn preset_catalog_model() -> Seq<PresetModelDef> {
    seq![
        PresetModelDef {
            mid: "310001",
            name: "Doubao Seedance 2.0",
            model_id: "doubao-seedance-2-0",
            original_id: "doubao-seedance-2-0",
            model_id_alias: "doubao-seedance-2-0-260128",
            provider_name: "火山引擎",
            model_type: "视频",
            billing_rule_name: "Seedance2.0官方计费",
            forward_rule_name: "火山方舟 视频生成",
            logo: "doubao",
            pre_deduction_units: 30,
            feature_attributes: VIDEO_IO,
        },
        PresetModelDef {
            mid: "310002",
            name: "Doubao Seedance 2.0 Fast",
            model_id: "doubao-seedance-2-0-fast",
            original_id: "doubao-seedance-2-0-fast",
            model_id_alias: "doubao-seedance-2-0-fast-260128",
            provider_name: "火山引擎",
            model_type: "视频",
            billing_rule_name: "Seedance2.0Fast官方计费",
            forward_rule_name: "火山方舟 视频生成",
            logo: "doubao",
            pre_deduction_units: 30,
            feature_attributes: VIDEO_IO,
        },
        PresetModelDef {
            mid: "310003",
            name: "Doubao Seedance 2.5",
            model_id: "doubao-seedance-2-5",
            original_id: "doubao-seedance-2-5",
            model_id_alias: "",
            provider_name: "火山引擎",
            model_type: "视频",
            billing_rule_name: "Seedance2.5官方计费",
            forward_rule_name: "火山方舟 视频生成",
            logo: "doubao",
            pre_deduction_units: 50,
            feature_attributes: VIDEO_IO,
        },
        PresetModelDef {
            mid: "310004",
            name: "Kling V3",
            model_id: "kling-v3",
            original_id: "kling-v3",
            model_id_alias: "",
            provider_name: "可灵 AI",
            model_type: "视频",
            billing_rule_name: "可灵V3视频计费",
            forward_rule_name: "可灵视频 3.0（文/图·推荐）",
            logo: "kling",
            pre_deduction_units: 8,
            feature_attributes: VIDEO_IO,
        },
        PresetModelDef {
            mid: "310005",
            name: "Kling V3 Omni",
            model_id: "kling-v3-omni",
            original_id: "kling-v3-omni",
            model_id_alias: "",
            provider_name: "可灵 AI",
            model_type: "视频",
            billing_rule_name: "可灵V3-Omni视频计费",
            forward_rule_name: "可灵 Omni 视频 3.0（推荐）",
            logo: "kling",
            pre_deduction_units: 8,
            feature_attributes: VIDEO_REF,
        },
        PresetModelDef {
            mid: "310006",
            name: "Kling Video O1",
            model_id: "kling-video-o1",
            original_id: "kling-video-o1",
            model_id_alias: "",
            provider_name: "可灵 AI",
            model_type: "视频",
            billing_rule_name: "可灵Video-O1视频计费",
            forward_rule_name: "可灵 Omni 视频 (kling-v3-omni/video-o1)",
            logo: "kling",
            pre_deduction_units: 8,
            feature_attributes: VIDEO_REF,
        },
        PresetModelDef {
            mid: "310007",
            name: "Kling V2.1",
            model_id: "kling-v2-1",
            original_id: "kling-v2-1",
            model_id_alias: "",
            provider_name: "可灵 AI",
            model_type: "视频",
            billing_rule_name: "可灵视频官方计费",
            forward_rule_name: "可灵 视频生成 (文/图/多图)",
            logo: "kling",
            pre_deduction_units: 5,
            feature_attributes: VIDEO_IO,
        },
    ]
}

/// The preset catalogue (see [`preset_catalog_model`]); each entry names
/// the built-in billing and forward rule it is bound to.
pub fn preset_model_catalog() -> (r: Vec<PresetModelDef>)
    ensures
        r@ == preset_catalog_model(),
{
    let mut v: Vec<PresetModelDef> = Vec::new();
    v.push(
        PresetModelDef {
            mid: "310001",
            name: "Doubao Seedance 2.0",
            model_id: "doubao-seedance-2-0",
            original_id: "doubao-seedance-2-0",
            model_id_alias: "doubao-seedance-2-0-260128",
            provider_name: "火山引擎",
            model_type: "视频",
            billing_rule_name: "Seedance2.0官方计费",
            forward_rule_name: "火山方舟 视频生成",
            logo: "doubao",
            pre_deduction_units: 30,
            feature_attributes: VIDEO_IO,
        },
    );
    v.push(
        PresetModelDef {
            mid: "310002",
            name: "Doubao Seedance 2.0 Fast",
            model_id: "doubao-seedance-2-0-fast",
            original_id: "doubao-seedance-2-0-fast",
            model_id_alias: "doubao-seedance-2-0-fast-260128",
            provider_name: "火山引擎",
            model_type: "视频",
            billing_rule_name: "Seedance2.0Fast官方计费",
            forward_rule_name: "火山方舟 视频生成",
            logo: "doubao",
            pre_deduction_units: 30,
            feature_attributes: VIDEO_IO,
        },
    );
    v.push(
        PresetModelDef {
            mid: "310003",
            name: "Doubao Seedance 2.5",
            model_id: "doubao-seedance-2-5",
            original_id: "doubao-seedance-2-5",
            model_id_alias: "",
            provider_name: "火山引擎",
            model_type: "视频",
            billing_rule_name: "Seedance2.5官方计费",
            forward_rule_name: "火山方舟 视频生成",
            logo: "doubao",
            pre_deduction_units: 50,
            feature_attributes: VIDEO_IO,
        },
    );
    v.push(
        PresetModelDef {
            mid: "310004",
            name: "Kling V3",
            model_id: "kling-v3",
            original_id: "kling-v3",
            model_id_alias: "",
            provider_name: "可灵 AI",
            model_type: "视频",
            billing_rule_name: "可灵V3视频计费",
            forward_rule_name: "可灵视频 3.0（文/图·推荐）",
            logo: "kling",
            pre_deduction_units: 8,
            feature_attributes: VIDEO_IO,
        },
    );
    v.push(
        PresetModelDef {
            mid: "310005",
            name: "Kling V3 Omni",
            model_id: "kling-v3-omni",
            original_id: "kling-v3-omni",
            model_id_alias: "",
            provider_name: "可灵 AI",
            model_type: "视频",
            billing_rule_name: "可灵V3-Omni视频计费",
            forward_rule_name: "可灵 Omni 视频 3.0（推荐）",
            logo: "kling",
            pre_deduction_units: 8,
            feature_attributes: VIDEO_REF,
        },
    );
    v.push(
        PresetModelDef {
            mid: "310006",
            name: "Kling Video O1",
            model_id: "kling-video-o1",
            original_id: "kling-video-o1",
            model_id_alias: "",
            provider_name: "可灵 AI",
            model_type: "视频",
            billing_rule_name: "可灵Video-O1视频计费",
            forward_rule_name: "可灵 Omni 视频 (kling-v3-omni/video-o1)",
            logo: "kling",
            pre_deduction_units: 8,
            feature_attributes: VIDEO_REF,
        },
    );
    v.push(
        PresetModelDef {
            mid: "310007",
            name: "Kling V2.1",
            model_id: "kling-v2-1",
            original_id: "kling-v2-1",
            model_id_alias: "",
            provider_name: "可灵 AI",
            model_type: "视频",
            billing_rule_name: "可灵视频官方计费",
            forward_rule_name: "可灵 视频生成 (文/图/多图)",
            logo: "kling",
            pre_deduction_units: 5,
            feature_attributes: VIDEO_IO,
        },
    );
    assert(v@ =~= preset_catalog_model());
    v
}

} // verus!
