use tokensbyte::errors::AppError;
use tokensbyte::kyc::{
    empty_to_none, kyc_document_key, kyc_document_type_ok, normalize_id_doc_type, KYC_DOC_MAX_BYTES, normalize_kyc_status, normalize_kyc_type,
    normalize_validity_type, validate_payload, UserKyc, VERIFICATION_CODE_EXPIRY_MINUTES,
};

#[test]
fn empty_record_defaults() {
    let k = UserKyc::empty_for("u1");
    assert_eq!(k.id, 0);
    assert_eq!(k.user_id, "u1");
    assert_eq!(k.kyc_type, "personal");
    assert_eq!(k.status, "none");
    assert_eq!(k.validity_type, "long_term");
    assert!(k.real_name.is_none());
    assert_eq!(VERIFICATION_CODE_EXPIRY_MINUTES, 5);
}

#[test]
fn normalizers_trim_and_pick() {
    assert_eq!(normalize_kyc_type(" enterprise "), Some("enterprise"));
    assert_eq!(normalize_kyc_type("Personal"), None);
    assert_eq!(normalize_kyc_status("approved"), Some("approved"));
    assert_eq!(normalize_kyc_status("done"), None);
    assert_eq!(normalize_id_doc_type("passport"), Some("passport"));
    assert_eq!(normalize_id_doc_type(""), None);
    assert_eq!(normalize_validity_type("expire_date"), Some("expire_date"));
    assert_eq!(normalize_validity_type("forever"), None);
}

#[test]
fn empty_fields_become_none() {
    assert_eq!(empty_to_none("  ".to_string()), None);
    assert_eq!(empty_to_none(" Zhang ".to_string()), Some("Zhang".to_string()));
}

fn bad(r: Result<(), AppError>) -> String {
    match r {
        Err(AppError::BadRequest(m)) => m,
        _ => panic!("expected a bad request"),
    }
}

#[test]
fn payload_only_checked_on_submit() {
    assert!(validate_payload("x", None, None, None, None, None, None, None, None, false).is_ok());
}

#[test]
fn personal_payload_errors() {
    assert_eq!(bad(validate_payload("personal", None, Some(" "), None, None, None, None, None, None, true)), "请填写真实姓名");
    assert_eq!(bad(validate_payload("personal", None, Some("Li"), None, None, None, None, None, None, true)), "请选择证件类型（身份证/护照/驾照）");
    assert_eq!(bad(validate_payload("personal", Some("passport"), Some("Li"), None, None, None, None, None, None, true)), "请上传证件正面/主页照片");
    assert_eq!(bad(validate_payload("personal", Some("id_card"), Some("Li"), None, Some("f"), Some(""), None, None, None, true)), "身份证请上传正反面照片");
    assert!(validate_payload("personal", Some("passport"), Some("Li"), None, Some("f"), None, None, None, None, true).is_ok());
    assert!(validate_payload("personal", Some("id_card"), Some("Li"), None, Some("f"), Some("b"), None, None, None, true).is_ok());
}

#[test]
fn enterprise_payload_errors() {
    assert_eq!(bad(validate_payload("enterprise", None, None, None, None, None, None, None, None, true)), "请填写企业名称");
    assert_eq!(bad(validate_payload("enterprise", None, None, Some("Co"), None, None, None, None, None, true)), "请上传营业执照");
    assert_eq!(bad(validate_payload("enterprise", None, None, Some("Co"), None, None, Some("l"), None, None, true)), "请上传税务登记证");
    assert_eq!(bad(validate_payload("enterprise", None, None, Some("Co"), None, None, Some("l"), Some("t"), Some(" "), true)), "请上传企业法务公证材料");
    assert!(validate_payload("enterprise", None, None, Some("Co"), None, None, Some("l"), Some("t"), Some("n"), true).is_ok());
    assert_eq!(bad(validate_payload("robot", None, None, None, None, None, None, None, None, true)), "无效的实名类型");
}

use tokensbyte::kyc::{kyc_draft, kyc_review, UpsertUserKycRequest};

fn blank_request() -> UpsertUserKycRequest {
    UpsertUserKycRequest {
        kyc_type: None,
        status: None,
        real_name: None,
        id_doc_type: None,
        id_doc_front_url: None,
        id_doc_back_url: None,
        company_name: None,
        business_license_url: None,
        tax_registration_url: None,
        legal_notarization_url: None,
        validity_type: None,
        expire_at: None,
        reject_reason: None,
        admin_remark: None,
    }
}

fn bad_draft<T>(r: Result<T, AppError>) -> String {
    match r {
        Err(AppError::BadRequest(m)) => m,
        _ => panic!("expected a bad request"),
    }
}

#[test]
fn draft_rejects_bad_enumerations() {
    let k = UserKyc::empty_for("u1");
    let mut req = blank_request();
    req.kyc_type = Some("robot".to_string());
    assert_eq!(bad_draft(kyc_draft(&k, &req)), "实名类型仅支持个人或企业");
    let mut req = blank_request();
    req.validity_type = Some("forever".to_string());
    assert_eq!(bad_draft(kyc_draft(&k, &req)), "有效期类型无效");
    let mut req = blank_request();
    req.id_doc_type = Some("visa".to_string());
    assert_eq!(bad_draft(kyc_draft(&k, &req)), "证件类型无效");
    let mut req = blank_request();
    req.validity_type = Some("expire_date".to_string());
    assert_eq!(bad_draft(kyc_draft(&k, &req)), "证件有效期模式下请填写到期日期");
}

#[test]
fn draft_applies_fields_and_expiry() {
    let mut k = UserKyc::empty_for("u1");
    k.company_name = Some("Old Co".to_string());
    let mut req = blank_request();
    req.kyc_type = Some(" enterprise ".to_string());
    req.real_name = Some("  Li  ".to_string());
    req.id_doc_front_url = Some("   ".to_string());
    req.validity_type = Some("expire_date".to_string());
    req.expire_at = Some(" 2030-01-31 ".to_string());
    req.id_doc_type = Some("".to_string());
    let d = kyc_draft(&k, &req).ok().unwrap();
    assert_eq!(d.kyc_type, "enterprise");
    assert_eq!(d.validity_type, "expire_date");
    assert_eq!(d.real_name.as_deref(), Some("Li"));
    assert_eq!(d.id_doc_front_url, None);
    assert_eq!(d.company_name.as_deref(), Some("Old Co"));
    assert_eq!(d.id_doc_type, None);
    assert_eq!(d.expire_at.as_deref(), Some("2030-01-31T23:59:59.000Z"));
    assert!(d.expire_needs_check);

    let mut req = blank_request();
    req.validity_type = Some("long_term".to_string());
    req.expire_at = Some("2030-01-31".to_string());
    let d = kyc_draft(&k, &req).ok().unwrap();
    assert_eq!(d.expire_at, None);
    assert!(!d.expire_needs_check);
}

#[test]
fn user_submission_goes_pending_or_is_refused() {
    let k = UserKyc::empty_for("u1");
    let mut req = blank_request();
    req.real_name = Some("Li".to_string());
    let d = kyc_draft(&k, &req).ok().unwrap();
    assert_eq!(bad_draft(kyc_review(&k, &req, d, false, None, "t1")), "请选择证件类型（身份证/护照/驾照）");

    req.id_doc_type = Some("passport".to_string());
    req.id_doc_front_url = Some("f".to_string());
    let d = kyc_draft(&k, &req).ok().unwrap();
    let saved = kyc_review(&k, &req, d, false, Some("admin"), "t1").ok().unwrap();
    assert_eq!(saved.status, "pending");
    assert_eq!(saved.submitted_at.as_deref(), Some("t1"));
    assert_eq!(saved.reviewed_by, None);
    assert_eq!(saved.real_name.as_deref(), Some("Li"));
    assert_eq!(saved.user_id, "u1");
}

#[test]
fn admin_decision_sets_status_and_operator() {
    let k = UserKyc::empty_for("u1");
    let mut req = blank_request();
    req.status = Some("rejected".to_string());
    req.reject_reason = Some(" blurry ".to_string());
    let d = kyc_draft(&k, &req).ok().unwrap();
    let saved = kyc_review(&k, &req, d, true, Some("root"), "t2").ok().unwrap();
    assert_eq!(saved.status, "rejected");
    assert_eq!(saved.reject_reason.as_deref(), Some("blurry"));
    assert_eq!(saved.reviewed_by.as_deref(), Some("root"));
    assert_eq!(saved.reviewed_at.as_deref(), Some("t2"));
    assert_eq!(saved.submitted_at.as_deref(), Some("t2"));

    // approving an empty record needs a complete payload
    let req = blank_request();
    let d = kyc_draft(&k, &req).ok().unwrap();
    assert_eq!(bad_draft(kyc_review(&k, &req, d, true, Some("root"), "t3")), "请填写真实姓名");

    let mut req = blank_request();
    req.status = Some("done".to_string());
    let d = kyc_draft(&k, &req).ok().unwrap();
    assert_eq!(bad_draft(kyc_review(&k, &req, d, true, None, "t4")), "实名状态无效");
}

#[test]
fn identity_document_keys() {
    assert!(kyc_document_type_ok("image/png"));
    assert!(kyc_document_type_ok("application/pdf"));
    assert!(!kyc_document_type_ok("text/plain"));
    assert_eq!(KYC_DOC_MAX_BYTES, 12 * 1024 * 1024);
    assert_eq!(kyc_document_key("u1", "id_front", "scan.PNG", "image/png", 1700000000000), "kyc/u1/id_front_1700000000000.PNG");
    // no dot: the whole (short) name is the extension
    assert_eq!(kyc_document_key("u1", "", "document", "image/png", 5), "kyc/u1/doc_5.document");
    // a long extension falls back by type
    assert_eq!(kyc_document_key("u1", "a b/c!", "x.verylongext", "application/pdf", 5), "kyc/u1/abc_5.pdf");
    assert_eq!(kyc_document_key("u1", "f", "x.verylongext", "image/jpeg", 5), "kyc/u1/f_5.jpg");
    let long_field = "a".repeat(50);
    assert_eq!(kyc_document_key("u", &long_field, "p.pdf", "application/pdf", 1), format!("kyc/u/{}_1.pdf", "a".repeat(40)));
    // the name is cut to 120 characters before its extension is taken
    let long_name = format!("{}.pdf", "n".repeat(130));
    assert_eq!(kyc_document_key("u", "f", &long_name, "image/png", 1), "kyc/u/f_1.jpg");
}
