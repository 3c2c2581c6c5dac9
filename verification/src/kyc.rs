//! User identity verification (KYC) records and the normalisation of the
//! enumerated fields a client submits, plus the verification-code record.
use vstd::prelude::*;
use crate::errors::AppError;
use crate::text::{
    chars_eq, chars_of, chars_rfind, contains, int_string, last_index, occurs_at, push_i64, slice_range, starts_with,
    str_eq, str_starts_with, string_append, string_from_chars, to_owned_string, trim, trim_str, trim_string,
};

verus! {

/// One identity-verification record per user.  Timestamps are carried as
/// their database text form.
pub struct UserKyc {
    pub id: i64,
    pub user_id: String,
    /// `personal` | `enterprise`
    pub kyc_type: String,
    /// `none` | `pending` | `approved` | `rejected` | `expired`
    pub status: String,
    pub real_name: Option<String>,
    /// `id_card` | `passport` | `driver_license`
    pub id_doc_type: Option<String>,
    pub id_doc_front_url: Option<String>,
    pub id_doc_back_url: Option<String>,
    pub company_name: Option<String>,
    pub business_license_url: Option<String>,
    pub tax_registration_url: Option<String>,
    pub legal_notarization_url: Option<String>,
    /// `long_term` | `expire_date`
    pub validity_type: String,
    pub expire_at: Option<String>,
    pub reject_reason: Option<String>,
    pub admin_remark: Option<String>,
    pub reviewed_by: Option<String>,
    pub reviewed_at: Option<String>,
    pub submitted_at: Option<String>,
    pub created_at: String,
    pub updated_at: String,
}

impl UserKyc {
    /// The record of a user who never submitted anything: personal, status
    /// `none`, long-term validity, every optional field empty.
    pub fn empty_for(user_id: &str) -> (r: Self)
        ensures
            r.id == 0,
            r.user_id@ == user_id@,
            r.kyc_type@ == "personal"@,
            r.status@ == "none"@,
            r.validity_type@ == "long_term"@,
            r.real_name is None,
            r.id_doc_type is None,
            r.id_doc_front_url is None,
            r.id_doc_back_url is None,
            r.company_name is None,
            r.business_license_url is None,
            r.tax_registration_url is None,
            r.legal_notarization_url is None,
            r.expire_at is None,
            r.reject_reason is None,
            r.admin_remark is None,
            r.reviewed_by is None,
            r.reviewed_at is None,
            r.submitted_at is None,
            r.created_at@ == Seq::<char>::empty(),
            r.updated_at@ == Seq::<char>::empty(),
    {
        UserKyc {
            id: 0,
            user_id: to_owned_string(user_id),
            kyc_type: to_owned_string("personal"),
            status: to_owned_string("none"),
            real_name: None,
            id_doc_type: None,
            id_doc_front_url: None,
            id_doc_back_url: None,
            company_name: None,
            business_license_url: None,
            tax_registration_url: None,
            legal_notarization_url: None,
            validity_type: to_owned_string("long_term"),
            expire_at: None,
            reject_reason: None,
            admin_remark: None,
            reviewed_by: None,
            reviewed_at: None,
            submitted_at: None,
            created_at: String::new(),
            updated_at: String::new(),
        }
    }
}

/// The body a user submits, or an administrator saves.
pub struct UpsertUserKycRequest {
    pub kyc_type: Option<String>,
    /// Writable by administrators only.
    pub status: Option<String>,
    pub real_name: Option<String>,
    pub id_doc_type: Option<String>,
    pub id_doc_front_url: Option<String>,
    pub id_doc_back_url: Option<String>,
    pub company_name: Option<String>,
    pub business_license_url: Option<String>,
    pub tax_registration_url: Option<String>,
    pub legal_notarization_url: Option<String>,
    pub validity_type: Option<String>,
    pub expire_at: Option<String>,
    pub reject_reason: Option<String>,
    pub admin_remark: Option<String>,
}

/// The canonical member of `allowed` equal to `v` once trimmed.
pub open spec fn pick(v: Seq<char>, allowed: Seq<Seq<char>>) -> Option<Seq<char>> {
    if exists|i: int| 0 <= i < allowed.len() && allowed[i] == trim(v) {
        Some(trim(v))
    } else {
        None
    }
}

/// The trimmed input when it is one of `allowed`.
fn pick_exec(v: &str, allowed: &Vec<&'static str>) -> (r: Option<&'static str>)
    ensures
        match r {
            Some(s) => pick(v@, allowed@.map_values(|a: &'static str| a@)) == Some(s@),
            None => pick(v@, allowed@.map_values(|a: &'static str| a@)) is None,
        },
{
    let ghost am = allowed@.map_values(|a: &'static str| a@);
    let t = chars_of(trim_str(v));
    let mut i: usize = 0;
    while i < allowed.len()
        invariant
            i <= allowed@.len(),
            am == allowed@.map_values(|a: &'static str| a@),
            t@ == trim(v@),
            forall|k: int| 0 <= k < i ==> am[k] != t@,
        decreases allowed.len() - i,
    {
        let a = chars_of(allowed[i]);
        if chars_eq(a.as_slice(), t.as_slice()) {
            assert(am[i as int] == t@);
            return Some(allowed[i]);
        }
        i = i + 1;
    }
    None
}

/// Accepted `kyc_type` values.
pub open spec fn kyc_types() -> Seq<Seq<char>> {
    seq!["personal"@, "enterprise"@]
}

/// Accepted `status` values.
pub open spec fn kyc_statuses() -> Seq<Seq<char>> {
    seq!["none"@, "pending"@, "approved"@, "rejected"@, "expired"@]
}

/// Accepted `id_doc_type` values.
pub open spec fn id_doc_types() -> Seq<Seq<char>> {
    seq!["id_card"@, "passport"@, "driver_license"@]
}

/// Accepted `validity_type` values.
pub open spec fn validity_types() -> Seq<Seq<char>> {
    seq!["long_term"@, "expire_date"@]
}

/// `personal` / `enterprise` (surrounding blanks ignored); anything else → `None`.
pub fn normalize_kyc_type(v: &str) -> (r: Option<&'static str>)
    ensures
        match r {
            Some(s) => pick(v@, kyc_types()) == Some(s@),
            None => pick(v@, kyc_types()) is None,
        },
{
    let mut allowed: Vec<&'static str> = Vec::new();
    allowed.push("personal");
    allowed.push("enterprise");
    assert(allowed@.map_values(|a: &'static str| a@) =~= kyc_types());
    pick_exec(v, &allowed)
}

/// One of the five review statuses (surrounding blanks ignored); else `None`.
pub fn normalize_kyc_status(v: &str) -> (r: Option<&'static str>)
    ensures
        match r {
            Some(s) => pick(v@, kyc_statuses()) == Some(s@),
            None => pick(v@, kyc_statuses()) is None,
        },
{
    let mut allowed: Vec<&'static str> = Vec::new();
    allowed.push("none");
    allowed.push("pending");
    allowed.push("approved");
    allowed.push("rejected");
    allowed.push("expired");
    assert(allowed@.map_values(|a: &'static str| a@) =~= kyc_statuses());
    pick_exec(v, &allowed)
}

/// One of the three identity document kinds (surrounding blanks ignored);
/// blank or anything else → `None`.
pub fn normalize_id_doc_type(v: &str) -> (r: Option<&'static str>)
    ensures
        match r {
            Some(s) => pick(v@, id_doc_types()) == Some(s@),
            None => pick(v@, id_doc_types()) is None,
        },
{
    let mut allowed: Vec<&'static str> = Vec::new();
    allowed.push("id_card");
    allowed.push("passport");
    allowed.push("driver_license");
    assert(allowed@.map_values(|a: &'static str| a@) =~= id_doc_types());
    pick_exec(v, &allowed)
}

/// `long_term` / `expire_date` (surrounding blanks ignored); else `None`.
pub fn normalize_validity_type(v: &str) -> (r: Option<&'static str>)
    ensures
        match r {
            Some(s) => pick(v@, validity_types()) == Some(s@),
            None => pick(v@, validity_types()) is None,
        },
{
    let mut allowed: Vec<&'static str> = Vec::new();
    allowed.push("long_term");
    allowed.push("expire_date");
    assert(allowed@.map_values(|a: &'static str| a@) =~= validity_types());
    pick_exec(v, &allowed)
}

/// Normalisation is idempotent: a value that normalises to `s` normalises
/// to `s` again, and every result is one of the accepted values.
pub proof fn law_pick_idempotent(v: Seq<char>, allowed: Seq<Seq<char>>)
    requires
        forall|i: int| 0 <= i < allowed.len() ==> trim(#[trigger] allowed[i]) == allowed[i],
    ensures
        pick(v, allowed) matches Some(s) ==> pick(s, allowed) == Some(s) && allowed.contains(s),
{
    if let Some(s) = pick(v, allowed) {
        let i = choose|i: int| 0 <= i < allowed.len() && allowed[i] == trim(v);
        assert(trim(s) == s);
        assert(allowed[i] == s);
    }
}

/// The accepted values of each KYC field, exactly: the identity document
/// kinds are `id_card`, `passport` and `driver_license`; the subject kinds
/// `personal` and `enterprise`; the validity kinds `long_term` and
/// `expire_date`; the review statuses `none`, `pending`, `approved`,
/// `rejected` and `expired`.  Each is accepted with surrounding blanks
/// ignored and comes back trimmed; anything else is refused.
pub proof fn law_kyc_accepted_values(v: Seq<char>)
    ensures
        pick(v, id_doc_types()) == (if trim(v) == "id_card"@ || trim(v) == "passport"@ || trim(v)
            == "driver_license"@ {
            Some(trim(v))
        } else {
            None::<Seq<char>>
        }),
        pick(v, kyc_types()) == (if trim(v) == "personal"@ || trim(v) == "enterprise"@ {
            Some(trim(v))
        } else {
            None::<Seq<char>>
        }),
        pick(v, validity_types()) == (if trim(v) == "long_term"@ || trim(v) == "expire_date"@ {
            Some(trim(v))
        } else {
            None::<Seq<char>>
        }),
        pick(v, kyc_statuses()) == (if trim(v) == "none"@ || trim(v) == "pending"@ || trim(v)
            == "approved"@ || trim(v) == "rejected"@ || trim(v) == "expired"@ {
            Some(trim(v))
        } else {
            None::<Seq<char>>
        }),
{
    let t = trim(v);
    let d = id_doc_types();
    if t == "id_card"@ || t == "passport"@ || t == "driver_license"@ {
        if t == "id_card"@ {
            assert(d[0] == t);
        } else if t == "passport"@ {
            assert(d[1] == t);
        } else {
            assert(d[2] == t);
        }
    }
    let k = kyc_types();
    if t == "personal"@ || t == "enterprise"@ {
        if t == "personal"@ {
            assert(k[0] == t);
        } else {
            assert(k[1] == t);
        }
    }
    let w = validity_types();
    if t == "long_term"@ || t == "expire_date"@ {
        if t == "long_term"@ {
            assert(w[0] == t);
        } else {
            assert(w[1] == t);
        }
    }
    let st = kyc_statuses();
    if t == "none"@ || t == "pending"@ || t == "approved"@ || t == "rejected"@ || t == "expired"@ {
        if t == "none"@ {
            assert(st[0] == t);
        } else if t == "pending"@ {
            assert(st[1] == t);
        } else if t == "approved"@ {
            assert(st[2] == t);
        } else if t == "rejected"@ {
            assert(st[3] == t);
        } else {
            assert(st[4] == t);
        }
    }
}

/// What a submitted KYC payload must carry, exactly: a person needs a
/// name, a document type and the front photo, plus the back photo for an
/// identity card only (a passport or driving licence needs no back); a
/// company needs its name, licence, tax registration and notarised papers;
/// any other subject kind is refused; a payload only being saved is never
/// refused.
pub proof fn law_kyc_submission_requirements(
    kyc_type: Seq<char>,
    id_doc_type: Option<Seq<char>>,
    real_name: Option<Seq<char>>,
    company_name: Option<Seq<char>>,
    front: Option<Seq<char>>,
    back: Option<Seq<char>>,
    license: Option<Seq<char>>,
    tax: Option<Seq<char>>,
    notarization: Option<Seq<char>>,
    for_submit: bool,
)
    ensures
        !for_submit ==> payload_error(
            kyc_type,
            id_doc_type,
            real_name,
            company_name,
            front,
            back,
            license,
            tax,
            notarization,
            for_submit,
        ) is None,
        for_submit && kyc_type == "personal"@ ==> (payload_error(
            kyc_type,
            id_doc_type,
            real_name,
            company_name,
            front,
            back,
            license,
            tax,
            notarization,
            for_submit,
        ) is None <==> !blank(real_name) && id_doc_type is Some && !blank(front) && (id_doc_type
            == Some("id_card"@) ==> !blank(back))),
        for_submit && kyc_type == "enterprise"@ ==> (payload_error(
            kyc_type,
            id_doc_type,
            real_name,
            company_name,
            front,
            back,
            license,
            tax,
            notarization,
            for_submit,
        ) is None <==> !blank(company_name) && !blank(license) && !blank(tax) && !blank(
            notarization,
        )),
        for_submit && kyc_type != "personal"@ && kyc_type != "enterprise"@ ==> payload_error(
            kyc_type,
            id_doc_type,
            real_name,
            company_name,
            front,
            back,
            license,
            tax,
            notarization,
            for_submit,
        ) is Some,
{
    reveal_strlit("personal");
    reveal_strlit("enterprise");
    assert("personal"@[0] != "enterprise"@[0]);
}

/// Minutes a mail / SMS verification code stays valid.
pub const VERIFICATION_CODE_EXPIRY_MINUTES: i64 = 5;

/// What a verification code is for.
pub enum VerificationPurpose {
    Register,
    ResetPassword,
    BindMobile,
    BindEmail,
}

/// A stored verification code.  Timestamps are carried as database text.
pub struct VerificationCode {
    pub id: i64,
    pub email: String,
    /// The phone number (SMS codes).
    pub phone: String,
    pub code: String,
    pub purpose: String,
    pub expires_at: String,
    pub created_at: String,
}


/// A submitted text field, trimmed; `None` when nothing is left.
pub fn empty_to_none(s: String) -> (r: Option<String>)
    ensures
        match r {
            Some(t) => t@ == trim(s@) && t@.len() > 0,
            None => trim(s@).len() == 0,
        },
{
    let t = trim_string(s.as_str());
    if trim_str(s.as_str()).is_empty() {
        None
    } else {
        Some(t)
    }
}

/// A field that is missing or holds only whitespace.
pub open spec fn blank(o: Option<Seq<char>>) -> bool {
    match o {
        Some(s) => trim(s).len() == 0,
        None => true,
    }
}

/// The characters of an optional string.
pub open spec fn opt_view(o: Option<&str>) -> Option<Seq<char>> {
    match o {
        Some(s) => Some(s@),
        None => None,
    }
}

fn is_blank(o: Option<&str>) -> (r: bool)
    ensures
        r == blank(opt_view(o)),
{
    match o {
        Some(s) => trim_str(s).is_empty(),
        None => true,
    }
}

/// Why a submitted KYC payload is refused, checked in order; `None` when it
/// is complete (or when it is only being saved, not submitted).
pub open spec fn payload_error(
    kyc_type: Seq<char>,
    id_doc_type: Option<Seq<char>>,
    real_name: Option<Seq<char>>,
    company_name: Option<Seq<char>>,
    id_doc_front_url: Option<Seq<char>>,
    id_doc_back_url: Option<Seq<char>>,
    business_license_url: Option<Seq<char>>,
    tax_registration_url: Option<Seq<char>>,
    legal_notarization_url: Option<Seq<char>>,
    for_submit: bool,
) -> Option<Seq<char>> {
    if !for_submit {
        None
    } else if kyc_type == "personal"@ {
        if blank(real_name) {
            Some("请填写真实姓名"@)
        } else if id_doc_type is None {
            Some("请选择证件类型（身份证/护照/驾照）"@)
        } else if blank(id_doc_front_url) {
            Some("请上传证件正面/主页照片"@)
        } else if id_doc_type->0 == "id_card"@ && blank(id_doc_back_url) {
            Some("身份证请上传正反面照片"@)
        } else {
            None
        }
    } else if kyc_type == "enterprise"@ {
        if blank(company_name) {
            Some("请填写企业名称"@)
        } else if blank(business_license_url) {
            Some("请上传营业执照"@)
        } else if blank(tax_registration_url) {
            Some("请上传税务登记证"@)
        } else if blank(legal_notarization_url) {
            Some("请上传企业法务公证材料"@)
        } else {
            None
        }
    } else {
        Some("无效的实名类型"@)
    }
}

fn bad_request(msg: &str) -> (r: Result<(), AppError>)
    ensures
        r matches Err(AppError::BadRequest(m)) && m@ == msg@,
{
    Err(AppError::BadRequest(to_owned_string(msg)))
}

/// Checks that a submitted payload carries what its KYC type needs: a
/// person's name, document type and photos (both sides of an ID card); a
/// company's name, licence, tax registration and notarised papers.
pub fn validate_payload(
    kyc_type: &str,
    id_doc_type: Option<&str>,
    real_name: Option<&str>,
    company_name: Option<&str>,
    id_doc_front_url: Option<&str>,
    id_doc_back_url: Option<&str>,
    business_license_url: Option<&str>,
    tax_registration_url: Option<&str>,
    legal_notarization_url: Option<&str>,
    for_submit: bool,
) -> (r: Result<(), AppError>)
    ensures
        match payload_error(
            kyc_type@,
            opt_view(id_doc_type),
            opt_view(real_name),
            opt_view(company_name),
            opt_view(id_doc_front_url),
            opt_view(id_doc_back_url),
            opt_view(business_license_url),
            opt_view(tax_registration_url),
            opt_view(legal_notarization_url),
            for_submit,
        ) {
            None => r is Ok,
            Some(msg) => r matches Err(AppError::BadRequest(m)) && m@ == msg,
        },
{
    if !for_submit {
        return Ok(());
    }
    if str_eq(kyc_type, "personal") {
        if is_blank(real_name) {
            return bad_request("请填写真实姓名");
        }
        let doc = match id_doc_type {
            Some(d) => d,
            None => return bad_request("请选择证件类型（身份证/护照/驾照）"),
        };
        if is_blank(id_doc_front_url) {
            return bad_request("请上传证件正面/主页照片");
        }
        if str_eq(doc, "id_card") && is_blank(id_doc_back_url) {
            return bad_request("身份证请上传正反面照片");
        }
    } else if str_eq(kyc_type, "enterprise") {
        if is_blank(company_name) {
            return bad_request("请填写企业名称");
        }
        if is_blank(business_license_url) {
            return bad_request("请上传营业执照");
        }
        if is_blank(tax_registration_url) {
            return bad_request("请上传税务登记证");
        }
        if is_blank(legal_notarization_url) {
            return bad_request("请上传企业法务公证材料");
        }
    } else {
        return bad_request("无效的实名类型");
    }
    Ok(())
}


// ───────────────────────── saving a KYC record ─────────────────────────

/// A submitted field against the stored one: a submitted value replaces it
/// (trimmed, blank = cleared); an absent one keeps it.
pub open spec fn field_model(submitted: Option<String>, stored: Option<String>) -> Option<Seq<char>> {
    match submitted {
        Some(s) => if trim(s@).len() > 0 {
            Some(trim(s@))
        } else {
            None
        },
        None => stored.deep_view(),
    }
}

fn field_update(submitted: &Option<String>, stored: &Option<String>) -> (r: Option<String>)
    ensures
        r.deep_view() == field_model(*submitted, *stored),
{
    match submitted {
        Some(s) => {
            let t = trim_string(s.as_str());
            if trim_str(s.as_str()).is_empty() {
                None
            } else {
                Some(t)
            }
        },
        None => match stored {
            Some(v) => Some(v.clone()),
            None => None,
        },
    }
}

/// The fields of a KYC record after the submitted values are applied,
/// before the review status is decided.
pub struct KycDraft {
    pub kyc_type: String,
    pub validity_type: String,
    pub real_name: Option<String>,
    pub id_doc_type: Option<String>,
    pub id_doc_front_url: Option<String>,
    pub id_doc_back_url: Option<String>,
    pub company_name: Option<String>,
    pub business_license_url: Option<String>,
    pub tax_registration_url: Option<String>,
    pub legal_notarization_url: Option<String>,
    pub expire_at: Option<String>,
    /// `expire_at` is a newly submitted timestamp that must still parse.
    pub expire_needs_check: bool,
}

/// The KYC type after the submission.
pub open spec fn kyc_type_model(existing: UserKyc, req: UpsertUserKycRequest) -> Option<Seq<char>> {
    match req.kyc_type {
        Some(v) => pick(v@, kyc_types()),
        None => Some(existing.kyc_type@),
    }
}

/// The validity type after the submission.
pub open spec fn validity_model(existing: UserKyc, req: UpsertUserKycRequest) -> Option<Seq<char>> {
    match req.validity_type {
        Some(v) => pick(v@, validity_types()),
        None => Some(existing.validity_type@),
    }
}

/// The document type after the submission (`Err` for an unknown type; an
/// empty string clears it).
pub open spec fn doc_type_model(existing: UserKyc, req: UpsertUserKycRequest) -> Result<Option<Seq<char>>, ()> {
    match req.id_doc_type {
        Some(v) => if v@.len() == 0 {
            Ok(None)
        } else {
            match pick(v@, id_doc_types()) {
                Some(d) => Ok(Some(d)),
                None => Err(()),
            }
        },
        None => Ok(existing.id_doc_type.deep_view()),
    }
}

/// An expiry date as stored: a bare date (10 bytes) becomes the end of that
/// day in UTC.
pub open spec fn expire_text(t: Seq<char>) -> Seq<char> {
    if vstd::utf8::encode_utf8(t).len() as usize == 10 {
        t + "T23:59:59.000Z"@
    } else {
        t
    }
}

/// The expiry after the submission, with whether it is newly submitted;
/// `Err` when the validity type asks for a date that is missing.
pub open spec fn expire_model(existing: UserKyc, req: UpsertUserKycRequest, validity: Seq<char>) -> Result<
    (Option<Seq<char>>, bool),
    (),
> {
    if req.validity_type is Some || req.expire_at is Some {
        if validity != "expire_date"@ {
            Ok((None, false))
        } else {
            match req.expire_at {
                Some(s) => if trim(s@).len() > 0 {
                    Ok((Some(expire_text(trim(s@))), true))
                } else {
                    Err(())
                },
                None => Err(()),
            }
        }
    } else if validity == "long_term"@ {
        Ok((None, false))
    } else {
        Ok((existing.expire_at.deep_view(), false))
    }
}

/// Why a submission is refused before review, checked in order.
pub open spec fn draft_error(existing: UserKyc, req: UpsertUserKycRequest) -> Option<Seq<char>> {
    if kyc_type_model(existing, req) is None {
        Some("实名类型仅支持个人或企业"@)
    } else if validity_model(existing, req) is None {
        Some("有效期类型无效"@)
    } else if doc_type_model(existing, req) is Err {
        Some("证件类型无效"@)
    } else if expire_model(existing, req, validity_model(existing, req)->0) is Err {
        Some("证件有效期模式下请填写到期日期"@)
    } else {
        None
    }
}

fn fail_with<T>(msg: &str) -> (r: Result<T, AppError>)
    ensures
        r matches Err(AppError::BadRequest(m)) && m@ == msg@,
{
    Err(AppError::BadRequest(to_owned_string(msg)))
}

/// Applies a submission to the stored record: enumerated fields are
/// normalised, text fields trimmed (blank clears), absent fields kept, and
/// the expiry resolved from the validity type.
pub fn kyc_draft(existing: &UserKyc, req: &UpsertUserKycRequest) -> (r: Result<KycDraft, AppError>)
    ensures
        match draft_error(*existing, *req) {
            Some(msg) => r matches Err(AppError::BadRequest(m)) && m@ == msg,
            None => r matches Ok(d) && {
                &&& Some(d.kyc_type@) == kyc_type_model(*existing, *req)
                &&& Some(d.validity_type@) == validity_model(*existing, *req)
                &&& doc_type_model(*existing, *req) == Ok::<Option<Seq<char>>, ()>(d.id_doc_type.deep_view())
                &&& d.real_name.deep_view() == field_model(req.real_name, existing.real_name)
                &&& d.id_doc_front_url.deep_view() == field_model(req.id_doc_front_url, existing.id_doc_front_url)
                &&& d.id_doc_back_url.deep_view() == field_model(req.id_doc_back_url, existing.id_doc_back_url)
                &&& d.company_name.deep_view() == field_model(req.company_name, existing.company_name)
                &&& d.business_license_url.deep_view() == field_model(
                    req.business_license_url,
                    existing.business_license_url,
                )
                &&& d.tax_registration_url.deep_view() == field_model(
                    req.tax_registration_url,
                    existing.tax_registration_url,
                )
                &&& d.legal_notarization_url.deep_view() == field_model(
                    req.legal_notarization_url,
                    existing.legal_notarization_url,
                )
                &&& Ok::<(Option<Seq<char>>, bool), ()>((d.expire_at.deep_view(), d.expire_needs_check)) == expire_model(
                    *existing,
                    *req,
                    d.validity_type@,
                )
            },
        },
{
    let kyc_type: String = match &req.kyc_type {
        Some(v) => match normalize_kyc_type(v.as_str()) {
            Some(t) => to_owned_string(t),
            None => return fail_with("实名类型仅支持个人或企业"),
        },
        None => existing.kyc_type.clone(),
    };
    let validity_type: String = match &req.validity_type {
        Some(v) => match normalize_validity_type(v.as_str()) {
            Some(t) => to_owned_string(t),
            None => return fail_with("有效期类型无效"),
        },
        None => existing.validity_type.clone(),
    };
    let real_name = field_update(&req.real_name, &existing.real_name);
    let id_doc_front_url = field_update(&req.id_doc_front_url, &existing.id_doc_front_url);
    let id_doc_back_url = field_update(&req.id_doc_back_url, &existing.id_doc_back_url);
    let company_name = field_update(&req.company_name, &existing.company_name);
    let business_license_url = field_update(&req.business_license_url, &existing.business_license_url);
    let tax_registration_url = field_update(&req.tax_registration_url, &existing.tax_registration_url);
    let legal_notarization_url = field_update(&req.legal_notarization_url, &existing.legal_notarization_url);
    let id_doc_type: Option<String> = match &req.id_doc_type {
        Some(v) => {
            if v.as_str().is_empty() {
                None
            } else {
                match normalize_id_doc_type(v.as_str()) {
                    Some(d) => Some(to_owned_string(d)),
                    None => return fail_with("证件类型无效"),
                }
            }
        },
        None => match &existing.id_doc_type {
            Some(d) => Some(d.clone()),
            None => None,
        },
    };
    let (expire_at, expire_needs_check): (Option<String>, bool) = if req.validity_type.is_some()
        || req.expire_at.is_some() {
        if !str_eq(validity_type.as_str(), "expire_date") {
            (None, false)
        } else {
            let raw = match &req.expire_at {
                Some(s) => trim_str(s.as_str()),
                None => return fail_with("证件有效期模式下请填写到期日期"),
            };
            if raw.is_empty() {
                return fail_with("证件有效期模式下请填写到期日期");
            }
            let mut t = to_owned_string(raw);
            if raw.len() == 10 {
                crate::text::string_append(&mut t, "T23:59:59.000Z");
            }
            (Some(t), true)
        }
    } else if str_eq(validity_type.as_str(), "long_term") {
        (None, false)
    } else {
        (
            match &existing.expire_at {
                Some(e) => Some(e.clone()),
                None => None,
            },
            false,
        )
    };
    Ok(
        KycDraft {
            kyc_type,
            validity_type,
            real_name,
            id_doc_type,
            id_doc_front_url,
            id_doc_back_url,
            company_name,
            business_license_url,
            tax_registration_url,
            legal_notarization_url,
            expire_at,
            expire_needs_check,
        },
    )
}

/// The payload check of a draft (see [`payload_error`]).
pub open spec fn draft_payload_error(d: KycDraft) -> Option<Seq<char>> {
    payload_error(
        d.kyc_type@,
        d.id_doc_type.deep_view(),
        d.real_name.deep_view(),
        d.company_name.deep_view(),
        d.id_doc_front_url.deep_view(),
        d.id_doc_back_url.deep_view(),
        d.business_license_url.deep_view(),
        d.tax_registration_url.deep_view(),
        d.legal_notarization_url.deep_view(),
        true,
    )
}

/// The review status an administrator saves: the submitted status (or
/// `None` when it is not one of the five), else approved for a record never
/// submitted, else the stored status.
pub open spec fn admin_status_model(existing: UserKyc, req: UpsertUserKycRequest) -> Option<Seq<char>> {
    match req.status {
        Some(v) => pick(v@, kyc_statuses()),
        None => if existing.status@ == "none"@ {
            Some("approved"@)
        } else {
            Some(existing.status@)
        },
    }
}

fn draft_payload(d: &KycDraft) -> (r: Result<(), AppError>)
    ensures
        match draft_payload_error(*d) {
            None => r is Ok,
            Some(msg) => r matches Err(AppError::BadRequest(m)) && m@ == msg,
        },
{
    validate_payload(
        d.kyc_type.as_str(),
        opt_str(&d.id_doc_type),
        opt_str(&d.real_name),
        opt_str(&d.company_name),
        opt_str(&d.id_doc_front_url),
        opt_str(&d.id_doc_back_url),
        opt_str(&d.business_license_url),
        opt_str(&d.tax_registration_url),
        opt_str(&d.legal_notarization_url),
        true,
    )
}

fn opt_str(o: &Option<String>) -> (r: Option<&str>)
    ensures
        opt_view(r) == o.deep_view(),
{
    match o {
        Some(s) => Some(s.as_str()),
        None => None,
    }
}

fn clone_opt(o: &Option<String>) -> (r: Option<String>)
    ensures
        r == *o,
{
    match o {
        Some(s) => Some(s.clone()),
        None => None,
    }
}

/// The record to store after review.  A user's submission must be complete
/// and becomes pending (rejection reason and review cleared, submitted now);
/// an administrator sets the status (see [`admin_status_model`]), review
/// fields follow an approval or rejection (set by `operator` at `now`),
/// and the payload check applies to the approved and pending statuses as well.
pub fn kyc_review(
    existing: &UserKyc,
    req: &UpsertUserKycRequest,
    d: KycDraft,
    is_admin: bool,
    operator: Option<&str>,
    now: &str,
) -> (r: Result<UserKyc, AppError>)
    ensures
        !is_admin ==> match draft_payload_error(d) {
            Some(msg) => r matches Err(AppError::BadRequest(m)) && m@ == msg,
            None => r matches Ok(k) && {
                &&& k.status@ == "pending"@
                &&& k.reject_reason is None
                &&& k.admin_remark == existing.admin_remark
                &&& k.reviewed_by is None && k.reviewed_at is None
                &&& k.submitted_at matches Some(t) && t@ == now@
            },
        },
        is_admin ==> match admin_status_model(*existing, *req) {
            None => r matches Err(AppError::BadRequest(m)) && m@ == "实名状态无效"@,
            Some(st) => if (st == "approved"@ || st == "pending"@) && draft_payload_error(d) is Some {
                r matches Err(AppError::BadRequest(m)) && m@ == draft_payload_error(d)->0
            } else {
                r matches Ok(k) && {
                    &&& k.status@ == st
                    &&& k.reject_reason.deep_view() == field_model(req.reject_reason, existing.reject_reason)
                    &&& k.admin_remark.deep_view() == field_model(req.admin_remark, existing.admin_remark)
                    &&& (st == "approved"@ || st == "rejected"@) ==> k.reviewed_by.deep_view() == match operator {
                        Some(o) => Some(o@),
                        None => existing.reviewed_by.deep_view(),
                    }
                    &&& (st == "approved"@ || st == "rejected"@) ==> (k.reviewed_at matches Some(t) && t@ == now@)
                    &&& !(st == "approved"@ || st == "rejected"@) ==> (k.reviewed_by == existing.reviewed_by
                        && k.reviewed_at == existing.reviewed_at)
                    &&& st != "none"@ ==> (match existing.submitted_at {
                        Some(t) => k.submitted_at == Some(t),
                        None => k.submitted_at matches Some(t) && t@ == now@,
                    })
                    &&& st == "none"@ ==> k.submitted_at == existing.submitted_at
                }
            },
        },
        r matches Ok(k) ==> {
            &&& k.id == existing.id && k.user_id == existing.user_id
            &&& k.kyc_type == d.kyc_type && k.validity_type == d.validity_type
            &&& k.real_name == d.real_name && k.id_doc_type == d.id_doc_type
            &&& k.id_doc_front_url == d.id_doc_front_url && k.id_doc_back_url == d.id_doc_back_url
            &&& k.company_name == d.company_name && k.business_license_url == d.business_license_url
            &&& k.tax_registration_url == d.tax_registration_url
            &&& k.legal_notarization_url == d.legal_notarization_url
            &&& k.expire_at == d.expire_at
            &&& k.created_at == existing.created_at && k.updated_at == existing.updated_at
        },
{
    let (status, reject_reason, admin_remark, reviewed_by, reviewed_at, submitted_at) = if is_admin {
        let status: String = match &req.status {
            Some(v) => match normalize_kyc_status(v.as_str()) {
                Some(s) => to_owned_string(s),
                None => return fail_with("实名状态无效"),
            },
            None => {
                if str_eq(existing.status.as_str(), "none") {
                    to_owned_string("approved")
                } else {
                    existing.status.clone()
                }
            },
        };
        let reject_reason = field_update(&req.reject_reason, &existing.reject_reason);
        let admin_remark = field_update(&req.admin_remark, &existing.admin_remark);
        let reviewed = str_eq(status.as_str(), "approved") || str_eq(status.as_str(), "rejected");
        let (reviewed_by, reviewed_at) = if reviewed {
            (
                match operator {
                    Some(o) => Some(to_owned_string(o)),
                    None => clone_opt(&existing.reviewed_by),
                },
                Some(to_owned_string(now)),
            )
        } else {
            (clone_opt(&existing.reviewed_by), clone_opt(&existing.reviewed_at))
        };
        let submitted_at = if !str_eq(status.as_str(), "none") {
            match &existing.submitted_at {
                Some(t) => Some(t.clone()),
                None => Some(to_owned_string(now)),
            }
        } else {
            clone_opt(&existing.submitted_at)
        };
        (status, reject_reason, admin_remark, reviewed_by, reviewed_at, submitted_at)
    } else {
        match draft_payload(&d) {
            Ok(()) => {},
            Err(e) => return Err(e),
        }
        (
            to_owned_string("pending"),
            None,
            clone_opt(&existing.admin_remark),
            None,
            None,
            Some(to_owned_string(now)),
        )
    };
    if is_admin && (str_eq(status.as_str(), "approved") || str_eq(status.as_str(), "pending")) {
        match draft_payload(&d) {
            Ok(()) => {},
            Err(e) => return Err(e),
        }
    }
    Ok(
        UserKyc {
            id: existing.id,
            user_id: existing.user_id.clone(),
            kyc_type: d.kyc_type,
            status,
            real_name: d.real_name,
            id_doc_type: d.id_doc_type,
            id_doc_front_url: d.id_doc_front_url,
            id_doc_back_url: d.id_doc_back_url,
            company_name: d.company_name,
            business_license_url: d.business_license_url,
            tax_registration_url: d.tax_registration_url,
            legal_notarization_url: d.legal_notarization_url,
            validity_type: d.validity_type,
            expire_at: d.expire_at,
            reject_reason,
            admin_remark,
            reviewed_by,
            reviewed_at,
            submitted_at,
            created_at: existing.created_at.clone(),
            updated_at: existing.updated_at.clone(),
        },
    )
}


// ───────────────────────── identity documents ─────────────────────────

/// The largest identity document accepted: 12 MiB.
pub const KYC_DOC_MAX_BYTES: usize = 12582912;

/// Identity documents are images or PDF files.
pub open spec fn doc_type_ok(mime: Seq<char>) -> bool {
    starts_with(mime, "image/"@) || mime == "application/pdf"@
}

/// Whether a document's content type is accepted (see [`doc_type_ok`]).
pub fn kyc_document_type_ok(mime_type: &str) -> (r: bool)
    ensures
        r == doc_type_ok(mime_type@),
{
    str_starts_with(mime_type, "image/") || str_eq(mime_type, "application/pdf")
}

/// The text after the last `.` of a file name, the whole name when it has
/// none.
pub open spec fn after_last_dot(s: Seq<char>) -> Seq<char> {
    if contains(s, "."@) {
        s.subrange(last_index(s, "."@) + 1, s.len() as int)
    } else {
        s
    }
}

/// The extension a stored document gets: that of its file name (the first
/// 120 characters, `document` when the upload names none) when it is at
/// most 8 bytes, else `pdf` for a PDF and `jpg` for anything else.
pub open spec fn doc_ext(file_name: Seq<char>, mime: Seq<char>) -> Seq<char> {
    let e = after_last_dot(file_name.take(if file_name.len() < 120 { file_name.len() as int } else { 120 }));
    if vstd::utf8::encode_utf8(e).len() as usize <= 8 {
        e
    } else if mime == "application/pdf"@ {
        "pdf"@
    } else {
        "jpg"@
    }
}

/// Characters kept in a document field name.
pub open spec fn field_char() -> spec_fn(char) -> bool {
    |c: char| ('a' <= c && c <= 'z') || ('A' <= c && c <= 'Z') || ('0' <= c && c <= '9') || c == '_' || c == '-'
}

/// The document field as used in a storage key: its ASCII letters, digits,
/// `_` and `-`, at most 40 of them; `doc` when none is left.
pub open spec fn doc_field_key(field: Seq<char>) -> Seq<char> {
    let f = field.filter(field_char());
    if f.len() == 0 {
        "doc"@
    } else if f.len() <= 40 {
        f
    } else {
        f.take(40)
    }
}

/// The storage key of an uploaded identity document:
/// `kyc/<user>/<field>_<millis>.<ext>` (see [`doc_field_key`],
/// [`doc_ext`]).
pub open spec fn doc_key_model(user: Seq<char>, field: Seq<char>, file_name: Seq<char>, mime: Seq<char>, millis: i64) -> Seq<
    char,
> {
    "kyc/"@ + user + "/"@ + doc_field_key(field) + "_"@ + int_string(millis as int) + "."@ + doc_ext(file_name, mime)
}

/// The storage key of an uploaded identity document (see
/// [`doc_key_model`]); `file_name` is `document` when the upload names
/// none, `now_millis` the upload time.
pub fn kyc_document_key(target_user_id: &str, doc_field: &str, file_name: &str, mime_type: &str, now_millis: i64) -> (r:
    String)
    ensures
        r@ == doc_key_model(target_user_id@, doc_field@, file_name@, mime_type@, now_millis),
{
    let name = chars_of(file_name);
    let cut: usize = if name.len() < 120 {
        name.len()
    } else {
        120
    };
    let head = slice_range(name.as_slice(), 0, cut);
    assert(head@ =~= file_name@.take(cut as int));
    let dot = chars_of(".");
    proof {
        reveal_strlit(".");
        assert(dot@.len() == 1);
    }
    let tail = match chars_rfind(head.as_slice(), dot.as_slice()) {
        Some(i) => {
            proof {
                assert(occurs_at(head@, dot@, i as int));
                assert(contains(head@, dot@));
            }
            slice_range(head.as_slice(), i + 1, head.len())
        },
        None => head,
    };
    let tail_text = string_from_chars(tail.as_slice());
    let ext = if tail_text.as_str().len() <= 8 {
        tail_text
    } else if str_eq(mime_type, "application/pdf") {
        to_owned_string("pdf")
    } else {
        to_owned_string("jpg")
    };
    assert(tail@ == after_last_dot(head@));
    assert(ext@ == doc_ext(file_name@, mime_type@));
    let fv = chars_of(doc_field);
    let ghost keep = field_char();
    let mut kept: Vec<char> = Vec::new();
    let mut i: usize = 0;
    proof {
        reveal(Seq::filter);
        assert(fv@.take(0).filter(keep) =~= Seq::<char>::empty());
    }
    while i < fv.len()
        invariant
            i <= fv@.len(),
            keep == field_char(),
            kept@ == fv@.take(i as int).filter(keep),
        decreases fv.len() - i,
    {
        let c = fv[i];
        proof {
            assert(fv@.take(i + 1) =~= fv@.take(i as int).push(c));
            fv@.take(i as int).lemma_filter_push(c, keep);
        }
        if ('a' <= c && c <= 'z') || ('A' <= c && c <= 'Z') || ('0' <= c && c <= '9') || c == '_' || c == '-' {
            kept.push(c);
        }
        i = i + 1;
    }
    assert(fv@.take(fv@.len() as int) =~= fv@);
    let field_key = if kept.len() == 0 {
        to_owned_string("doc")
    } else if kept.len() <= 40 {
        string_from_chars(kept.as_slice())
    } else {
        let t = slice_range(kept.as_slice(), 0, 40);
        string_from_chars(t.as_slice())
    };
    assert(field_key@ == doc_field_key(doc_field@));
    let mut out = to_owned_string("kyc/");
    string_append(&mut out, target_user_id);
    string_append(&mut out, "/");
    string_append(&mut out, field_key.as_str());
    string_append(&mut out, "_");
    push_i64(&mut out, now_millis);
    string_append(&mut out, ".");
    string_append(&mut out, ext.as_str());
    out
}

} // verus!
