use tokensbyte::errors::AppError;
use tokensbyte::ha::{
    channel_is_ha_flag, cooldown_secs, group_key, is_client_side_http_status, match_err_keywords,
    policy, resolve_budget_secs, resolve_config_id, status_msg, try_failover, yid_label, Channel,
    FailAction, HaAttempt, HaBillCtx, HaConfig, HaTimeoutCtx,
};
use tokensbyte::meltdown::{is_melted_down, MeltdownTable};

fn cfg() -> HaConfig {
    HaConfig {
        plugin_enabled: true,
        max_retries: 3,
        total_timeout_secs: 0,
        cooldown_429: 30,
        cooldown_auth: 600,
        cooldown_404: 120,
        cooldown_network: 60,
        meltdown_blacklist: vec!["insufficient balance".to_string()],
        meltdown_whitelist: vec!["content policy".to_string()],
    }
}

fn channel(id: i64, aid: Option<&str>) -> Channel {
    Channel {
        id,
        name: format!("c{}", id),
        provider_type: "openai".to_string(),
        group_aid: aid.map(|s| s.to_string()),
        yid: Some(" y1 ".to_string()),
        preset_id: Some(77),
        api_key: "sk".to_string(),
    }
}

#[test]
fn policy_and_budget() {
    assert_eq!(policy(&cfg(), 1), (true, 3));
    assert_eq!(policy(&cfg(), 0), (false, 1));
    let mut c = cfg();
    c.max_retries = 0;
    assert_eq!(policy(&c, 1), (true, 1));
    c.plugin_enabled = false;
    assert_eq!(policy(&c, 1), (false, 1));
    assert_eq!(resolve_budget_secs(90, 600), 90);
    assert_eq!(resolve_budget_secs(0, 300), 240);
    assert_eq!(resolve_budget_secs(0, 1000), 540);
    assert_eq!(resolve_budget_secs(0, 30), 60);
}

#[test]
fn timeout_context() {
    let first = HaTimeoutCtx { attempt: 0, started_at_ms: 0, budget_ms: Some(10_000) };
    assert_eq!(first.resolve(30_000, 9_000), 30_000);
    let later = HaTimeoutCtx { attempt: 1, started_at_ms: 0, budget_ms: Some(10_000) };
    assert_eq!(later.remaining(4_000), Some(6_000));
    assert_eq!(later.resolve(30_000, 4_000), 6_000);
    assert_eq!(later.resolve(30_000, 9_800), 1_000);
    assert_eq!(later.resolve(3_000, 4_000), 3_000);
    let none = HaTimeoutCtx { attempt: 2, started_at_ms: 0, budget_ms: None };
    assert_eq!(none.remaining(5), None);
    assert_eq!(none.resolve(7, 5), 7);
}

#[test]
fn channel_labels_and_ids() {
    assert_eq!(yid_label(Some(" abc ")), "abc");
    assert_eq!(yid_label(Some("  ")), "-");
    assert_eq!(yid_label(None), "-");
    assert_eq!(channel_is_ha_flag(&channel(1, Some("ha_group_5_config_9"))), 1);
    assert_eq!(channel_is_ha_flag(&channel(1, None)), 0);
    let mut hg = channel(2, None);
    hg.provider_type = "high_availability_group".to_string();
    assert_eq!(channel_is_ha_flag(&hg), 1);
    assert_eq!(group_key(&channel(3, Some("ha_group_5_config_9"))), "ha_group_5");
    assert_eq!(group_key(&channel(3, Some("ha_group_5"))), "ha_group_5");
    assert_eq!(group_key(&channel(3, Some("other"))), "ha_group_3");
    assert_eq!(resolve_config_id(&channel(3, Some("ha_group_5_config_9"))), Some(9));
    assert_eq!(resolve_config_id(&channel(3, Some("ha_group_5_config_x"))), Some(77));
    assert_eq!(resolve_config_id(&channel(3, None)), Some(77));
}

#[test]
fn statuses_and_keywords() {
    for s in [400u16, 402, 403, 422] {
        assert!(is_client_side_http_status(s));
    }
    assert!(!is_client_side_http_status(429));
    let c = cfg();
    assert_eq!(cooldown_secs(&c, 429), 30);
    assert_eq!(cooldown_secs(&c, 401), 600);
    assert_eq!(cooldown_secs(&c, 404), 120);
    assert_eq!(cooldown_secs(&c, 500), 60);
    assert_eq!(
        match_err_keywords("Insufficient Balance on account", &c.meltdown_blacklist),
        Some("insufficient balance".to_string())
    );
    assert_eq!(match_err_keywords("", &c.meltdown_blacklist), None);
    assert_eq!(match_err_keywords("fine", &vec!["".to_string()]), None);
    assert_eq!(status_msg(&AppError::UpstreamHttpError(503, "busy".to_string())), (503, "busy".to_string()));
    assert_eq!(status_msg(&AppError::UpstreamError("down".to_string())), (502, "down".to_string()));
    assert_eq!(status_msg(&AppError::NotFound("m".to_string())), (404, "Not found: m".to_string()));
}

#[test]
fn failover_excludes_and_melts() {
    let c = cfg();
    let mut table = MeltdownTable::new();
    let mut excl: Vec<String> = Vec::new();
    assert!(try_failover(&c, &mut table, true, Some("ha_group_1_config_2"), 500, "boom", &mut excl, 1_000));
    assert_eq!(excl, vec!["ha_group_1_config_2".to_string()]);
    assert!(is_melted_down(&mut table, "ha_group_1_config_2", 1_000 + 59_999));
    assert!(try_failover(&c, &mut table, true, Some("ha_group_1_config_2"), 500, "boom", &mut excl, 2_000));
    assert_eq!(excl.len(), 1);
    assert!(try_failover(&c, &mut table, true, Some("ha_group_1_config_3"), 403, "denied", &mut excl, 2_000));
    assert!(!is_melted_down(&mut table, "ha_group_1_config_3", 2_000));
    assert!(!try_failover(&c, &mut table, true, Some("ha_group_1_config_4"), 500, "Insufficient balance", &mut excl, 2_000));
    assert!(!try_failover(&c, &mut table, false, Some("ha_group_1_config_4"), 500, "x", &mut excl, 2_000));
    assert!(!try_failover(&c, &mut table, true, Some("plain"), 500, "x", &mut excl, 2_000));
    assert_eq!(excl.len(), 2);
}

#[test]
fn attempt_loop_keeps_first_failure() {
    let c = cfg();
    let mut table = MeltdownTable::new();
    let mut a = HaAttempt::begin(&c, 1, 300, 0);
    assert_eq!(a.max_attempts, 3);
    assert_eq!(a.budget_ms, Some(240_000));
    assert!(a.cont(0));
    a.set_pending(Some(11));
    a.set_pending(None);
    assert_eq!(a.pending_log_id, Some(11));
    let ch1 = channel(1, Some("ha_group_1_config_2"));
    let act = a.fail(&c, &mut table, &ch1, AppError::UpstreamHttpError(503, "busy".to_string()), None, "busy".to_string(), None, 10, "/v1/chat/completions", 100);
    assert!(matches!(act, FailAction::Continue));
    a.bump();
    let ch2 = channel(2, Some("ha_group_1_config_3"));
    let act2 = a.fail(&c, &mut table, &ch2, AppError::UpstreamHttpError(429, "slow".to_string()), None, "slow".to_string(), None, 10, "/v1/chat/completions", 200);
    assert!(matches!(act2, FailAction::Continue));
    let f = a.first.as_ref().unwrap();
    assert_eq!(f.status, 503);
    assert_eq!(f.message, "busy");
    assert_eq!(a.settle_target(), Some(11));
    let rec = a.save_record().unwrap();
    assert_eq!(rec.log_id, 11);
    assert_eq!(rec.attempt_count, 2);
    assert!(!rec.final_ok);
    assert_eq!(rec.final_status, 503);
    a.mark_saved();
    assert!(a.save_record().is_none());
    match a.finish() {
        AppError::UpstreamHttpError(s, m) => {
            assert_eq!(s, 503);
            assert_eq!(m, "busy");
        }
        _ => panic!("expected the first failure"),
    }
}

#[test]
fn access_side_error_stops() {
    let c = cfg();
    let mut table = MeltdownTable::new();
    let mut a = HaAttempt::begin(&c, 1, 300, 0);
    let ch = channel(1, Some("ha_group_1_config_2"));
    let act = a.fail(&c, &mut table, &ch, AppError::PaymentRequired("余额不足".to_string()), None, String::new(), None, 0, "/x", 0);
    assert!(matches!(act, FailAction::AccessStop));
    match a.finish() {
        AppError::PaymentRequired(m) => assert_eq!(m, "余额不足"),
        _ => panic!("expected the business error"),
    }
}

#[test]
fn success_is_recorded() {
    let c = cfg();
    let mut a = HaAttempt::begin(&c, 1, 300, 0);
    a.set_pending(Some(5));
    a.ok(&channel(1, Some("ha_group_1_config_2")), "https://***/v1".to_string(), 12);
    assert!(a.billed);
    assert_eq!(a.settle_target(), None);
    let rec = a.save_record().unwrap();
    assert!(rec.final_ok);
    assert_eq!(rec.final_status, 200);
}

#[test]
fn bill_context_builders() {
    let state = 1u8;
    let token = "tok".to_string();
    let model_rec = 3i32;
    let ctx = HaBillCtx::new(&state, &token, "gpt", "/v1/chat")
        .category("聊天")
        .billing_model("gpt-4o")
        .db(Some(&model_rec));
    assert_eq!(ctx.model, "gpt");
    assert_eq!(ctx.ep, "/v1/chat");
    assert_eq!(ctx.hint_category, Some("聊天"));
    assert_eq!(ctx.billing_model_hint, Some("gpt-4o"));
    assert_eq!(ctx.db_model, Some(&3));
    let plain: HaBillCtx<'_, u8, String, i32> = HaBillCtx::new(&state, &token, "m", "e");
    assert!(plain.hint_category.is_none() && plain.db_model.is_none());
}
