use tokensbyte::task::LogPollRoute::{CascadeFinished, CascadeProcessing, FailedWithoutBody, Formatted, Upstream};
use tokensbyte::task::{
    build_jimeng_poll_ctx, log_poll_route, parse_poll_fail_meta, task_poll_step, task_status_plan, TaskPollAction, TaskRecord, TaskReply,
    TencentCategory,
    category_hint, category_to_entry_path, convert_tencent_post_response, format_poll_fail_tag,
    pending_freeze_filter, poll_wait_before_query, request_response_format, resolve_plugin_model, PollTaskOpts,
    POLL_FAIL_LIMIT,
};

#[test]
fn poll_opts_default() {
    let o = PollTaskOpts::default();
    assert_eq!(o.model, "");
    assert_eq!(o.category, "");
    assert_eq!(o.timeout_secs, 300);
    assert!(o.jimeng_ctx.is_none());
    assert_eq!(POLL_FAIL_LIMIT, 15);
}

#[test]
fn entry_paths() {
    assert_eq!(category_to_entry_path("视频"), "/v1/video/generations");
    assert_eq!(category_to_entry_path("视频增强"), "/v1/video/generations");
    assert_eq!(category_to_entry_path("图片"), "/v1/images/generations");
    assert_eq!(category_to_entry_path("音频"), "/v1/tasks");
    assert_eq!(category_hint(""), None);
    assert_eq!(category_hint("视频"), Some("视频"));
}

#[test]
fn plugin_model_only_for_happyhorse() {
    assert_eq!(
        resolve_plugin_model(r#"{"plugin":"happyhorse","actual_model":"hh-v2"}"#),
        Some("hh-v2".to_string())
    );
    assert_eq!(resolve_plugin_model(r#"{"plugin":"other","actual_model":"x"}"#), None);
    assert_eq!(resolve_plugin_model("happyhorse but not json"), None);
}

#[test]
fn tencent_post_response_error_flag() {
    let (s, e) = convert_tencent_post_response(r#"{"error":{"message":"x"}}"#.to_string());
    assert!(e);
    assert_eq!(s, r#"{"error":{"message":"x"}}"#);
    let (_, e2) = convert_tencent_post_response(r#"{"id":"1"}"#.to_string());
    assert!(!e2);
}

#[test]
fn poll_pacing() {
    assert_eq!(poll_wait_before_query(0, 0, 100_000), Some(5));
    assert_eq!(poll_wait_before_query(1, 0, 100_000), Some(5));
    assert_eq!(poll_wait_before_query(2, 0, 100_000), Some(4));
    assert_eq!(poll_wait_before_query(5, 0, 100_000), Some(1));
    assert_eq!(poll_wait_before_query(40, 0, 100_000), Some(1));
    assert_eq!(poll_wait_before_query(1, 96_000, 100_000), None);
    assert_eq!(poll_wait_before_query(1, 95_000, 100_000), Some(5));
}

#[test]
fn sql_filter_and_fail_tag() {
    assert_eq!(
        pending_freeze_filter("<"),
        "is_completed = 0 AND status_code = 200 AND created_at < CURRENT_TIMESTAMP - INTERVAL '2 days'"
    );
    assert_eq!(format_poll_fail_tag(3, 504, "timeout"), "[POLL_FAIL:3:504] timeout");
}

use tokensbyte::task::extract_task_id;

#[test]
fn task_id_needs_json_and_an_id() {
    assert_eq!(extract_task_id("{\"id\":\"t\"}", "t".to_string()).as_deref(), Some("t"));
    assert_eq!(extract_task_id("not json", "t".to_string()), None);
    assert_eq!(extract_task_id("{}", String::new()), None);
}

#[test]
fn requested_response_format() {
    assert_eq!(request_response_format(r#"{"response_format":"b64_json"}"#), Some("b64_json".to_string()));
    assert_eq!(request_response_format(r#"{"response_format":1}"#), None);
    assert_eq!(request_response_format("not json"), None);
}

#[test]
fn jimeng_poll_context() {
    assert_eq!(
        build_jimeng_poll_ctx("jimeng_v30", "up", "", r#"{"jimeng_poll":{"a":1}}"#),
        Some(("up".to_string(), r#"{"a":1}"#.to_string()))
    );
    assert_eq!(build_jimeng_poll_ctx("jimeng_x", "", "", "{}"), Some((String::new(), String::new())));
    assert_eq!(build_jimeng_poll_ctx("jimeng_x", "", "req", "{}"), Some((String::new(), "req".to_string())));
    assert_eq!(build_jimeng_poll_ctx("kling", "up", "req", "{}"), None);
}

#[test]
fn poll_answers_from_logs() {
    // unfinished and upstream polling allowed
    assert_eq!(log_poll_route(false, true, true, 200, true, false, false, false, "视频"), Upstream);
    // finished badly with nothing kept
    assert_eq!(log_poll_route(true, true, false, 500, false, false, false, false, "视频"), FailedWithoutBody);
    assert_eq!(log_poll_route(true, false, false, 200, false, false, false, false, "视频"), Upstream);
    // unfinished without a status
    assert_eq!(log_poll_route(false, false, true, 200, false, false, false, false, "视频"), Upstream);
    // unfinished cascade
    assert_eq!(log_poll_route(false, false, true, 200, true, false, true, false, "视频"), CascadeProcessing);
    // finished cascade
    assert_eq!(log_poll_route(true, false, true, 200, true, true, true, true, "视频"), CascadeFinished { succeeded: true });
    assert_eq!(log_poll_route(true, false, true, 200, true, true, true, false, "视频"), CascadeFinished { succeeded: false });
    // plain kept responses
    assert_eq!(log_poll_route(true, false, true, 400, true, false, false, false, "图片生成"), Formatted { failed: true, image: true });
    assert_eq!(log_poll_route(false, false, true, 200, true, false, false, false, "视频"), Formatted { failed: false, image: false });
}

#[test]
fn live_poll_plans() {
    let p = task_status_plan(true, r#"{"id":"x"}"#, "succeeded", false, "视频", false);
    assert_eq!(p.stage, 1);
    assert_eq!(p.reply, TaskReply::SubmitStage2);
    assert_eq!(p.record, TaskRecord::Untouched);
    let p = task_status_plan(true, r#"{"stage2":{"id":"y"}}"#, "succeeded", false, "视频", true);
    assert_eq!((p.stage, p.s2_finish, p.combine, p.scrub_tag), (2, true, true, true));
    assert_eq!(p.record, TaskRecord::Succeeded);
    assert_eq!(p.reply, TaskReply::CascadeSucceeded);
    let p = task_status_plan(true, r#"{"stage2":{}}"#, "succeeded", false, "视频", false);
    assert_eq!(p.reply, TaskReply::CascadeNoOutput);
    let p = task_status_plan(true, r#"{"stage2":{}}"#, "failed", false, "视频", false);
    assert_eq!((p.record, p.reply), (TaskRecord::Failed { cascade_s2: true }, TaskReply::Failed));
    let p = task_status_plan(true, r#"{"stage2":{}}"#, "running", false, "视频", false);
    assert_eq!((p.record, p.reply, p.scrub_tag), (TaskRecord::Open { combined: true }, TaskReply::CascadeProcessing, false));
    let p = task_status_plan(true, "{}", "running", false, "视频", false);
    assert_eq!((p.stage, p.force_task_id), (1, true));
    let p = task_status_plan(false, r#"{"stage2":{}}"#, "failed", true, "图片", false);
    assert_eq!((p.stage, p.reply, p.align_images), (0, TaskReply::TencentBody { failed: true }, true));
    let p = task_status_plan(false, "", "succeeded", false, "聊天", false);
    assert_eq!((p.reply, p.persist_media), (TaskReply::Formatted { failed: false }, true));
}

#[test]
fn background_poll_steps() {
    assert_eq!(task_poll_step(true, "{}", "succeeded", false, "视频", ""), TaskPollAction::SubmitStage2);
    assert_eq!(task_poll_step(false, "{}", "queued", false, "视频", ""), TaskPollAction::Pending);
    assert_eq!(
        task_poll_step(true, r#"{"stage2":{}}"#, "failed", true, "视频增强", r#"{"cb":"https://c/cb"}"#),
        TaskPollAction::Settle {
            succeeded: false,
            stage: 2,
            force_task_id: false,
            tencent: Some(TencentCategory::Video),
            callback: Some("https://c/cb".to_string()),
            align_images: false,
        }
    );
    assert_eq!(
        task_poll_step(false, "", "succeeded", true, "图片", r#"{"cb":"https://c/cb"}"#),
        TaskPollAction::Settle {
            succeeded: true,
            stage: 0,
            force_task_id: false,
            tencent: Some(TencentCategory::Image),
            callback: None,
            align_images: true,
        }
    );
}

#[test]
fn poll_fail_tags_read_back() {
    assert_eq!(parse_poll_fail_meta(None), (0, None));
    assert_eq!(parse_poll_fail_meta(Some("other")), (0, None));
    assert_eq!(parse_poll_fail_meta(Some("[POLL_FAIL:3] x")), (3, None));
    assert_eq!(parse_poll_fail_meta(Some("[POLL_FAIL:4:503] upstream")), (4, Some(503)));
    assert_eq!(parse_poll_fail_meta(Some("[POLL_FAIL:x:70000] y")), (0, None));
    assert_eq!(parse_poll_fail_meta(Some("[POLL_FAIL:7")), (0, None));
    let tag = format_poll_fail_tag(12, 429, "slow");
    assert_eq!(parse_poll_fail_meta(Some(&tag)), (12, Some(429)));
}
