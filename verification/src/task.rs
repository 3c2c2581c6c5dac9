//! Asynchronous task relay: polling options and pacing, entry paths per
//! category, poll-failure tags and the plugin model behind a task.
use vstd::prelude::*;
use crate::json::{
    json_has_pointer, json_pointer_present, json_pointer_raw, json_pointer_raw_at, json_pointer_str, json_pointer_text,
};
use crate::text::{
    chars_of, contains, dec_string, push_u64, starts_with, str_contains, str_eq, str_starts_with, string_append,
    to_owned_string,
};

verus! {

/// Consecutive poll failures after which a task is given up.
pub const POLL_FAIL_LIMIT: u32 = 15;

/// How far back unfinished tasks are still polled actively.
pub const POLL_ACTIVE_INTERVAL: &'static str = "2 days";

/// Optional parameters of a task poll.
#[derive(Clone, Copy)]
pub struct PollTaskOpts<'a> {
    pub model: &'a str,
    pub category: &'a str,
    pub timeout_secs: u64,
    /// `(upstream request, client request)` for vendors that need both.
    pub jimeng_ctx: Option<(&'a str, &'a str)>,
}

impl<'a> Default for PollTaskOpts<'a> {
    fn default() -> (r: Self)
        ensures
            r.model@ == ""@,
            r.category@ == ""@,
            r.timeout_secs == 300,
            r.jimeng_ctx is None,
    {
        PollTaskOpts { model: "", category: "", timeout_secs: 300, jimeng_ctx: None }
    }
}

/// The default entry path of a category.
pub open spec fn entry_path_model(category: Seq<char>) -> Seq<char> {
    if category == "视频"@ || category == "视频增强"@ {
        "/v1/video/generations"@
    } else if category == "图片"@ {
        "/v1/images/generations"@
    } else {
        "/v1/tasks"@
    }
}

/// The default entry path of a task category.
pub fn category_to_entry_path(category: &str) -> (r: &'static str)
    ensures
        r@ == entry_path_model(category@),
{
    if str_eq(category, "视频") || str_eq(category, "视频增强") {
        "/v1/video/generations"
    } else if str_eq(category, "图片") {
        "/v1/images/generations"
    } else {
        "/v1/tasks"
    }
}

/// A non-empty category as a type hint for model selection and billing.
pub fn category_hint(category: &str) -> (r: Option<&str>)
    ensures
        r == (if category@.len() > 0 {
            Some(category)
        } else {
            None
        }),
{
    if category.is_empty() {
        None
    } else {
        Some(category)
    }
}

/// The model a plugin tag routes to: `actual_model` of a `happyhorse` tag.
pub open spec fn plugin_model(tag: Seq<char>) -> Option<Seq<char>> {
    if !contains(tag, "happyhorse"@) {
        None
    } else {
        json_pointer_text(tag, "/actual_model"@)
    }
}

/// The actual model named by a plugin tag, for the plugins that name one.
pub fn resolve_plugin_model(plugin_tag: &str) -> (r: Option<String>)
    ensures
        r.deep_view() == plugin_model(plugin_tag@),
{
    if !str_contains(plugin_tag, "happyhorse") {
        return None;
    }
    json_pointer_str(plugin_tag, "/actual_model")
}

/// The asynchronous task id of a submission response: `None` when the
/// response is not JSON or the id the response formatter extracts from it
/// (`formatted_id`) is empty.
pub fn extract_task_id(response: &str, formatted_id: String) -> (r: Option<String>)
    ensures
        r.deep_view() == (if json_pointer_present(response@, ""@) && formatted_id@.len() > 0 {
            Some(formatted_id@)
        } else {
            None::<Seq<char>>
        }),
{
    if !json_has_pointer(response, "") {
        return None;
    }
    if formatted_id.as_str().is_empty() {
        None
    } else {
        Some(formatted_id)
    }
}

/// A formatted vendor response and whether it reports an error (it holds
/// an `"error":` member).
pub fn convert_tencent_post_response(formatted: String) -> (r: (String, bool))
    ensures
        r.0@ == formatted@,
        r.1 == contains(formatted@, "\"error\":"@),
{
    let is_error = str_contains(formatted.as_str(), "\"error\":");
    (formatted, is_error)
}

/// Seconds to wait before poll number `attempt` (counting from 1): 5, 4, 3,
/// 2, then 1 for every later poll.
pub open spec fn poll_delay_secs(attempt: u32) -> u64 {
    let a: int = if attempt >= 1 {
        attempt as int
    } else {
        1
    };
    if 6 - a >= 1 {
        (6 - a) as u64
    } else {
        1
    }
}

/// The wait before poll number `attempt`, in seconds, when it ends by the
/// deadline; `None` when waiting would pass the deadline (times in ms).
pub fn poll_wait_before_query(attempt: u32, now_ms: u64, deadline_ms: u64) -> (r: Option<u64>)
    requires
        now_ms + 5000 <= u64::MAX,
    ensures
        r == (if now_ms + poll_delay_secs(attempt) * 1000 > deadline_ms {
            None
        } else {
            Some(poll_delay_secs(attempt))
        }),
{
    let a: u64 = if attempt >= 1 {
        attempt as u64
    } else {
        1
    };
    let d: u64 = if a < 6 {
        6 - a
    } else {
        0
    };
    let delay: u64 = if d >= 1 {
        d
    } else {
        1
    };
    if now_ms + delay * 1000 > deadline_ms {
        None
    } else {
        Some(delay)
    }
}

/// The SQL filter for unfinished frozen tasks created `cmp` the active
/// polling window.
pub fn pending_freeze_filter(cmp: &str) -> (r: String)
    ensures
        r@ == "is_completed = 0 AND status_code = 200 AND created_at "@ + cmp@
            + " CURRENT_TIMESTAMP - INTERVAL '"@ + POLL_ACTIVE_INTERVAL@ + "'"@,
{
    let mut s = to_owned_string("is_completed = 0 AND status_code = 200 AND created_at ");
    string_append(&mut s, cmp);
    string_append(&mut s, " CURRENT_TIMESTAMP - INTERVAL '");
    string_append(&mut s, POLL_ACTIVE_INTERVAL);
    string_append(&mut s, "'");
    s
}

/// The poll-failure tag kept in a task's error message:
/// `[POLL_FAIL:count:status] msg`.
pub fn format_poll_fail_tag(count: u32, status: u16, msg: &str) -> (r: String)
    ensures
        r@ == "[POLL_FAIL:"@ + dec_string(count as nat) + ":"@ + dec_string(status as nat) + "] "@
            + msg@,
{
    let mut s = to_owned_string("[POLL_FAIL:");
    push_u64(&mut s, count as u64);
    string_append(&mut s, ":");
    push_u64(&mut s, status as u64);
    string_append(&mut s, "] ");
    string_append(&mut s, msg);
    s
}


/// The prefix of a poll-failure tag.
pub open spec fn poll_fail_prefix() -> Seq<char> {
    "[POLL_FAIL:"@
}

/// The count of a tag's first field: a `u32`, else 0.
pub open spec fn tag_count_model(first: Seq<char>) -> u32 {
    match crate::text::parse_unsigned(first, u32::MAX as nat) {
        Some(n) => n as u32,
        None => 0u32,
    }
}

/// The status in the text after a tag's first `:`: its first field when
/// that is a `u16`.
pub open spec fn tag_status_model(after: Seq<char>) -> Option<u16> {
    let second = match crate::text::split_once_model(after, ':') {
        Some((x, _)) => x,
        None => after,
    };
    match crate::text::parse_unsigned(second, 65535) {
        Some(n) => Some(n as u16),
        None => None,
    }
}

/// The (count, status) of the inside of a tag, `count[:status[:...]]`.
pub open spec fn tag_meta_model(tag: Seq<char>) -> (u32, Option<u16>) {
    match crate::text::split_once_model(tag, ':') {
        Some((a, b)) => (tag_count_model(a), tag_status_model(b)),
        None => (tag_count_model(tag), None),
    }
}

/// The (count, status) of a poll-failure tag `[POLL_FAIL:count]` or
/// `[POLL_FAIL:count:status]` at the start of an error message: a count
/// that is not a `u32` counts as 0; the status is `None` when the tag has
/// none or it is not a `u16` (the caller then uses 502), and the whole
/// result is `(0, None)` when the message has no complete tag.
pub open spec fn poll_fail_meta_model(m: Option<Seq<char>>) -> (u32, Option<u16>) {
    match m {
        None => (0u32, None),
        Some(t) => if !starts_with(t, poll_fail_prefix()) {
            (0u32, None)
        } else {
            match crate::text::split_once_model(t.subrange(11, t.len() as int), ']') {
                None => (0u32, None),
                Some((tag, _)) => tag_meta_model(tag),
            }
        },
    }
}

fn tag_count(first: &[char]) -> (r: u32)
    ensures
        r == tag_count_model(first@),
{
    match crate::text::parse_unsigned_chars(first, 0xFFFF_FFFF) {
        Some(n) => n as u32,
        None => 0,
    }
}

fn tag_status(after: &[char]) -> (r: Option<u16>)
    ensures
        r == tag_status_model(after@),
{
    let second = match crate::text::split_once_at(after, ':') {
        Some((x, _)) => x,
        None => crate::text::slice_range(after, 0, after.len()),
    };
    assert(after@.subrange(0, after@.len() as int) =~= after@);
    match crate::text::parse_unsigned_chars(second.as_slice(), 65535) {
        Some(n) => Some(n as u16),
        None => None,
    }
}

fn tag_meta(tag: &[char]) -> (r: (u32, Option<u16>))
    ensures
        r == tag_meta_model(tag@),
{
    match crate::text::split_once_at(tag, ':') {
        Some((a, b)) => (tag_count(a.as_slice()), tag_status(b.as_slice())),
        None => (tag_count(tag), None),
    }
}

/// Reads a task's poll-failure tag (see [`poll_fail_meta_model`]).
pub fn parse_poll_fail_meta(error_message: Option<&str>) -> (r: (u32, Option<u16>))
    ensures
        r == poll_fail_meta_model(
            match error_message {
                Some(m) => Some(m@),
                None => None,
            },
        ),
{
    let m = match error_message {
        Some(m) => m,
        None => return (0, None),
    };
    let v = chars_of(m);
    let p = chars_of("[POLL_FAIL:");
    proof {
        reveal_strlit("[POLL_FAIL:");
        assert(p@.len() == 11);
    }
    if !crate::text::chars_starts_with(v.as_slice(), p.as_slice()) {
        return (0, None);
    }
    let rest = crate::text::slice_range(v.as_slice(), 11, v.len());
    match crate::text::split_once_at(rest.as_slice(), ']') {
        Some((t, _)) => tag_meta(t.as_slice()),
        None => (0, None),
    }
}

/// The `response_format` a request asked for: its string member of that
/// name, `None` when the request does not parse or states none.
pub fn request_response_format(request_content: &str) -> (r: Option<String>)
    ensures
        r.deep_view() == json_pointer_text(request_content@, "/response_format"@),
{
    json_pointer_str(request_content, "/response_format")
}


/// The (upstream request, request) pair a Jimeng task is polled with: only
/// for `jimeng_` targets; a log without the request falls back to the
/// `jimeng_poll` value kept in the plugin tag, printed as JSON (empty when
/// there is none).
pub open spec fn jimeng_poll_ctx_model(
    target_type: Seq<char>,
    upstream_req: Seq<char>,
    request_content: Seq<char>,
    plugin_tag: Seq<char>,
) -> Option<(Seq<char>, Seq<char>)> {
    if !starts_with(target_type, "jimeng_"@) {
        None
    } else if request_content.len() == 0 {
        Some(
            (
                upstream_req,
                match json_pointer_raw_at(plugin_tag, "/jimeng_poll"@) {
                    Some(t) => t,
                    None => ""@,
                },
            ),
        )
    } else {
        Some((upstream_req, request_content))
    }
}

/// The Jimeng poll context of a logged task (see
/// [`jimeng_poll_ctx_model`]).
pub fn build_jimeng_poll_ctx(
    target_type: &str,
    log_upstream_req: &str,
    log_request_content: &str,
    plugin_tag: &str,
) -> (r: Option<(String, String)>)
    ensures
        r.deep_view() == jimeng_poll_ctx_model(target_type@, log_upstream_req@, log_request_content@, plugin_tag@),
{
    if !str_starts_with(target_type, "jimeng_") {
        return None;
    }
    let req = if log_request_content.is_empty() {
        match json_pointer_raw(plugin_tag, "/jimeng_poll") {
            Some(t) => t,
            None => {
                proof {
                    reveal_strlit("");
                }
                to_owned_string("")
            },
        }
    } else {
        to_owned_string(log_request_content)
    };
    Some((to_owned_string(log_upstream_req), req))
}


// ───────────────────────── answering a poll from the log ─────────────────────────

/// How a client's poll of a logged task is answered.
#[derive(Debug, PartialEq, Eq, Structural)]
pub enum LogPollRoute {
    /// The upstream is asked.
    Upstream,
    /// The task is answered as failed (`已失败`): it finished unsuccessfully
    /// and nothing was kept of its response.
    FailedWithoutBody,
    /// An unfinished cascade: stage one's acknowledgement is answered as
    /// still processing.
    CascadeProcessing,
    /// A finished cascade: answered with stage two's output when it
    /// succeeded, else as failed with stage two's error.
    CascadeFinished { succeeded: bool },
    /// The kept response, formatted; made a failure when the task did not
    /// end with 200, and its image format aligned for image tasks.
    Formatted { failed: bool, image: bool },
}

/// How a poll is answered from a log: `completed` whether the task
/// finished, `manual_poll_upstream` whether unfinished tasks are polled
/// upstream, `cached_object` whether the kept response is a non-empty JSON
/// object, `has_status` whether it states a status, `is_cascade` whether it
/// holds both cascade stages, `cascade_tag` whether the plugin tag has
/// cascade settings, `s2_has_urls` whether stage two's response has output
/// URLs, `category` the task's category.
pub open spec fn log_poll_model(
    completed: bool,
    manual_poll_upstream: bool,
    cached_object: bool,
    status_code: i32,
    has_status: bool,
    is_cascade: bool,
    cascade_tag: bool,
    s2_has_urls: bool,
    category: Seq<char>,
) -> LogPollRoute {
    if !completed && manual_poll_upstream {
        LogPollRoute::Upstream
    } else if !cached_object {
        if completed && status_code != 200 {
            LogPollRoute::FailedWithoutBody
        } else {
            LogPollRoute::Upstream
        }
    } else if !completed && !has_status {
        LogPollRoute::Upstream
    } else if !completed && (is_cascade || cascade_tag) {
        LogPollRoute::CascadeProcessing
    } else if is_cascade {
        LogPollRoute::CascadeFinished { succeeded: status_code == 200 && s2_has_urls }
    } else {
        LogPollRoute::Formatted { failed: status_code != 200, image: contains(category, "图片"@) }
    }
}

/// Decides how a poll is answered from the task's log (see
/// [`log_poll_model`]).
pub fn log_poll_route(
    completed: bool,
    manual_poll_upstream: bool,
    cached_object: bool,
    status_code: i32,
    has_status: bool,
    is_cascade: bool,
    cascade_tag: bool,
    s2_has_urls: bool,
    category: &str,
) -> (r: LogPollRoute)
    ensures
        r == log_poll_model(
            completed,
            manual_poll_upstream,
            cached_object,
            status_code,
            has_status,
            is_cascade,
            cascade_tag,
            s2_has_urls,
            category@,
        ),
{
    if !completed && manual_poll_upstream {
        return LogPollRoute::Upstream;
    }
    if !cached_object {
        if completed && status_code != 200 {
            return LogPollRoute::FailedWithoutBody;
        }
        return LogPollRoute::Upstream;
    }
    if !completed && !has_status {
        return LogPollRoute::Upstream;
    }
    if !completed && (is_cascade || cascade_tag) {
        return LogPollRoute::CascadeProcessing;
    }
    if is_cascade {
        return LogPollRoute::CascadeFinished { succeeded: status_code == 200 && s2_has_urls };
    }
    LogPollRoute::Formatted { failed: status_code != 200, image: str_contains(category, "图片") }
}


// ───────────────────────── a live poll's outcome ─────────────────────────

/// The cascade stage of a task from its logged submit response (see
/// [`crate::cascade::cascade_stage_num`]).
pub open spec fn stage_model(is_cascade: bool, post_response: Seq<char>) -> u8 {
    if !is_cascade {
        0u8
    } else if json_pointer_present(post_response, "/stage2"@) {
        2u8
    } else {
        1u8
    }
}

/// How the log of a polled task is written.
#[derive(Debug, PartialEq, Eq, Structural)]
pub enum TaskRecord {
    /// Stage one succeeded: nothing is written here; stage two is submitted.
    Untouched,
    /// Settled as a success with the stored body.
    Succeeded,
    /// Settled as a failure; a failed stage two is written with both stages.
    Failed { cascade_s2: bool },
    /// Still running: the latest body is kept (both stages for stage two).
    Open { combined: bool },
}

/// What the client is answered for a live poll.
#[derive(Debug, PartialEq, Eq, Structural)]
pub enum TaskReply {
    /// Stage one succeeded: stage two is submitted and the client is told
    /// the task is still processing (or failed, when the submission fails).
    SubmitStage2,
    /// A finished cascade with output: stage one shown with stage two's
    /// output.
    CascadeSucceeded,
    /// A finished cascade whose stage two has no output: failed with stage
    /// two's error.
    CascadeNoOutput,
    /// Failed, with the error of the stored body.
    Failed,
    /// Stage two still running: stage one's response shown as processing.
    CascadeProcessing,
    /// The stored (Tencent, already converted) body as it is; failed when
    /// the task failed.
    TencentBody { failed: bool },
    /// The stored body in the client's format; made a failure when the task
    /// failed.
    Formatted { failed: bool },
}

/// The steps of answering a live poll of a task.
#[derive(Debug, PartialEq, Eq, Structural)]
pub struct TaskStatusPlan {
    /// The cascade stage (0 outside a cascade).
    pub stage: u8,
    /// The stored body carries the client's task id (cascade stage one).
    pub force_task_id: bool,
    /// Stage one's response is read from the log (stage two).
    pub s1_from_log: bool,
    /// Stage two succeeded: its last frame is taken and stage one's usage
    /// scaled before anything is stored.
    pub s2_finish: bool,
    /// Media of a success is copied to object storage (when the channel
    /// keeps it).
    pub persist_media: bool,
    /// The stored body combines both stages.
    pub combine: bool,
    /// Secrets are scrubbed from the plugin tag (terminal states).
    pub scrub_tag: bool,
    pub record: TaskRecord,
    pub reply: TaskReply,
    /// The reply's image format is aligned with the request (image tasks).
    pub align_images: bool,
}

/// The steps of answering a live poll: `post_response` is the logged submit
/// response, `status` the normalised upstream status (`succeeded`, `failed`
/// or anything else while running), `is_tencent` whether the upstream is
/// Tencent VOD, `s2_has_urls` whether stage two's stored response has
/// output URLs.
pub open spec fn task_status_model(
    is_cascade: bool,
    post_response: Seq<char>,
    status: Seq<char>,
    is_tencent: bool,
    category: Seq<char>,
    s2_has_urls: bool,
) -> TaskStatusPlan {
    let stage = stage_model(is_cascade, post_response);
    let ok = status == "succeeded"@;
    let failed = status == "failed"@;
    if stage == 1 && ok {
        TaskStatusPlan {
            stage,
            force_task_id: false,
            s1_from_log: false,
            s2_finish: false,
            persist_media: false,
            combine: false,
            scrub_tag: false,
            record: TaskRecord::Untouched,
            reply: TaskReply::SubmitStage2,
            align_images: false,
        }
    } else {
        TaskStatusPlan {
            stage,
            force_task_id: is_cascade && stage == 1,
            s1_from_log: stage == 2,
            s2_finish: stage == 2 && ok,
            persist_media: ok && stage != 1,
            combine: stage == 2 && ok,
            scrub_tag: ok || failed,
            record: if ok {
                TaskRecord::Succeeded
            } else if failed {
                TaskRecord::Failed { cascade_s2: stage == 2 }
            } else {
                TaskRecord::Open { combined: stage == 2 }
            },
            reply: if stage == 2 && ok {
                if s2_has_urls {
                    TaskReply::CascadeSucceeded
                } else {
                    TaskReply::CascadeNoOutput
                }
            } else if stage == 2 && failed {
                TaskReply::Failed
            } else if stage == 2 {
                TaskReply::CascadeProcessing
            } else if is_tencent {
                TaskReply::TencentBody { failed }
            } else {
                TaskReply::Formatted { failed }
            },
            align_images: contains(category, "图片"@),
        }
    }
}

/// The steps of answering a live poll of a task (see
/// [`task_status_model`]); the stage is read from the logged submit
/// response.
pub fn task_status_plan(
    is_cascade: bool,
    post_response: &str,
    status: &str,
    is_tencent: bool,
    category: &str,
    s2_has_urls: bool,
) -> (r: TaskStatusPlan)
    ensures
        r == task_status_model(is_cascade, post_response@, status@, is_tencent, category@, s2_has_urls),
{
    let stage = crate::cascade::cascade_stage_num(is_cascade, post_response);
    let ok = str_eq(status, "succeeded");
    let failed = str_eq(status, "failed");
    if stage == 1 && ok {
        return TaskStatusPlan {
            stage,
            force_task_id: false,
            s1_from_log: false,
            s2_finish: false,
            persist_media: false,
            combine: false,
            scrub_tag: false,
            record: TaskRecord::Untouched,
            reply: TaskReply::SubmitStage2,
            align_images: false,
        };
    }
    let record = if ok {
        TaskRecord::Succeeded
    } else if failed {
        TaskRecord::Failed { cascade_s2: stage == 2 }
    } else {
        TaskRecord::Open { combined: stage == 2 }
    };
    let reply = if stage == 2 && ok {
        if s2_has_urls {
            TaskReply::CascadeSucceeded
        } else {
            TaskReply::CascadeNoOutput
        }
    } else if stage == 2 && failed {
        TaskReply::Failed
    } else if stage == 2 {
        TaskReply::CascadeProcessing
    } else if is_tencent {
        TaskReply::TencentBody { failed }
    } else {
        TaskReply::Formatted { failed }
    };
    TaskStatusPlan {
        stage,
        force_task_id: is_cascade && stage == 1,
        s1_from_log: stage == 2,
        s2_finish: stage == 2 && ok,
        persist_media: ok && stage != 1,
        combine: stage == 2 && ok,
        scrub_tag: ok || failed,
        record,
        reply,
        align_images: str_contains(category, "图片"),
    }
}

// ───────────────────────── a background poll's step ─────────────────────────

/// The category a Tencent body is converted under.
#[derive(Debug, PartialEq, Eq, Structural)]
pub enum TencentCategory {
    Video,
    Image,
}

/// What the background poller does with a task's poll result.
#[derive(Debug, PartialEq, Eq)]
pub enum TaskPollAction {
    /// Stage one succeeded: stage two is submitted.
    SubmitStage2,
    /// Still running: nothing is written.
    Pending,
    /// A terminal state is settled.
    Settle {
        succeeded: bool,
        /// The stage (0 outside a cascade).
        stage: u8,
        /// The stored body carries the client's task id (stage one).
        force_task_id: bool,
        /// A Tencent body is converted under this category; `None` for
        /// other upstreams.
        tencent: Option<TencentCategory>,
        /// Stage two's client callback URL from the plugin tag, notified
        /// with the outcome.
        callback: Option<String>,
        /// The stored image format is aligned (image tasks that succeeded).
        align_images: bool,
    },
}

/// The callback a background poll notifies: stage two's `cb` from the
/// plugin tag.
pub open spec fn poll_callback_model(stage: u8, plugin_tag: Seq<char>) -> Option<Seq<char>> {
    if stage == 2 {
        crate::callback::nonblank_at(plugin_tag, "/cb"@)
    } else {
        None
    }
}

/// The background poller's step (see [`stage_model`]): stage one's success
/// submits stage two; a state other than `succeeded` / `failed` waits; a
/// terminal state is settled: stage one's body carries the client's task
/// id, a Tencent body is converted as video (category with 视频) or image,
/// stage two notifies the client's callback, a successful image task has
/// its format aligned.
pub fn task_poll_step(
    is_cascade: bool,
    post_response: &str,
    status: &str,
    is_tencent: bool,
    category: &str,
    plugin_tag: &str,
) -> (r: TaskPollAction)
    ensures
        ({
            let stage = stage_model(is_cascade, post_response@);
            let ok = status@ == "succeeded"@;
            let failed = status@ == "failed"@;
            if stage == 1 && ok {
                r is SubmitStage2
            } else if !ok && !failed {
                r is Pending
            } else {
                r matches TaskPollAction::Settle { succeeded, stage: st, force_task_id, tencent, callback, align_images }
                    && succeeded == ok && st == stage && force_task_id == (is_cascade && stage == 1) && tencent == (
                if is_tencent {
                    Some(
                        if contains(category@, "视频"@) {
                            TencentCategory::Video
                        } else {
                            TencentCategory::Image
                        },
                    )
                } else {
                    None
                }) && callback.deep_view() == poll_callback_model(stage, plugin_tag@) && align_images == (ok
                    && contains(category@, "图片"@))
            }
        }),
{
    let stage = crate::cascade::cascade_stage_num(is_cascade, post_response);
    let ok = str_eq(status, "succeeded");
    let failed = str_eq(status, "failed");
    if stage == 1 && ok {
        return TaskPollAction::SubmitStage2;
    }
    if !ok && !failed {
        return TaskPollAction::Pending;
    }
    let tencent = if is_tencent {
        Some(
            if str_contains(category, "视频") {
                TencentCategory::Video
            } else {
                TencentCategory::Image
            },
        )
    } else {
        None
    };
    let callback = if stage == 2 {
        crate::callback::cb_from_plugin_tag(plugin_tag)
    } else {
        None
    };
    TaskPollAction::Settle {
        succeeded: ok,
        stage,
        force_task_id: is_cascade && stage == 1,
        tencent,
        callback,
        align_images: ok && str_contains(category, "图片"),
    }
}

} // verus!
