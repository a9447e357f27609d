//! The task endpoints' own rules: the `since` cursor of the task list, who
//! may cancel, retry or answer a task and how, and the small request checks
//! the account endpoints share.

use vstd::prelude::*;
use crate::errors_store::{task_state_error_response, task_state_error_status, task_state_error_text, TaskStateError};
use crate::response::{error_response, is_error_response, ApiResponse};
use crate::target::{query_param, target_query_param};
use crate::json::{json_quoted, json_string};
use crate::routes::ApiRoute;
use crate::tasks::{
    operation_kind_debug_name, operation_kind_debug_text, phase_is_terminal, ServiceTaskPhase,
    TaskOperationKind, TaskReplaySafety, TaskUserInputKind,
};
use crate::text::{
    concat2, concat3, concat5, decimal, has_substring, i64_decimal, is_empty_text, is_white_space,
    join, joined, lemma_decimal_injective, lemma_decimal_len, owned, signed_decimal, starts_with,
    text_eq, trim, trimmed, usize_decimal, views,
};

verus! {

// ---------------------------------------------------------------------------
// The `since` cursor

/// The characters are all ASCII digits.
pub open spec fn all_digits(s: Seq<char>) -> bool {
    forall|i: int| 0 <= i < s.len() ==> '0' <= #[trigger] s[i] && s[i] <= '9'
}

/// The value of a string of decimal digits.
pub open spec fn digits_value(s: Seq<char>) -> nat
    decreases s.len(),
{
    if s.len() == 0 {
        0
    } else {
        digits_value(s.drop_last()) * 10 + (s.last() as nat - 48) as nat
    }
}

/// What `u64::from_str` accepts: an optional `+`, then at least one digit,
/// with a value that fits.
pub open spec fn parse_u64(s: Seq<char>) -> Option<u64> {
    let d = if s.len() > 0 && s[0] == '+' {
        s.drop_first()
    } else {
        s
    };
    if d.len() > 0 && all_digits(d) && digits_value(d) <= u64::MAX {
        Some(digits_value(d) as u64)
    } else {
        None
    }
}

proof fn lemma_digits_value_grows(s: Seq<char>, i: int)
    requires
        0 <= i <= s.len(),
        all_digits(s),
    ensures
        digits_value(s.subrange(0, i)) <= digits_value(s),
    decreases s.len() - i,
{
    if i < s.len() {
        lemma_digits_value_grows(s, i + 1);
        let t = s.subrange(0, i + 1);
        assert(t.drop_last() =~= s.subrange(0, i));
        assert('0' <= s[i] && s[i] <= '9');
    } else {
        assert(s.subrange(0, i) =~= s);
    }
}

/// `s` read as a `u64` the way `str::parse::<u64>` reads it.
pub fn parse_u64_text(s: &str) -> (r: Option<u64>)
    ensures
        r == parse_u64(s@),
{
    let v = crate::text::chars_of(s);
    let n = v.len();
    let start: usize = if n > 0 && v[0] == '+' {
        1
    } else {
        0
    };
    let ghost d = if s@.len() > 0 && s@[0] == '+' {
        s@.drop_first()
    } else {
        s@
    };
    assert(d =~= s@.subrange(start as int, n as int));
    assert(parse_u64(s@) == (if d.len() > 0 && all_digits(d) && digits_value(d) <= u64::MAX {
        Some(digits_value(d) as u64)
    } else {
        None
    }));
    if start == n {
        return None;
    }
    let mut value: u64 = 0;
    let mut i: usize = start;
    while i < n
        invariant
            v@ == s@,
            n == v@.len(),
            start <= i <= n,
            d == s@.subrange(start as int, n as int),
            d.len() > 0,
            parse_u64(s@) == (if d.len() > 0 && all_digits(d) && digits_value(d) <= u64::MAX {
                Some(digits_value(d) as u64)
            } else {
                None
            }),
            all_digits(s@.subrange(start as int, i as int)),
            value == digits_value(s@.subrange(start as int, i as int)),
        decreases n - i,
    {
        let c = v[i];
        let ghost pre = s@.subrange(start as int, i as int);
        let ghost next = s@.subrange(start as int, i + 1);
        assert(next.drop_last() =~= pre);
        if !('0' <= c && c <= '9') {
            assert(!all_digits(d)) by {
                assert(d[i - start] == c);
            }
            return None;
        }
        let digit = (c as u32 - 48) as u64;
        let wide: u128 = (value as u128) * 10 + (digit as u128);
        if wide > 0xFFFF_FFFF_FFFF_FFFF {
            proof {
                assert(all_digits(next));
                if all_digits(d) {
                    lemma_digits_value_grows(d, i + 1 - start);
                    assert(d.subrange(0, i + 1 - start) =~= next);
                }
            }
            return None;
        }
        value = wide as u64;
        i = i + 1;
        assert(all_digits(s@.subrange(start as int, i as int)));
    }
    Some(value)
}

/// Which tasks the task list is asked for.
#[derive(Debug, Clone, Copy, PartialEq, Eq)]
pub enum TasksQuery {
    /// Every task.
    All,
    /// The tasks changed after this sequence.
    Since(u64),
    /// The `since` parameter is blank or not a number.
    Invalid,
}

pub open spec fn tasks_query_for(target: Seq<char>) -> TasksQuery {
    match target_query_param(target, "since"@) {
        None => TasksQuery::All,
        Some(v) => if trimmed(v).len() == 0 {
            TasksQuery::Invalid
        } else {
            match parse_u64(trimmed(v)) {
                Some(n) => TasksQuery::Since(n),
                None => TasksQuery::Invalid,
            }
        },
    }
}

/// The task list query of a request target.
pub fn tasks_query(target: &str) -> (r: TasksQuery)
    ensures
        r == tasks_query_for(target@),
{
    match query_param(target, "since") {
        None => TasksQuery::All,
        Some(v) => {
            let t = trim(v.as_str());
            if is_empty_text(t.as_str()) {
                TasksQuery::Invalid
            } else {
                match parse_u64_text(t.as_str()) {
                    Some(n) => TasksQuery::Since(n),
                    None => TasksQuery::Invalid,
                }
            }
        },
    }
}

/// The answer to an unusable `since`.
pub fn invalid_since_response() -> (r: ApiResponse)
    ensures
        is_error_response(r, 400, "invalid since"@),
{
    error_response(400, "invalid since")
}

// ---------------------------------------------------------------------------
// Optional texts and alias lists

/// A text trimmed, when it is not blank.
pub open spec fn normalized_optional(value: Option<String>) -> Option<Seq<char>> {
    match value {
        Some(v) => if trimmed(v@).len() > 0 {
            Some(trimmed(v@))
        } else {
            None
        },
        None => None,
    }
}

pub fn normalized_optional_text(value: Option<String>) -> (r: Option<String>)
    ensures
        match r {
            Some(t) => normalized_optional(value) == Some(t@),
            None => normalized_optional(value) is None,
        },
{
    match value {
        Some(v) => {
            let t = trim(v.as_str());
            if is_empty_text(t.as_str()) {
                None
            } else {
                Some(t)
            }
        },
        None => None,
    }
}

/// The answer to a request with a task id that is blank.
pub fn missing_task_id_response() -> (r: ApiResponse)
    ensures
        is_error_response(r, 400, "missing task_id"@),
{
    error_response(400, "missing task_id")
}

/// A batch request's aliases, each once, and its task id.
pub struct ParsedAliasBatchRequest {
    pub aliases: Vec<String>,
    pub task_id: Option<String>,
}

/// No alias occurs twice among the first `j`.
pub open spec fn distinct_upto(aliases: Seq<String>, j: int) -> bool {
    forall|k: int, l: int| 0 <= k < l < j ==> (#[trigger] aliases[k])@ != (#[trigger] aliases[l])@
}

/// The alias at `j` occurred before.
pub open spec fn repeats_earlier(aliases: Seq<String>, j: int) -> bool {
    exists|i: int| 0 <= i < j && (#[trigger] aliases[i])@ == aliases[j]@
}

/// Checks the split aliases of a batch request: at least one, none twice
/// (the error names the first alias met again); the task id is trimmed and
/// dropped when blank.
pub fn parse_alias_batch_parts(aliases: Vec<String>, task_id: Option<String>) -> (r: Result<
    ParsedAliasBatchRequest,
    ApiResponse,
>)
    ensures
        aliases@.len() == 0 ==> (r matches Err(e) && is_error_response(e, 400, "missing aliases"@)),
        aliases@.len() > 0 && distinct_upto(aliases@, aliases@.len() as int) ==> r is Ok,
        r matches Ok(p) ==> {
            &&& distinct_upto(aliases@, aliases@.len() as int)
            &&& p.aliases@ == aliases@
            &&& match p.task_id {
                Some(t) => normalized_optional(task_id) == Some(t@),
                None => normalized_optional(task_id) is None,
            }
        },
        aliases@.len() > 0 ==> (r matches Err(e) ==> exists|j: int|
            0 <= j < aliases@.len() && distinct_upto(aliases@, j) && repeats_earlier(aliases@, j)
                && is_error_response(e, 400, "account alias repeated in input: "@ + (#[trigger] aliases@[j])@)),
{
    if aliases.len() == 0 {
        return Err(error_response(400, "missing aliases"));
    }
    let mut j: usize = 0;
    while j < aliases.len()
        invariant
            j <= aliases@.len(),
            distinct_upto(aliases@, j as int),
        decreases aliases.len() - j,
    {
        let mut i: usize = 0;
        while i < j
            invariant
                i <= j < aliases@.len(),
                distinct_upto(aliases@, j as int),
                forall|k: int| 0 <= k < i ==> (#[trigger] aliases@[k])@ != aliases@[j as int]@,
            decreases j - i,
        {
            if text_eq(aliases[i].as_str(), aliases[j].as_str()) {
                let message = concat2("account alias repeated in input: ", aliases[j].as_str());
                let e = error_response(400, message.as_str());
                assert(repeats_earlier(aliases@, j as int));
                return Err(e);
            }
            i = i + 1;
        }
        assert(distinct_upto(aliases@, j + 1)) by {
            assert forall|k: int, l: int| 0 <= k < l < j + 1 implies (#[trigger] aliases@[k])@ != (#[trigger] aliases@[l])@ by {
                if l == j {
                    assert(aliases@[k]@ != aliases@[j as int]@);
                }
            }
        }
        j = j + 1;
    }
    Ok(ParsedAliasBatchRequest { aliases, task_id: normalized_optional_text(task_id) })
}

/// The trial length a trial-eligibility request defaults to.
pub fn default_trial_eligibility_days() -> (r: u32)
    ensures
        r == 21,
{
    21
}

/// Whether a registration fetches the Git token by default.
pub fn default_auto_fetch_git_token() -> (r: bool)
    ensures
        r,
{
    true
}

// ---------------------------------------------------------------------------
// Cancelling a task

/// The kind of live browser session a cancelled task held.
#[derive(Debug, Clone, Copy, PartialEq, Eq)]
pub enum CancelledBrowserSessionKind {
    Registration,
    AccountBrowser,
}

impl CancelledBrowserSessionKind {
    /// The name of the background job that cleans the session up.
    pub fn job_name(self) -> (r: &'static str)
        ensures
            r@ == match self {
                CancelledBrowserSessionKind::Registration => "registration-session-cancel-cleanup"@,
                CancelledBrowserSessionKind::AccountBrowser => "account-browser-session-cancel-cleanup"@,
            },
    {
        match self {
            CancelledBrowserSessionKind::Registration => "registration-session-cancel-cleanup",
            CancelledBrowserSessionKind::AccountBrowser => "account-browser-session-cancel-cleanup",
        }
    }

    /// The log line written when the cleanup is queued.
    pub fn queued_message(self) -> (r: &'static str)
        ensures
            r@ == match self {
                CancelledBrowserSessionKind::Registration => "注册浏览器会话正在清理"@,
                CancelledBrowserSessionKind::AccountBrowser => "账号浏览器会话正在清理"@,
            },
    {
        match self {
            CancelledBrowserSessionKind::Registration => "注册浏览器会话正在清理",
            CancelledBrowserSessionKind::AccountBrowser => "账号浏览器会话正在清理",
        }
    }

    /// The log line written once the session is cleaned up.
    pub fn cleaned_log_message(self) -> (r: &'static str)
        ensures
            r@ == match self {
                CancelledBrowserSessionKind::Registration =>
                    "Registration browser session cleaned after cancel request"@,
                CancelledBrowserSessionKind::AccountBrowser => "账号浏览器会话已按用户取消请求清理"@,
            },
    {
        match self {
            CancelledBrowserSessionKind::Registration =>
                "Registration browser session cleaned after cancel request",
            CancelledBrowserSessionKind::AccountBrowser => "账号浏览器会话已按用户取消请求清理",
        }
    }

    /// The message the task is cancelled with after the cleanup.
    pub fn cancelled_message(self) -> (r: &'static str)
        ensures
            r@ == match self {
                CancelledBrowserSessionKind::Registration =>
                    "Registration cancelled and browser session cleaned"@,
                CancelledBrowserSessionKind::AccountBrowser => "任务已取消，浏览器会话已清理"@,
            },
    {
        match self {
            CancelledBrowserSessionKind::Registration =>
                "Registration cancelled and browser session cleaned",
            CancelledBrowserSessionKind::AccountBrowser => "任务已取消，浏览器会话已清理",
        }
    }
}

/// One step of the background job that finishes a cancelled task with a
/// live browser session.
#[derive(Debug, Clone, Copy, PartialEq, Eq)]
pub enum CancelCleanupStep {
    /// Close the browser session and remove its profile.
    CleanupSession,
    /// Append the warning to the task's log.
    Log(&'static str),
    /// Cancel the task with the message, which releases its account locks
    /// and registration slot.
    CancelTask(&'static str),
}

/// The steps of the cleanup job of a cancelled task, in order: the session
/// is cleaned up first, and only then is the task cancelled and its locks
/// released.
pub fn cancel_cleanup_steps(kind: CancelledBrowserSessionKind) -> (r: Vec<CancelCleanupStep>)
    ensures
        r@.len() == 3,
        r@[0] == CancelCleanupStep::CleanupSession,
        r@[1] matches CancelCleanupStep::Log(m) && m@ == match kind {
            CancelledBrowserSessionKind::Registration =>
                "Registration browser session cleaned after cancel request"@,
            CancelledBrowserSessionKind::AccountBrowser => "账号浏览器会话已按用户取消请求清理"@,
        },
        r@[2] matches CancelCleanupStep::CancelTask(m) && m@ == match kind {
            CancelledBrowserSessionKind::Registration =>
                "Registration cancelled and browser session cleaned"@,
            CancelledBrowserSessionKind::AccountBrowser => "任务已取消，浏览器会话已清理"@,
        },
        forall|i: int, j: int|
            0 <= i < r@.len() && 0 <= j < r@.len() && r@[i] is CleanupSession && r@[j] is CancelTask ==> i < j,
{
    let mut v: Vec<CancelCleanupStep> = Vec::new();
    v.push(CancelCleanupStep::CleanupSession);
    v.push(CancelCleanupStep::Log(kind.cleaned_log_message()));
    v.push(CancelCleanupStep::CancelTask(kind.cancelled_message()));
    v
}

/// What a cancel request does before asking the task store.
pub enum CancelPrecheck {
    /// The task id is blank.
    MissingTaskId,
    /// The task is already being cancelled: answer 202 with its snapshot.
    AlreadyCancelling,
    /// Ask the store to cancel the task with this (trimmed) id.
    RequestCancel(String),
}

/// What the task store knows of a task that a request names.
#[derive(Debug, Clone, Copy, PartialEq, Eq)]
pub struct TaskPhaseView {
    pub phase: ServiceTaskPhase,
    pub cancel_requested: bool,
}

/// The first step of a cancel request: `existing` is the task as the store
/// knows it (`None` when the store does not know the id).
pub fn cancel_precheck(task_id: &str, existing: Option<TaskPhaseView>) -> (r: CancelPrecheck)
    ensures
        trimmed(task_id@).len() == 0 ==> r is MissingTaskId,
        trimmed(task_id@).len() > 0 && (existing matches Some(t) && t.cancel_requested
            && !phase_is_terminal(t.phase)) ==> r is AlreadyCancelling,
        trimmed(task_id@).len() > 0 && !(existing matches Some(t) && t.cancel_requested
            && !phase_is_terminal(t.phase)) ==> (r matches CancelPrecheck::RequestCancel(id)
            && id@ == trimmed(task_id@)),
{
    let id = trim(task_id);
    if is_empty_text(id.as_str()) {
        return CancelPrecheck::MissingTaskId;
    }
    match existing {
        Some(t) => {
            let terminal = crate::tasks::is_terminal_phase(t.phase);
            if t.cancel_requested && !terminal {
                return CancelPrecheck::AlreadyCancelling;
            }
        },
        None => {},
    }
    CancelPrecheck::RequestCancel(id)
}

/// What follows a cancel request the store accepted.
#[derive(Debug, Clone, Copy, PartialEq, Eq)]
pub enum CancelFollowUp {
    /// Queue the cleanup of the task's live browser session; answer 202.
    CleanupSession(CancelledBrowserSessionKind),
    /// Log that the browser batch will clean up; answer 200.
    WaitForBrowserBatch,
    /// Log and cancel the waiting task at once; answer 200.
    CancelWaiting,
    /// Log the request; answer 200.
    LogCancelRequested,
}

/// The follow-up of an accepted cancel request: a live registration
/// session first, then a live account browser session, then a running
/// browser batch, then a task that waits for the user.
pub fn cancel_follow_up(
    has_registration_session: bool,
    has_account_browser_session: bool,
    active_browser_batch: bool,
    phase: ServiceTaskPhase,
) -> (r: CancelFollowUp)
    ensures
        r == if has_registration_session {
            CancelFollowUp::CleanupSession(CancelledBrowserSessionKind::Registration)
        } else if has_account_browser_session {
            CancelFollowUp::CleanupSession(CancelledBrowserSessionKind::AccountBrowser)
        } else if active_browser_batch {
            CancelFollowUp::WaitForBrowserBatch
        } else if phase == ServiceTaskPhase::WaitingForUser {
            CancelFollowUp::CancelWaiting
        } else {
            CancelFollowUp::LogCancelRequested
        },
{
    if has_registration_session {
        CancelFollowUp::CleanupSession(CancelledBrowserSessionKind::Registration)
    } else if has_account_browser_session {
        CancelFollowUp::CleanupSession(CancelledBrowserSessionKind::AccountBrowser)
    } else if active_browser_batch {
        CancelFollowUp::WaitForBrowserBatch
    } else {
        match phase {
            ServiceTaskPhase::WaitingForUser => CancelFollowUp::CancelWaiting,
            _ => CancelFollowUp::LogCancelRequested,
        }
    }
}

/// The log line of a follow-up that writes one, and for a waiting task the
/// message it is cancelled with.
pub fn cancel_follow_up_messages(f: CancelFollowUp) -> (r: (Option<&'static str>, Option<&'static str>))
    ensures
        f == CancelFollowUp::WaitForBrowserBatch ==> (r.0 matches Some(m) && m@
            == "浏览器批次已收到取消请求，等待各账号会话完成清理"@) && r.1 is None,
        f == CancelFollowUp::CancelWaiting ==> (r.0 matches Some(m) && m@
            == "Waiting task cancelled after user request"@) && (r.1 matches Some(c) && c@
            == "Task cancelled while waiting for user input"@),
        f == CancelFollowUp::LogCancelRequested ==> (r.0 matches Some(m) && m@ == "Cancel requested"@)
            && r.1 is None,
        f is CleanupSession ==> r.0 is None && r.1 is None,
{
    match f {
        CancelFollowUp::WaitForBrowserBatch => (Some("浏览器批次已收到取消请求，等待各账号会话完成清理"), None),
        CancelFollowUp::CancelWaiting => (
            Some("Waiting task cancelled after user request"),
            Some("Task cancelled while waiting for user input"),
        ),
        CancelFollowUp::LogCancelRequested => (Some("Cancel requested"), None),
        CancelFollowUp::CleanupSession(_) => (None, None),
    }
}

// ---------------------------------------------------------------------------
// Answering a waiting task

/// Where an input for a task goes.
pub enum TaskInputRoute {
    /// The task id is blank.
    MissingTaskId,
    /// An input for one item of a batch, which only credentials and captcha
    /// confirmations can be.
    ItemInput { task_id: String, item_id: String },
    UnsupportedItemKind,
    /// The input needs the task's registration browser session, which is
    /// gone.
    RegistrationSessionMissing { task_id: String },
    /// The input needs the task's account browser session, which is gone.
    AccountBrowserSessionMissing { task_id: String },
    /// Submit the input to the task.
    Submit { task_id: String },
}

/// Where an input goes, given the sessions the task still has.
pub fn task_input_route(
    task_id: &str,
    kind: TaskUserInputKind,
    item_id: Option<&str>,
    has_registration_session: bool,
    has_account_browser_session: bool,
) -> (r: TaskInputRoute)
    ensures
        trimmed(task_id@).len() == 0 ==> r is MissingTaskId,
        trimmed(task_id@).len() > 0 ==> ({
            let id = trimmed(task_id@);
            let item = match item_id {
                Some(x) => if trimmed(x@).len() > 0 {
                    Some(trimmed(x@))
                } else {
                    None
                },
                None => None,
            };
            if item is Some {
                if kind == TaskUserInputKind::NewBrowserCredentials || kind
                    == TaskUserInputKind::CaptchaCompleted {
                    r matches TaskInputRoute::ItemInput { task_id: t, item_id: i } && t@ == id
                        && Some(i@) == item
                } else {
                    r is UnsupportedItemKind
                }
            } else if crate::tasks::needs_registration_session(kind) && !has_registration_session
                && !(kind == TaskUserInputKind::CaptchaCompleted && has_account_browser_session) {
                r matches TaskInputRoute::RegistrationSessionMissing { task_id: t } && t@ == id
            } else if kind == TaskUserInputKind::NewBrowserCredentials
                && !has_account_browser_session {
                r matches TaskInputRoute::AccountBrowserSessionMissing { task_id: t } && t@ == id
            } else {
                r matches TaskInputRoute::Submit { task_id: t } && t@ == id
            }
        }),
{
    let id = trim(task_id);
    if is_empty_text(id.as_str()) {
        return TaskInputRoute::MissingTaskId;
    }
    let item = match item_id {
        Some(x) => {
            let t = trim(x);
            if is_empty_text(t.as_str()) {
                None
            } else {
                Some(t)
            }
        },
        None => None,
    };
    match item {
        Some(i) => {
            return match kind {
                TaskUserInputKind::NewBrowserCredentials | TaskUserInputKind::CaptchaCompleted =>
                    TaskInputRoute::ItemInput { task_id: id, item_id: i },
                _ => TaskInputRoute::UnsupportedItemKind,
            };
        },
        None => {},
    }
    let captcha = match kind {
        TaskUserInputKind::CaptchaCompleted => true,
        _ => false,
    };
    if crate::tasks::registration_session_required(kind) && !has_registration_session && !(captcha
        && has_account_browser_session) {
        return TaskInputRoute::RegistrationSessionMissing { task_id: id };
    }
    let browser_credentials = match kind {
        TaskUserInputKind::NewBrowserCredentials => true,
        _ => false,
    };
    if browser_credentials && !has_account_browser_session {
        return TaskInputRoute::AccountBrowserSessionMissing { task_id: id };
    }
    TaskInputRoute::Submit { task_id: id }
}

/// The answer to an input of a kind no batch item takes.
pub fn unsupported_item_kind_response() -> (r: ApiResponse)
    ensures
        is_error_response(r, 400, "unsupported batch item input kind"@),
{
    error_response(400, "unsupported batch item input kind")
}

/// The answer when a task's registration browser session is gone.
pub fn registration_session_missing_response(task_id: &str) -> (r: ApiResponse)
    ensures
        is_error_response(r, 409, "no active registration browser session for task: "@ + task_id@),
{
    let m = concat2("no active registration browser session for task: ", task_id);
    error_response(409, m.as_str())
}

/// The answer when a task's account browser session is gone.
pub fn account_browser_session_missing_response(task_id: &str) -> (r: ApiResponse)
    ensures
        is_error_response(r, 409, "no active account browser session for task: "@ + task_id@),
{
    let m = concat2("no active account browser session for task: ", task_id);
    error_response(409, m.as_str())
}

// ---------------------------------------------------------------------------
// Copying an account secret

/// The alias and field name an account secret request asks for, each a
/// query parameter that must not be blank.
pub fn account_secret_query(target: &str) -> (r: Result<(String, String), ApiResponse>)
    ensures
        ({
            let alias = target_query_param(target@, "alias"@);
            let field = target_query_param(target@, "field"@);
            if !(alias matches Some(a) && trimmed(a).len() > 0) {
                r matches Err(e) && is_error_response(e, 400, "missing alias"@)
            } else if !(field matches Some(f) && trimmed(f).len() > 0) {
                r matches Err(e) && is_error_response(e, 400, "missing account secret field"@)
            } else {
                r matches Ok((a, f)) && Some(a@) == alias && Some(f@) == field
            }
        }),
{
    let alias = match query_param(target, "alias") {
        Some(a) => {
            let t = trim(a.as_str());
            if is_empty_text(t.as_str()) {
                None
            } else {
                Some(a)
            }
        },
        None => None,
    };
    let alias = match alias {
        Some(a) => a,
        None => return Err(error_response(400, "missing alias")),
    };
    let field = match query_param(target, "field") {
        Some(f) => {
            let t = trim(f.as_str());
            if is_empty_text(t.as_str()) {
                None
            } else {
                Some(f)
            }
        },
        None => None,
    };
    match field {
        Some(f) => Ok((alias, f)),
        None => Err(error_response(400, "missing account secret field")),
    }
}

/// The answer to a field name that names no secret.
pub fn unsupported_secret_field_response() -> (r: ApiResponse)
    ensures
        is_error_response(r, 400, "unsupported account secret field"@),
{
    error_response(400, "unsupported account secret field")
}

/// What clearing the finished tasks removed and left.
pub struct TaskClearTerminalReport {
    pub removed_count: usize,
    pub removed_task_ids: Vec<String>,
    pub remaining_count: usize,
}

pub fn clear_terminal_report(removed_task_ids: Vec<String>, remaining_count: usize) -> (r:
    TaskClearTerminalReport)
    ensures
        r.removed_count == removed_task_ids@.len(),
        r.removed_task_ids@ == removed_task_ids@,
        r.remaining_count == remaining_count,
{
    TaskClearTerminalReport { removed_count: removed_task_ids.len(), removed_task_ids, remaining_count }
}

// ---------------------------------------------------------------------------
// Retrying a failed task

/// How a failed task can be replayed.
pub struct RetryDescriptor {
    pub operation_kind: TaskOperationKind,
    pub replay_safety: TaskReplaySafety,
    pub aliases: Vec<String>,
    pub migrate_projects: Option<bool>,
    pub sync_skills: Option<bool>,
}

/// What the store knows of the task to retry.
pub struct RetrySourceView {
    pub phase: ServiceTaskPhase,
    pub resolved: bool,
    pub descriptor: Option<RetryDescriptor>,
}

/// The trimmed id of the task to retry.
pub fn retry_source_id(task_id: &str) -> (r: Result<String, ApiResponse>)
    ensures
        trimmed(task_id@).len() == 0 ==> (r matches Err(e) && is_error_response(e, 400, "missing task_id"@)),
        trimmed(task_id@).len() > 0 ==> (r matches Ok(id) && id@ == trimmed(task_id@)),
{
    let id = trim(task_id);
    if is_empty_text(id.as_str()) {
        Err(missing_task_id_response())
    } else {
        Ok(id)
    }
}

/// Only a failed task that nothing resolved, with a descriptor, can be
/// retried; one whose replay needs confirmation only with it.
pub fn check_retry_source(source: Result<RetrySourceView, TaskStateError>, confirm_replay: bool) -> (r: Result<
    RetryDescriptor,
    ApiResponse,
>)
    ensures
        match source {
            Err(e) => r matches Err(x) && is_error_response(x, task_state_error_status(e), task_state_error_text(e)),
            Ok(s) => if s.phase != ServiceTaskPhase::Failed || s.resolved {
                r matches Err(x) && is_error_response(x, 400, "only failed tasks can be retried"@)
            } else {
                match s.descriptor {
                    None => r matches Err(x) && is_error_response(x, 400, "task has no retry descriptor"@),
                    Some(d) => if d.replay_safety == TaskReplaySafety::RequiresConfirmation && !confirm_replay {
                        r matches Err(x) && is_error_response(x, 400, "retry requires confirm_replay=true"@)
                    } else {
                        r == Ok::<RetryDescriptor, ApiResponse>(d)
                    },
                }
            },
        },
{
    let s = match source {
        Err(e) => return Err(task_state_error_response(e)),
        Ok(s) => s,
    };
    let failed = match s.phase {
        ServiceTaskPhase::Failed => true,
        _ => false,
    };
    if !failed || s.resolved {
        return Err(error_response(400, "only failed tasks can be retried"));
    }
    match s.descriptor {
        None => Err(error_response(400, "task has no retry descriptor")),
        Some(d) => {
            let needs_confirmation = match d.replay_safety {
                TaskReplaySafety::RequiresConfirmation => true,
                _ => false,
            };
            if needs_confirmation && !confirm_replay {
                Err(error_response(400, "retry requires confirm_replay=true"))
            } else {
                Ok(d)
            }
        },
    }
}

/// The answer when the retry's task id is taken.
pub fn retry_task_exists_response() -> (r: ApiResponse)
    ensures
        is_error_response(r, 409, "重试任务编号已存在"@),
{
    error_response(409, "重试任务编号已存在")
}

/// The id a retry is tried under after `attempt` taken ones.
pub open spec fn retry_candidate(source: Seq<char>, now_unix: int, attempt: nat) -> Seq<char> {
    let base = source + "-retry-"@ + signed_decimal(now_unix);
    if attempt == 0 {
        base
    } else {
        base + "-"@ + decimal(attempt)
    }
}

proof fn lemma_candidates_differ(source: Seq<char>, now_unix: int, a: nat, b: nat)
    requires
        a != b,
    ensures
        retry_candidate(source, now_unix, a) != retry_candidate(source, now_unix, b),
{
    reveal_strlit("-");
    let base = source + "-retry-"@ + signed_decimal(now_unix);
    lemma_decimal_len(a);
    lemma_decimal_len(b);
    if a == 0 || b == 0 {
        assert(retry_candidate(source, now_unix, a).len() != retry_candidate(source, now_unix, b).len());
    } else {
        let ca = retry_candidate(source, now_unix, a);
        let cb = retry_candidate(source, now_unix, b);
        if ca == cb {
            let k: int = base.len() as int + 1;
            assert(ca.subrange(k, ca.len() as int) =~= decimal(a));
            assert(cb.subrange(k, cb.len() as int) =~= decimal(b));
            lemma_decimal_injective(a, b);
        }
    }
}

/// Among `taken.len() + 1` candidates one is free.
proof fn lemma_some_candidate_free(source: Seq<char>, now_unix: int, taken: Seq<Seq<char>>)
    ensures
        exists|k: nat| k <= taken.len() && !taken.contains(#[trigger] retry_candidate(source, now_unix, k)),
{
    broadcast use vstd::seq_lib::seq_to_set_is_finite;
    if forall|k: nat| k <= taken.len() ==> taken.contains(#[trigger] retry_candidate(source, now_unix, k)) {
        let n = taken.len();
        let cands = Seq::new(n + 1, |k: int| retry_candidate(source, now_unix, k as nat));
        assert forall|i: int, j: int| 0 <= i < cands.len() && 0 <= j < cands.len() && i != j implies cands[i] != cands[j] by {
            lemma_candidates_differ(source, now_unix, i as nat, j as nat);
        }
        assert(cands.no_duplicates());
        cands.unique_seq_to_set();
        taken.lemma_cardinality_of_set();
        assert forall|x: Seq<char>| cands.to_set().contains(x) implies taken.to_set().contains(x) by {
            let i = choose|i: int| 0 <= i < cands.len() && cands[i] == x;
            assert(taken.contains(retry_candidate(source, now_unix, i as nat)));
        }
        vstd::set_lib::lemma_len_subset(cands.to_set(), taken.to_set());
    }
}

/// The id of a retry: the requested one, trimmed, when it is not blank;
/// otherwise the first candidate that no task has yet.
pub fn next_retry_task_id(
    source_task_id: &str,
    requested_task_id: Option<String>,
    now_unix: i64,
    existing_task_ids: &Vec<String>,
) -> (r: String)
    ensures
        match normalized_optional(requested_task_id) {
            Some(t) => r@ == t,
            None => exists|k: nat| {
                &&& r@ == retry_candidate(source_task_id@, now_unix as int, k)
                &&& !views(existing_task_ids@).contains(r@)
                &&& forall|j: nat| j < k ==> views(existing_task_ids@).contains(#[trigger] retry_candidate(source_task_id@, now_unix as int, j))
            },
        },
{
    match normalized_optional_text(requested_task_id) {
        Some(t) => return t,
        None => {},
    }
    let ghost taken = views(existing_task_ids@);
    let now = i64_decimal(now_unix);
    let base = concat3(source_task_id, "-retry-", now.as_str());
    proof {
        reveal_strlit("-");
    }
    let n = existing_task_ids.len();
    let mut attempt: usize = 0;
    let mut exhausted = false;
    while !exhausted
        invariant
            normalized_optional(requested_task_id) is None,
            n == existing_task_ids@.len(),
            taken == views(existing_task_ids@),
            base@ == source_task_id@ + "-retry-"@ + signed_decimal(now_unix as int),
            attempt <= n,
            forall|j: nat| j < attempt ==> taken.contains(#[trigger] retry_candidate(source_task_id@, now_unix as int, j)),
            exhausted ==> attempt == n && taken.contains(retry_candidate(source_task_id@, now_unix as int, n as nat)),
        decreases n - attempt + if exhausted { 0int } else { 1int },
    {
        let candidate = if attempt == 0 {
            owned(base.as_str())
        } else {
            let d = usize_decimal(attempt);
            concat3(base.as_str(), "-", d.as_str())
        };
        assert(candidate@ == retry_candidate(source_task_id@, now_unix as int, attempt as nat));
        let mut found = false;
        let mut i: usize = 0;
        while i < n
            invariant
                n == existing_task_ids@.len(),
                taken == views(existing_task_ids@),
                i <= n,
                found ==> taken.contains(candidate@),
                !found ==> forall|j: int| 0 <= j < i ==> existing_task_ids@[j]@ != candidate@,
            decreases n - i,
        {
            if text_eq(existing_task_ids[i].as_str(), candidate.as_str()) {
                assert(taken[i as int] == candidate@);
                found = true;
            }
            i = i + 1;
        }
        if !found {
            proof {
                if taken.contains(candidate@) {
                    let j = choose|j: int| 0 <= j < taken.len() && taken[j] == candidate@;
                    assert(existing_task_ids@[j]@ == candidate@);
                }
                assert({
                    &&& candidate@ == retry_candidate(source_task_id@, now_unix as int, attempt as nat)
                    &&& !views(existing_task_ids@).contains(candidate@)
                    &&& forall|j: nat| j < attempt as nat ==> views(existing_task_ids@).contains(#[trigger] retry_candidate(source_task_id@, now_unix as int, j))
                });
            }
            return candidate;
        }
        if attempt == n {
            exhausted = true;
        } else {
            attempt = attempt + 1;
        }
    }
    proof {
        lemma_some_candidate_free(source_task_id@, now_unix as int, taken);
        let k = choose|k: nat| k <= taken.len() && !taken.contains(#[trigger] retry_candidate(source_task_id@, now_unix as int, k));
        if k < n {
            assert(taken.contains(retry_candidate(source_task_id@, now_unix as int, k)));
        }
    }
    base
}

/// The only alias of a descriptor, when it has exactly one that is not
/// blank.
pub fn single_retry_alias(aliases: &Vec<String>) -> (r: Option<&str>)
    ensures
        aliases@.len() == 1 && trimmed(aliases@[0]@).len() > 0 ==> (r matches Some(a) && a@ == aliases@[0]@),
        !(aliases@.len() == 1 && trimmed(aliases@[0]@).len() > 0) ==> r is None,
{
    if aliases.len() == 1 {
        let t = trim(aliases[0].as_str());
        if !is_empty_text(t.as_str()) {
            return Some(aliases[0].as_str());
        }
    }
    None
}

/// The answer to a descriptor the service cannot replay.
pub fn invalid_retry_descriptor_response(operation_kind: TaskOperationKind) -> (r: ApiResponse)
    ensures
        is_error_response(r, 400, "unsupported retry operation: "@ + operation_kind_debug_text(operation_kind)),
{
    let m = concat2("unsupported retry operation: ", operation_kind_debug_name(operation_kind));
    error_response(400, m.as_str())
}

/// `true` or `false`.
pub open spec fn json_bool(b: bool) -> Seq<char> {
    if b {
        "true"@
    } else {
        "false"@
    }
}

/// The handler and the request body that replay a descriptor under
/// `retry_task_id`; the keys of each body in their sorted order.
pub open spec fn retry_request_for(
    kind: TaskOperationKind,
    aliases: Seq<Seq<char>>,
    migrate_projects: Option<bool>,
    sync_skills: Option<bool>,
    retry_task_id: Seq<char>,
) -> Option<(ApiRoute, Seq<char>)> {
    let id = json_quoted(retry_task_id);
    let alias_list = "{\"aliases\":"@ + json_quoted(joined(aliases, ","@)) + ",\"task_id\":"@ + id + "}"@;
    let single = if aliases.len() == 1 && trimmed(aliases[0]).len() > 0 {
        Some(aliases[0])
    } else {
        None
    };
    let migrate = json_bool(migrate_projects == Some(true));
    match kind {
        TaskOperationKind::BrowserCurrentAccount => Some((ApiRoute::DetectBrowserCurrentAccount, "{\"task_id\":"@ + id + "}"@)),
        TaskOperationKind::AccountGitTokenRefresh => Some((ApiRoute::RefreshGitToken, alias_list)),
        TaskOperationKind::AccountGitTokenGenerate => Some((ApiRoute::GenerateGitToken, alias_list)),
        TaskOperationKind::BrowserLogin => Some((ApiRoute::BrowserAutoLogin, alias_list)),
        TaskOperationKind::RemoteProjectCleanupPreview => Some((ApiRoute::PreviewRemoteCleanup, alias_list)),
        TaskOperationKind::AccountSwitchProjectPreview => match single {
            Some(a) => Some((ApiRoute::PreviewAccountSwitchProjects, "{\"alias\":"@ + json_quoted(a) + ",\"task_id\":"@ + id + "}"@)),
            None => None,
        },
        TaskOperationKind::AccountSwitchPlan => match single {
            Some(a) => Some((ApiRoute::PlanAccountSwitch, "{\"alias\":"@ + json_quoted(a) + ",\"migrate_projects\":"@ + migrate + ",\"task_id\":"@ + id + "}"@)),
            None => None,
        },
        TaskOperationKind::AccountSwitchExecute => match single {
            Some(a) => Some((ApiRoute::ExecuteAccountSwitch, "{\"alias\":"@ + json_quoted(a) + ",\"migrate_projects\":"@ + migrate + ",\"sync_skills\":"@ + json_bool(sync_skills == Some(true)) + ",\"task_id\":"@ + id + "}"@)),
            None => None,
        },
        _ => None,
    }
}

fn bool_text(b: bool) -> (r: &'static str)
    ensures
        r@ == json_bool(b),
{
    if b {
        "true"
    } else {
        "false"
    }
}

/// The handler and body that replay `descriptor` under `retry_task_id`, or
/// the answer to a descriptor that cannot be replayed.
pub fn retry_request(descriptor: &RetryDescriptor, retry_task_id: &str) -> (r: Result<(ApiRoute, String), ApiResponse>)
    ensures
        match retry_request_for(
            descriptor.operation_kind,
            views(descriptor.aliases@),
            descriptor.migrate_projects,
            descriptor.sync_skills,
            retry_task_id@,
        ) {
            Some((route, body)) => r matches Ok((x, b)) && x == route && b@ == body,
            None => r matches Err(e) && is_error_response(e, 400, "unsupported retry operation: "@ + operation_kind_debug_text(descriptor.operation_kind)),
        },
{
    let id = json_string(retry_task_id);
    let kind = descriptor.operation_kind;
    let migrate = bool_text(match descriptor.migrate_projects {
        Some(b) => b,
        None => false,
    });
    let sync = bool_text(match descriptor.sync_skills {
        Some(b) => b,
        None => false,
    });
    let ghost aliases = views(descriptor.aliases@);
    proof {
        if aliases.len() == 1 {
            assert(aliases[0] == descriptor.aliases@[0]@);
        }
    }
    match kind {
        TaskOperationKind::BrowserCurrentAccount => Ok((ApiRoute::DetectBrowserCurrentAccount, concat3("{\"task_id\":", id.as_str(), "}"))),
        TaskOperationKind::AccountGitTokenRefresh | TaskOperationKind::AccountGitTokenGenerate | TaskOperationKind::BrowserLogin | TaskOperationKind::RemoteProjectCleanupPreview => {
            let list = join(&descriptor.aliases, ",");
            let q = json_string(list.as_str());
            let body = concat5("{\"aliases\":", q.as_str(), ",\"task_id\":", id.as_str(), "}");
            let route = match kind {
                TaskOperationKind::AccountGitTokenRefresh => ApiRoute::RefreshGitToken,
                TaskOperationKind::AccountGitTokenGenerate => ApiRoute::GenerateGitToken,
                TaskOperationKind::BrowserLogin => ApiRoute::BrowserAutoLogin,
                _ => ApiRoute::PreviewRemoteCleanup,
            };
            Ok((route, body))
        },
        TaskOperationKind::AccountSwitchProjectPreview | TaskOperationKind::AccountSwitchPlan | TaskOperationKind::AccountSwitchExecute => {
            let alias = match single_retry_alias(&descriptor.aliases) {
                Some(a) => a,
                None => return Err(invalid_retry_descriptor_response(kind)),
            };
            let a = json_string(alias);
            match kind {
                TaskOperationKind::AccountSwitchProjectPreview => Ok((
                    ApiRoute::PreviewAccountSwitchProjects,
                    concat5("{\"alias\":", a.as_str(), ",\"task_id\":", id.as_str(), "}"),
                )),
                TaskOperationKind::AccountSwitchPlan => {
                    let head = concat5("{\"alias\":", a.as_str(), ",\"migrate_projects\":", migrate, ",\"task_id\":");
                    Ok((ApiRoute::PlanAccountSwitch, concat3(head.as_str(), id.as_str(), "}")))
                },
                _ => {
                    let head = concat5("{\"alias\":", a.as_str(), ",\"migrate_projects\":", migrate, ",\"sync_skills\":");
                    let body = concat5(head.as_str(), sync, ",\"task_id\":", id.as_str(), "}");
                    Ok((ApiRoute::ExecuteAccountSwitch, body))
                },
            }
        },
        _ => Err(invalid_retry_descriptor_response(kind)),
    }
}

} // verus!
