//! The seamless account switch: which switch requests are accepted, when a
//! switch must wait for other tasks, how an attempt ends, and how an
//! expired cookie is recovered by password before the switch goes on.

use vstd::prelude::*;
use crate::errors::{account_switch_error_response, account_switch_error_status, account_switch_error_text, AccountSwitchError};
use crate::errors::AccountSecretStoreError;
use crate::errors::{account_secret_store_error_message, account_secret_store_error_text};
use crate::projects::{is_project_id, opt_text, project_id_is_valid};
use crate::response::{error_response, is_error_response, is_typed_error_response, typed_error_response, ApiResponse};
use crate::tasks::{is_terminal_phase, phase_is_terminal, ServiceTaskPhase};
use crate::text::{chars_of, concat2, is_empty_text, owned, text_eq, trim, trimmed};
use vstd::utf8::encode_utf8;

verus! {

/// One of the ids is not a project id.
pub open spec fn has_invalid_id(ids: Seq<String>) -> bool {
    exists|i: int| 0 <= i < ids.len() && !is_project_id(#[trigger] ids[i]@)
}

/// The project selection of a switch is refused when an id is not a
/// project id, or when projects are picked for migration without naming
/// the account they come from.
pub open spec fn selection_invalid(project_ids: Option<Seq<String>>, migrate_projects: bool, source_alias: Option<Seq<char>>) -> bool {
    ||| (project_ids matches Some(ids) && has_invalid_id(ids))
    ||| (migrate_projects && project_ids is Some && !(source_alias matches Some(s) && trimmed(s).len() > 0))
}

/// Checks the project selection of a switch request.
pub fn check_switch_selection(project_ids: Option<&Vec<String>>, migrate_projects: bool, source_alias: Option<&str>) -> (r: Result<(), ApiResponse>)
    ensures
        selection_invalid(match project_ids { Some(v) => Some(v@), None => None }, migrate_projects, opt_text(source_alias)) <==> r is Err,
        r matches Err(e) ==> is_error_response(e, 400, "迁移项目选择无效，请重新选择"@),
{
    let ghost ids = match project_ids { Some(v) => Some(v@), None => None::<Seq<String>> };
    if let Some(v) = project_ids {
        let mut i: usize = 0;
        while i < v.len()
            invariant
                i <= v@.len(),
                project_ids == Some(v),
                forall|k: int| 0 <= k < i ==> is_project_id(#[trigger] v@[k]@),
            decreases v.len() - i,
        {
            if !project_id_is_valid(v[i].as_str()) {
                assert(!is_project_id(v@[i as int]@));
                assert(has_invalid_id(v@));
                return Err(error_response(400, "迁移项目选择无效，请重新选择"));
            }
            i = i + 1;
        }
    }
    let source_given = match source_alias {
        Some(s) => {
            let t = trim(s);
            !is_empty_text(t.as_str())
        },
        None => false,
    };
    if migrate_projects && project_ids.is_some() && !source_given {
        return Err(error_response(400, "迁移项目选择无效，请重新选择"));
    }
    Ok(())
}

/// The account a switch targets, trimmed; a blank one is not found.
pub fn switch_target_alias(raw: &str) -> (r: Result<String, ApiResponse>)
    ensures
        trimmed(raw@).len() == 0 <==> r is Err,
        r matches Ok(a) ==> a@ == trimmed(raw@),
        r matches Err(e) ==> is_error_response(e, 404, "account alias not found: "@),
{
    let alias = trim(raw);
    if is_empty_text(alias.as_str()) {
        proof {
            reveal_strlit("account alias not found: ");
            assert("account alias not found: "@ + alias@ =~= "account alias not found: "@);
        }
        return Err(account_switch_error_response(AccountSwitchError::AccountAliasNotFound { alias }));
    }
    Ok(alias)
}

/// What a task tells of the accounts it holds.
pub struct TaskLockView {
    pub phase: ServiceTaskPhase,
    /// The task executes an account switch.
    pub is_switch_execution: bool,
    pub locked_aliases: Vec<String>,
}

/// An unfinished task holds `source`.
pub open spec fn holds_source(t: TaskLockView, source: Seq<char>) -> bool {
    &&& !phase_is_terminal(t.phase)
    &&& exists|k: int| 0 <= k < t.locked_aliases@.len() && (#[trigger] t.locked_aliases@[k])@ == source
}

fn holds_alias(t: &TaskLockView, source: &str) -> (r: bool)
    ensures
        r == holds_source(*t, source@),
{
    if is_terminal_phase(t.phase) {
        return false;
    }
    let mut k: usize = 0;
    while k < t.locked_aliases.len()
        invariant
            k <= t.locked_aliases@.len(),
            !phase_is_terminal(t.phase),
            forall|j: int| 0 <= j < k ==> (#[trigger] t.locked_aliases@[j])@ != source@,
        decreases t.locked_aliases.len() - k,
    {
        if text_eq(t.locked_aliases[k].as_str(), source) {
            assert((t.locked_aliases@[k as int])@ == source@);
            return true;
        }
        k = k + 1;
    }
    false
}

/// The switch is refused while another switch is pending, running or
/// waiting, and, for a migration, while an unfinished task holds the
/// account the projects come from (the named source, else the current
/// account).
pub open spec fn switch_conflict(tasks: Seq<TaskLockView>, migrate_projects: bool, source: Option<Seq<char>>) -> Option<Seq<char>> {
    if migrate_projects && (source matches Some(s) && exists|i: int| 0 <= i < tasks.len() && holds_source(#[trigger] tasks[i], s)) {
        Some("源账号还有任务正在执行，请等待完成后再迁移"@)
    } else if exists|i: int| 0 <= i < tasks.len() && (#[trigger] tasks[i]).is_switch_execution && !phase_is_terminal(tasks[i].phase) {
        Some("已有无感换号任务正在执行，请等待完成后再切换"@)
    } else {
        None
    }
}

/// Whether the switch must wait, and the 409 it is answered with then.
pub fn switch_conflict_response(tasks: &Vec<TaskLockView>, migrate_projects: bool, source: Option<&str>) -> (r: Option<ApiResponse>)
    ensures
        match switch_conflict(tasks@, migrate_projects, opt_text(source)) {
            Some(m) => r matches Some(e) && is_error_response(e, 409, m),
            None => r is None,
        },
{
    if migrate_projects {
        if let Some(s) = source {
            let mut i: usize = 0;
            while i < tasks.len()
                invariant
                    i <= tasks@.len(),
                    migrate_projects,
                    source == Some(s),
                    forall|k: int| 0 <= k < i ==> !holds_source(#[trigger] tasks@[k], s@),
                decreases tasks.len() - i,
            {
                if holds_alias(&tasks[i], s) {
                    assert(holds_source(tasks@[i as int], s@));
                    return Some(error_response(409, "源账号还有任务正在执行，请等待完成后再迁移"));
                }
                i = i + 1;
            }
        }
    }
    let mut i: usize = 0;
    while i < tasks.len()
        invariant
            i <= tasks@.len(),
            !(migrate_projects && (opt_text(source) matches Some(x) && exists|j: int| 0 <= j < tasks@.len() && holds_source(#[trigger] tasks@[j], x))),
            forall|k: int| 0 <= k < i ==> !((#[trigger] tasks@[k]).is_switch_execution && !phase_is_terminal(tasks@[k].phase)),
        decreases tasks.len() - i,
    {
        if tasks[i].is_switch_execution && !is_terminal_phase(tasks[i].phase) {
            assert(tasks@[i as int].is_switch_execution && !phase_is_terminal(tasks@[i as int].phase));
            return Some(error_response(409, "已有无感换号任务正在执行，请等待完成后再切换"));
        }
        i = i + 1;
    }
    None
}

/// The log line when the switch moves to the background.
pub fn switch_queued_log(migrate_projects: bool) -> (r: &'static str)
    ensures
        migrate_projects ==> r@ == "项目迁移已进入后台，进度将按项目实时更新"@,
        !migrate_projects ==> r@ == "无感换号已进入后台"@,
{
    if migrate_projects {
        "项目迁移已进入后台，进度将按项目实时更新"
    } else {
        "无感换号已进入后台"
    }
}

/// The line logged after the target's subscription was read: a warning
/// when it could not be detected.
pub fn subscription_refresh_log(detected: bool) -> (r: (bool, &'static str))
    ensures
        detected ==> !r.0 && r.1@ == "目标账号订阅状态已更新"@,
        !detected ==> r.0 && r.1@ == "换号已完成，订阅状态暂未更新，可稍后刷新"@,
{
    if detected {
        (false, "目标账号订阅状态已更新")
    } else {
        (true, "换号已完成，订阅状态暂未更新，可稍后刷新")
    }
}

/// What a switch attempt came to, as its end reads it.
pub enum SwitchAttemptOutcome {
    /// The switch went through.
    Switched,
    /// The user cancelled the project migration.
    MigrationCancelled,
    /// The switch failed with an error: its text, and whether it asks for
    /// the cookie to be recovered by a new login.
    Failed { message: String, requires_cookie_recovery: bool },
    /// The switch could not be run: the answer's body.
    NotRun(String),
}

/// How a switch attempt ends.
pub enum SwitchAttemptEnd {
    /// Cancel the task with `项目迁移已取消`.
    Cancel,
    /// Finish the switch (and hand the account to the skills if asked).
    Complete,
    /// Log the line and recover the cookie by password, then switch again.
    Recover { log: String },
    /// Fail the task with the message.
    Fail { message: String },
}

/// A failure that asks for a new login is recovered once, when recovery
/// is allowed and the attempt runs as a task.
pub fn switch_attempt_end(outcome: SwitchAttemptOutcome, allow_recovery: bool, has_task: bool) -> (r: SwitchAttemptEnd)
    ensures
        outcome is Switched ==> r is Complete,
        outcome is MigrationCancelled ==> r is Cancel,
        outcome matches SwitchAttemptOutcome::Failed { message, requires_cookie_recovery } ==> (
            if allow_recovery && requires_cookie_recovery && has_task {
                r matches SwitchAttemptEnd::Recover { log } && log@ == message@ + "；正在尝试账号密码恢复"@
            } else {
                r matches SwitchAttemptEnd::Fail { message: m } && m@ == message@
            }
        ),
        outcome matches SwitchAttemptOutcome::NotRun(body) ==> (r matches SwitchAttemptEnd::Fail { message: m } && m@ == body@),
{
    match outcome {
        SwitchAttemptOutcome::Switched => SwitchAttemptEnd::Complete,
        SwitchAttemptOutcome::MigrationCancelled => SwitchAttemptEnd::Cancel,
        SwitchAttemptOutcome::Failed { message, requires_cookie_recovery } => {
            if allow_recovery && requires_cookie_recovery && has_task {
                SwitchAttemptEnd::Recover { log: concat2(message.as_str(), "；正在尝试账号密码恢复") }
            } else {
                SwitchAttemptEnd::Fail { message }
            }
        },
        SwitchAttemptOutcome::NotRun(body) => SwitchAttemptEnd::Fail { message: body },
    }
}

/// How an expired cookie is recovered before the switch goes on.
#[derive(Debug, Clone, Copy, PartialEq, Eq, Structural)]
pub enum SwitchRecoveryRoute {
    /// No saved password: the user must enter it again.
    PasswordRequired,
    /// Log in again in a browser window the user can see.
    LocalBrowser,
    /// Log in again with the headless automation.
    Automation,
    /// No browser is configured.
    Unavailable,
}

pub fn switch_recovery_route(password_empty: bool, has_local_browser: bool, has_automation: bool) -> (r: SwitchRecoveryRoute)
    ensures
        r == if password_empty {
            SwitchRecoveryRoute::PasswordRequired
        } else if has_local_browser {
            SwitchRecoveryRoute::LocalBrowser
        } else if has_automation {
            SwitchRecoveryRoute::Automation
        } else {
            SwitchRecoveryRoute::Unavailable
        },
{
    if password_empty {
        SwitchRecoveryRoute::PasswordRequired
    } else if has_local_browser {
        SwitchRecoveryRoute::LocalBrowser
    } else if has_automation {
        SwitchRecoveryRoute::Automation
    } else {
        SwitchRecoveryRoute::Unavailable
    }
}

/// The message and answer of a recovery that cannot run.
pub fn switch_recovery_refusal(route: SwitchRecoveryRoute) -> (r: Option<(&'static str, ApiResponse)>)
    ensures
        route is PasswordRequired ==> (r matches Some((m, e)) && m@ == "目标账号没有可用的本地密码，请重新输入密码后再试"@
            && is_typed_error_response(e, 409, m@, "account_password_required"@)),
        route is Unavailable ==> (r matches Some((m, e)) && m@ == "interactive Chrome automation is not configured for Cookie recovery"@
            && is_typed_error_response(e, 503, m@, "account_cookie_recovery_unavailable"@)),
        (route is LocalBrowser || route is Automation) ==> r is None,
{
    match route {
        SwitchRecoveryRoute::PasswordRequired => {
            let m = "目标账号没有可用的本地密码，请重新输入密码后再试";
            Some((m, typed_error_response(409, m, "account_password_required")))
        },
        SwitchRecoveryRoute::Unavailable => {
            let m = "interactive Chrome automation is not configured for Cookie recovery";
            Some((m, typed_error_response(503, m, "account_cookie_recovery_unavailable")))
        },
        _ => None,
    }
}

/// The log line when the recovered cookie lets the switch go on.
pub fn switch_recovered_log() -> (r: &'static str)
    ensures
        r@ == "Cookie 已恢复并验证，正在继续原无感换号任务"@,
{
    "Cookie 已恢复并验证，正在继续原无感换号任务"
}

/// The answer when the switch cannot run without the extension bridge.
pub fn bridge_not_configured_response() -> (r: (&'static str, ApiResponse))
    ensures
        r.0@ == "extension bridge executor is not configured"@,
        is_error_response(r.1, 503, r.0@),
{
    let m = "extension bridge executor is not configured";
    (m, error_response(503, m))
}

/// The login a cookie recovery uses: the saved e-mail (kept as saved when
/// it is not blank) and the saved password, empty when none is saved.
pub struct RecoveryLogin {
    pub email: String,
    pub password: String,
}

/// The recovery login of `alias` from its saved e-mail and password
/// secret; a blank e-mail is refused with 400, a password that could not
/// be read with 500.
pub fn recovery_login(alias: &str, email: Option<String>, password: Result<String, AccountSecretStoreError>) -> (r: Result<RecoveryLogin, (String, ApiResponse)>)
    ensures
        !(email matches Some(e) && trimmed(e@).len() > 0) ==> (r matches Err((m, resp)) && m@ == "missing email for account alias: "@ + alias@
            && is_error_response(resp, 400, m@)),
        (email matches Some(e) && trimmed(e@).len() > 0) ==> match password {
            Ok(p) => r matches Ok(l) && l.email == email->0 && l.password == p,
            Err(AccountSecretStoreError::Missing { .. }) => r matches Ok(l) && l.email == email->0 && l.password@.len() == 0,
            Err(e) => r matches Err((m, resp)) && m@ == account_secret_store_error_text(e) && is_error_response(resp, 500, m@),
        },
{
    let email = match email {
        Some(e) => {
            let t = trim(e.as_str());
            if is_empty_text(t.as_str()) {
                let m = concat2("missing email for account alias: ", alias);
                let resp = error_response(400, m.as_str());
                return Err((m, resp));
            }
            e
        },
        None => {
            let m = concat2("missing email for account alias: ", alias);
            let resp = error_response(400, m.as_str());
            return Err((m, resp));
        },
    };
    match password {
        Ok(p) => Ok(RecoveryLogin { email, password: p }),
        Err(AccountSecretStoreError::Missing { .. }) => Ok(RecoveryLogin { email, password: String::new() }),
        Err(e) => {
            let m = account_secret_store_error_message(&e);
            let resp = error_response(500, m.as_str());
            Err((m, resp))
        },
    }
}

/// Whether a progress event of a project migration is recorded: only while
/// its task exists and has not finished.
pub fn migration_progress_applies(phase: Option<ServiceTaskPhase>) -> (r: bool)
    ensures
        r == (phase matches Some(p) && !phase_is_terminal(p)),
{
    match phase {
        Some(p) => !is_terminal_phase(p),
        None => false,
    }
}

} // verus!
