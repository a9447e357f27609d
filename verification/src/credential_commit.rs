//! How a committed account of a credential browser batch ends: the item it
//! reports, whether it completed, and the lines and messages its end gives.

use vstd::prelude::*;
use crate::credential::{
    credential_browser_batch_item_from_report, failure_message_text, item_matches_report,
    success_message_text, terminal_item_message_text, AccountGitTokenRefreshBatchItem,
    BrowserAutoLoginBatchItem, CredentialBrowserBatchItem, CredentialBrowserOperation,
    CredentialLoginReport, OverleafPasswordChangeBatchItem,
};
use crate::credential_job::{SavedBrowserLoginOutcome, SavedGitTokenOutcome};
use crate::errors::{browser_auto_login_error_message, browser_auto_login_error_text, BrowserAutoLoginError};
use crate::errors_remote::{account_git_token_error_message, account_git_token_error_text, AccountGitTokenError};
use crate::text::owned;

verus! {

/// What committing one account reported. The reports of the other
/// operations travel as JSON text with the fields the end reads.
pub enum CredentialBrowserCommitReport {
    Credential { report: CredentialLoginReport, failure_message: Option<String> },
    PasswordChange {
        alias: String,
        email: String,
        password_updated: bool,
        failure_message: Option<String>,
        report: String,
    },
    GitToken { alias: String, report: String },
    GitTokenSkipped,
    BrowserLogin { alias: String, opened: bool, report: String },
}

/// The item, completion and failure message that a commit report gives;
/// `plan_alias` is the alias of the account's plan.
pub open spec fn commit_outcome_matches(
    r: (CredentialBrowserBatchItem, bool, Option<String>),
    plan_alias: Seq<char>,
    c: CredentialBrowserCommitReport,
) -> bool {
    match c {
        CredentialBrowserCommitReport::Credential { report, failure_message } => {
            &&& r.0 matches CredentialBrowserBatchItem::Credential(item) && item_matches_report(item, report, failure_message)
            &&& r.1 == (failure_message is None)
            &&& r.2 == failure_message
        },
        CredentialBrowserCommitReport::PasswordChange { alias, email, password_updated, failure_message, report } => {
            &&& r.0 == CredentialBrowserBatchItem::PasswordChange(OverleafPasswordChangeBatchItem {
                alias,
                email: Some(email),
                password_updated,
                report: Some(report),
                error: None,
            })
            &&& r.1 == password_updated
            &&& r.2 == failure_message
        },
        CredentialBrowserCommitReport::GitToken { alias, report } => {
            &&& r.0 == CredentialBrowserBatchItem::GitToken(AccountGitTokenRefreshBatchItem {
                alias,
                refreshed: true,
                skipped: false,
                report: Some(report),
                error: None,
            })
            &&& r.1
            &&& r.2 is None
        },
        CredentialBrowserCommitReport::GitTokenSkipped => {
            &&& r.0 matches CredentialBrowserBatchItem::GitToken(item) && item.alias@ == plan_alias && !item.refreshed
                && item.skipped && item.report is None && item.error is None
            &&& r.1
            &&& r.2 is None
        },
        CredentialBrowserCommitReport::BrowserLogin { alias, opened, report } => {
            &&& r.0 matches CredentialBrowserBatchItem::BrowserLogin(item) && item.alias == alias && item.opened == opened
                && !item.cancelled && item.report == Some(report) && (opened ==> item.error is None)
                && (!opened ==> (item.error matches Some(BrowserAutoLoginError::Browser { message })
                && message@ == "浏览器登录结果未确认窗口已打开"@))
            &&& r.1 == opened
            &&& (opened ==> r.2 is None)
            &&& (!opened ==> (r.2 matches Some(m) && m@ == "浏览器登录结果未确认窗口已打开"@))
        },
    }
}

/// The item a committed account reports, whether it completed, and why
/// not when it did not.
pub fn commit_outcome(plan_alias: &str, commit: CredentialBrowserCommitReport) -> (r: (
    CredentialBrowserBatchItem,
    bool,
    Option<String>,
))
    ensures
        commit_outcome_matches(r, plan_alias@, commit),
{
    match commit {
        CredentialBrowserCommitReport::Credential { report, failure_message } => {
            let (item, completed, failure) = credential_browser_batch_item_from_report(report, failure_message);
            (CredentialBrowserBatchItem::Credential(item), completed, failure)
        },
        CredentialBrowserCommitReport::PasswordChange { alias, email, password_updated, failure_message, report } => {
            let item = OverleafPasswordChangeBatchItem {
                alias,
                email: Some(email),
                password_updated,
                report: Some(report),
                error: None,
            };
            (CredentialBrowserBatchItem::PasswordChange(item), password_updated, failure_message)
        },
        CredentialBrowserCommitReport::GitToken { alias, report } => {
            let item = AccountGitTokenRefreshBatchItem { alias, refreshed: true, skipped: false, report: Some(report), error: None };
            (CredentialBrowserBatchItem::GitToken(item), true, None)
        },
        CredentialBrowserCommitReport::GitTokenSkipped => {
            let item = AccountGitTokenRefreshBatchItem {
                alias: owned(plan_alias),
                refreshed: false,
                skipped: true,
                report: None,
                error: None,
            };
            (CredentialBrowserBatchItem::GitToken(item), true, None)
        },
        CredentialBrowserCommitReport::BrowserLogin { alias, opened, report } => {
            let failure: Option<String> = if opened {
                None
            } else {
                Some(owned("浏览器登录结果未确认窗口已打开"))
            };
            let error = match &failure {
                Some(m) => Some(BrowserAutoLoginError::Browser { message: owned(m.as_str()) }),
                None => None,
            };
            let item = BrowserAutoLoginBatchItem { alias, opened, cancelled: false, report: Some(report), error };
            (CredentialBrowserBatchItem::BrowserLogin(item), opened, failure)
        },
    }
}

/// How a committed account ends in the task: the stage line, whether it is
/// a warning, the message the coordinator marks the item with, and the
/// task log line.
pub struct CommitEnd {
    pub stage_line: &'static str,
    pub warning: bool,
    pub item_message: String,
    pub task_line: String,
}

/// The reason of a failed end when the report gave none.
pub open spec fn end_reason(failure: Option<String>) -> Seq<char> {
    match failure {
        Some(m) => m@,
        None => "browser reported password was not changed"@,
    }
}

/// A completed account ends with `终态：完成`, the operation's terminal
/// message and its success line; a failed one with `终态：失败`, the reason
/// and the operation's failure line.
pub fn commit_end(op: CredentialBrowserOperation, alias: &str, completed: bool, failure: Option<String>) -> (r: CommitEnd)
    ensures
        completed ==> r.stage_line@ == "终态：完成"@ && !r.warning && r.item_message@ == terminal_item_message_text(op)
            && r.task_line@ == success_message_text(op, alias@),
        !completed ==> r.stage_line@ == "终态：失败"@ && r.warning && r.item_message@ == end_reason(failure)
            && r.task_line@ == failure_message_text(op, alias@, end_reason(failure)),
{
    if completed {
        CommitEnd {
            stage_line: "终态：完成",
            warning: false,
            item_message: owned(op.terminal_item_message()),
            task_line: op.success_message(alias),
        }
    } else {
        let message = match failure {
            Some(m) => m,
            None => owned("browser reported password was not changed"),
        };
        let task_line = op.failure_message(alias, message.as_str());
        CommitEnd { stage_line: "终态：失败", warning: true, item_message: message, task_line }
    }
}

/// What a Git token generation of one account came to, as the commit of a
/// browser login reads its single item.
pub enum GitTokenGenerationCommit {
    /// The token was generated; its report as JSON text.
    Refreshed(String),
    Skipped,
}

/// The commit reads the first item of the generation batch: refreshed with
/// a report, skipped, failed with its error, or not done.
pub open spec fn generation_commit_result(items: Seq<AccountGitTokenRefreshBatchItem>) -> Result<Option<Seq<char>>, Seq<char>> {
    if items.len() == 0 {
        Err("Git token generation returned no item"@)
    } else {
        let item = items[0];
        if item.refreshed && item.report is Some {
            Ok(Some(item.report->0@))
        } else if item.skipped {
            Ok(None)
        } else {
            match item.error {
                Some(e) => Err(account_git_token_error_text(e)),
                None => Err("Git token generation did not complete"@),
            }
        }
    }
}

pub fn git_token_generation_commit(items: &Vec<AccountGitTokenRefreshBatchItem>) -> (r: Result<GitTokenGenerationCommit, String>)
    ensures
        (match r {
            Ok(GitTokenGenerationCommit::Refreshed(j)) => Ok(Some(j@)),
            Ok(GitTokenGenerationCommit::Skipped) => Ok(None),
            Err(e) => Err(e@),
        }) == generation_commit_result(items@),
{
    if items.len() == 0 {
        return Err(owned("Git token generation returned no item"));
    }
    let item = &items[0];
    if item.refreshed {
        if let Some(j) = &item.report {
            return Ok(GitTokenGenerationCommit::Refreshed(owned(j.as_str())));
        }
    }
    if item.skipped {
        return Ok(GitTokenGenerationCommit::Skipped);
    }
    match &item.error {
        Some(e) => Err(account_git_token_error_message(e)),
        None => Err(owned("Git token generation did not complete")),
    }
}

/// The Git token step with the saved cookie applies to Git token plans that
/// are not forced to log in with credentials; `Some(true)` generates a
/// token, `Some(false)` refreshes the token's state.
pub fn saved_cookie_git_token_mode(is_generate: bool, is_refresh: bool, force_credentials_login: bool) -> (r: Option<bool>)
    ensures
        r == (if (is_generate || is_refresh) && !force_credentials_login { Some(is_generate) } else { None::<bool> }),
{
    if (is_generate || is_refresh) && !force_credentials_login {
        Some(is_generate)
    } else {
        None
    }
}

/// The outcome of the Git token step with the saved cookie, from what the
/// token operation returned: its report, or its error.
pub fn saved_git_token_outcome(result: Result<String, AccountGitTokenError>) -> (r: (SavedGitTokenOutcome, Option<String>))
    ensures
        result matches Ok(rep) ==> r.0 is Completed && r.1 == Some(rep),
        result matches Err(AccountGitTokenError::MissingCookies { .. }) ==> (r.0 matches SavedGitTokenOutcome::Recover(m)
            && m@ == "Cookie 在 Git token 操作时失效，转账号密码登录"@) && r.1 is None,
        result matches Err(e) ==> (!(e is MissingCookies) ==> (r.0 matches SavedGitTokenOutcome::Failed(m)
            && m@ == account_git_token_error_text(e)) && r.1 is None),
{
    match result {
        Ok(report) => (SavedGitTokenOutcome::Completed, Some(report)),
        Err(AccountGitTokenError::MissingCookies { .. }) => (
            SavedGitTokenOutcome::Recover(owned("Cookie 在 Git token 操作时失效，转账号密码登录")),
            None,
        ),
        Err(e) => (SavedGitTokenOutcome::Failed(account_git_token_error_message(&e)), None),
    }
}

/// What the generation batch of the saved cookie's Git token step gives:
/// `None` when the account was skipped, else the token operation's result
/// (its report, or an error).
pub fn saved_cookie_generation_step(items: Vec<AccountGitTokenRefreshBatchItem>) -> (r: Option<Result<String, AccountGitTokenError>>)
    ensures
        items@.len() == 0 ==> (r matches Some(Err(AccountGitTokenError::Browser { message }))
            && message@ == "Git token generation returned no item"@),
        items@.len() > 0 && items@[0].skipped ==> r is None,
        items@.len() > 0 && !items@[0].skipped && items@[0].refreshed ==> (match items@[0].report {
            Some(j) => r == Some(Ok::<String, AccountGitTokenError>(j)),
            None => r matches Some(Err(AccountGitTokenError::Browser { message })) && message@ == "Git token generation returned no report"@,
        }),
        items@.len() > 0 && !items@[0].skipped && !items@[0].refreshed ==> (match items@[0].error {
            Some(e) => r == Some(Err::<String, AccountGitTokenError>(e)),
            None => r matches Some(Err(AccountGitTokenError::Browser { message })) && message@ == "Git token generation did not complete"@,
        }),
{
    let mut items = items;
    if items.len() == 0 {
        return Some(Err(AccountGitTokenError::Browser { message: owned("Git token generation returned no item") }));
    }
    let item = items.remove(0);
    if item.skipped {
        return None;
    }
    if item.refreshed {
        return match item.report {
            Some(j) => Some(Ok(j)),
            None => Some(Err(AccountGitTokenError::Browser { message: owned("Git token generation returned no report") })),
        };
    }
    match item.error {
        Some(e) => Some(Err(e)),
        None => Some(Err(AccountGitTokenError::Browser { message: owned("Git token generation did not complete") })),
    }
}

/// What opening the browser login window with the saved cookie came to: a
/// cookie found invalid on opening recovers by password.
pub fn saved_browser_login_outcome(result: Result<String, BrowserAutoLoginError>) -> (r: (SavedBrowserLoginOutcome, Option<String>))
    ensures
        result matches Ok(rep) ==> r.0 is Completed && r.1 == Some(rep),
        result matches Err(BrowserAutoLoginError::InvalidCookie { .. }) ==> (r.0 matches SavedBrowserLoginOutcome::Recover(m)
            && m@ == "已保存 Cookie 在打开窗口时失效，转账号密码登录"@) && r.1 is None,
        result matches Err(e) ==> (!(e is InvalidCookie) ==> (r.0 matches SavedBrowserLoginOutcome::Failed(m)
            && m@ == browser_auto_login_error_text(e)) && r.1 is None),
{
    match result {
        Ok(report) => (SavedBrowserLoginOutcome::Completed, Some(report)),
        Err(BrowserAutoLoginError::InvalidCookie { .. }) => (
            SavedBrowserLoginOutcome::Recover(owned("已保存 Cookie 在打开窗口时失效，转账号密码登录")),
            None,
        ),
        Err(e) => (SavedBrowserLoginOutcome::Failed(browser_auto_login_error_message(&e)), None),
    }
}

} // verus!
