//! A credential browser job that waits for the user looks, again and again,
//! at the task and at its browser window; each look is decided here: resume
//! the job with what the user did, finish the login the page shows, or keep
//! waiting.

use vstd::prelude::*;
use crate::browser_states::CdpLoginState;
use crate::credential::BrowserCredentialsTaskInput;
use crate::credential_job::{ResumeOutcome, StageLog};
use crate::session_reconcile::ACCOUNT_BROWSER_SESSION_TIMEOUT_SECS;
use crate::text::{concat2, concat3, is_empty_text, owned, trim, trimmed};

verus! {

/// The log line written when a job starts to wait: `kind_name` names the
/// input it waits for.
pub open spec fn wait_started_text(kind_name: Seq<char>) -> Seq<char> {
    "阶段：等待用户输入（"@ + kind_name + "）"@
}

/// The line logged when the job starts to wait, and whether every item of
/// the batch now waits for the user (none runs and none is queued).
pub fn wait_started(kind_name: &str, running: usize, queued: usize) -> (r: (StageLog, bool))
    ensures
        r.0.warning,
        r.0.text@ == wait_started_text(kind_name@),
        r.1 == (running == 0 && queued == 0),
{
    let text = concat3("阶段：等待用户输入（", kind_name, "）");
    (StageLog { warning: true, text }, running == 0 && queued == 0)
}

/// What one look at the waiting job found besides the window and the clock.
pub enum WaitLook {
    /// The job waits for new credentials. The task handed over nothing
    /// (`None`), a text that is no credentials object (`Some(None)`), or
    /// credentials.
    Credentials(Option<Option<BrowserCredentialsTaskInput>>),
    /// The job waits for the captcha: whether the user reported it done,
    /// and the state of the login page (`None` when it could not be read).
    Captcha { captcha_input_received: bool, login_state: Option<CdpLoginState> },
}

/// What is done after one look.
pub enum WaitDecision {
    /// Resume the job.
    Resume(ResumeOutcome),
    /// The page shows a successful login: finish it, and resume with
    /// `Login`, or fail with the error where finishing fails.
    FinalizeLogin,
    /// Keep waiting: mark the item as waiting again with `rewait_message`
    /// where given, log `log` where given, and look again later.
    KeepWaiting { rewait_message: Option<String>, log: Option<StageLog> },
}

/// A decision, with its texts as character sequences.
pub enum WaitView {
    ResumeCredentials(Option<Seq<char>>, Seq<char>),
    ResumeLogin,
    ResumePromptCredentials,
    ResumeRetryAutomation,
    ResumeCancelled(Seq<char>),
    ResumeFailed(Seq<char>),
    FinalizeLogin,
    KeepWaiting(Option<Seq<char>>, Option<(bool, Seq<char>)>),
}

pub open spec fn opt_view(o: Option<String>) -> Option<Seq<char>> {
    match o {
        Some(s) => Some(s@),
        None => None,
    }
}

pub open spec fn log_view(o: Option<StageLog>) -> Option<(bool, Seq<char>)> {
    match o {
        Some(l) => Some((l.warning, l.text@)),
        None => None,
    }
}

pub open spec fn wait_view(d: WaitDecision) -> WaitView {
    match d {
        WaitDecision::Resume(o) => match o {
            ResumeOutcome::Credentials(i) => WaitView::ResumeCredentials(opt_view(i.email), i.password@),
            ResumeOutcome::Login => WaitView::ResumeLogin,
            ResumeOutcome::PromptCredentials => WaitView::ResumePromptCredentials,
            ResumeOutcome::RetryAutomation => WaitView::ResumeRetryAutomation,
            ResumeOutcome::Cancelled(m) => WaitView::ResumeCancelled(m@),
            ResumeOutcome::Failed(m) => WaitView::ResumeFailed(m@),
        },
        WaitDecision::FinalizeLogin => WaitView::FinalizeLogin,
        WaitDecision::KeepWaiting { rewait_message, log } => WaitView::KeepWaiting(opt_view(rewait_message), log_view(log)),
    }
}

/// The decision after one look. Cancellation comes first, then a closed
/// window, then the timeout; a job waiting for credentials resumes with
/// credentials whose password is not blank once trimmed (the password
/// handed on trimmed) and otherwise asks again; a job waiting for the
/// captcha goes by the login page, and where the page still waits while
/// the user reported the captcha done, says so.
pub open spec fn wait_decision_for(
    cancel_requested: bool,
    session_active: bool,
    elapsed_secs: u64,
    look: WaitLook,
    invalid_input_message: Seq<char>,
) -> WaitView {
    if cancel_requested {
        WaitView::ResumeCancelled("用户取消"@)
    } else if !session_active {
        WaitView::ResumeCancelled("用户已关闭对应浏览器窗口"@)
    } else if elapsed_secs >= ACCOUNT_BROWSER_SESSION_TIMEOUT_SECS {
        WaitView::ResumeFailed("浏览器会话等待超时，已自动清理"@)
    } else {
        match look {
            WaitLook::Credentials(input) => match input {
                None => WaitView::KeepWaiting(None, None),
                Some(Some(i)) if trimmed(i.password@).len() > 0 => WaitView::ResumeCredentials(
                    opt_view(i.email),
                    trimmed(i.password@),
                ),
                Some(_) => WaitView::KeepWaiting(
                    Some(invalid_input_message),
                    Some((true, "阶段：补充凭据格式无效，继续等待"@)),
                ),
            },
            WaitLook::Captcha { captcha_input_received, login_state } => match login_state {
                Some(CdpLoginState::Success) => WaitView::FinalizeLogin,
                Some(CdpLoginState::InvalidCredentials) => WaitView::ResumePromptCredentials,
                Some(CdpLoginState::RobotVerificationBlocked) | Some(CdpLoginState::RegisteredEmail) =>
                    WaitView::ResumeRetryAutomation,
                _ => if captcha_input_received {
                    WaitView::KeepWaiting(
                        Some("验证码尚未完成，请在对应浏览器窗口继续验证"@),
                        Some((true, "阶段：验证码尚未完成，继续等待"@)),
                    )
                } else {
                    WaitView::KeepWaiting(None, None)
                },
            },
        }
    }
}

/// The decision after one look at a waiting job (see `wait_decision_for`).
pub fn wait_decision(
    cancel_requested: bool,
    session_active: bool,
    elapsed_secs: u64,
    look: WaitLook,
    invalid_input_message: &str,
) -> (r: WaitDecision)
    ensures
        wait_view(r) == wait_decision_for(cancel_requested, session_active, elapsed_secs, look, invalid_input_message@),
{
    if cancel_requested {
        return WaitDecision::Resume(ResumeOutcome::Cancelled(owned("用户取消")));
    }
    if !session_active {
        return WaitDecision::Resume(ResumeOutcome::Cancelled(owned("用户已关闭对应浏览器窗口")));
    }
    if elapsed_secs >= ACCOUNT_BROWSER_SESSION_TIMEOUT_SECS {
        return WaitDecision::Resume(ResumeOutcome::Failed(owned("浏览器会话等待超时，已自动清理")));
    }
    match look {
        WaitLook::Credentials(input) => match input {
            None => WaitDecision::KeepWaiting { rewait_message: None, log: None },
            Some(parsed) => {
                if let Some(i) = parsed {
                    let password = trim(i.password.as_str());
                    if !is_empty_text(password.as_str()) {
                        return WaitDecision::Resume(ResumeOutcome::Credentials(
                            BrowserCredentialsTaskInput { email: i.email, password },
                        ));
                    }
                }
                WaitDecision::KeepWaiting {
                    rewait_message: Some(owned(invalid_input_message)),
                    log: Some(StageLog { warning: true, text: owned("阶段：补充凭据格式无效，继续等待") }),
                }
            },
        },
        WaitLook::Captcha { captcha_input_received, login_state } => match login_state {
            Some(CdpLoginState::Success) => WaitDecision::FinalizeLogin,
            Some(CdpLoginState::InvalidCredentials) => WaitDecision::Resume(ResumeOutcome::PromptCredentials),
            Some(CdpLoginState::RobotVerificationBlocked) | Some(CdpLoginState::RegisteredEmail) =>
                WaitDecision::Resume(ResumeOutcome::RetryAutomation),
            _ => {
                if captcha_input_received {
                    WaitDecision::KeepWaiting {
                        rewait_message: Some(owned("验证码尚未完成，请在对应浏览器窗口继续验证")),
                        log: Some(StageLog { warning: true, text: owned("阶段：验证码尚未完成，继续等待") }),
                    }
                } else {
                    WaitDecision::KeepWaiting { rewait_message: None, log: None }
                }
            },
        },
    }
}

/// The line logged before a job resumes with credentials.
pub fn credentials_received_log() -> (r: StageLog)
    ensures
        !r.warning,
        r.text@ == "阶段：收到补充账号密码"@,
{
    StageLog { warning: false, text: owned("阶段：收到补充账号密码") }
}

/// How a job resumes once the login that the page showed was finished:
/// with `Login`, or failed with the error's text.
pub fn finalized_login_outcome(result: Result<(), String>) -> (r: ResumeOutcome)
    ensures
        match result {
            Ok(()) => r is Login,
            Err(e) => r matches ResumeOutcome::Failed(m) && m@ == e@,
        },
{
    match result {
        Ok(()) => ResumeOutcome::Login,
        Err(e) => ResumeOutcome::Failed(e),
    }
}

/// The message of a failed switch of the item to waiting: `detail` is the
/// coordinator's error as it prints itself.
pub fn wait_transition_failed(detail: &str) -> (r: ResumeOutcome)
    ensures
        r matches ResumeOutcome::Failed(m) && m@ == "browser batch wait transition failed: "@ + detail@,
{
    ResumeOutcome::Failed(concat2("browser batch wait transition failed: ", detail))
}

} // verus!
