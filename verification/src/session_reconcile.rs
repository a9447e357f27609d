//! Looking after the browser sessions that wait for the user between
//! requests: sessions of finished tasks are cleaned up, closed windows
//! cancel their task, sessions that waited too long fail it, and waiting
//! registrations are polled for the user's progress.

use vstd::prelude::*;
use crate::browser_states::CdpRegistrationState;
use crate::tasks::{is_terminal_phase, phase_is_terminal, ServiceTaskPhase, TaskUserInputKind};

verus! {

/// How long an account browser session may wait for the user, in seconds.
pub const ACCOUNT_BROWSER_SESSION_TIMEOUT_SECS: u64 = 600;

/// What is done with a waiting registration session.
pub enum RegistrationSessionStep {
    /// The task is gone or finished: clean the session up and free the
    /// registration slot.
    CleanupAndRelease,
    /// The user closed the browser: cancel the task.
    CancelClosed,
    /// The session waited too long: fail the task with the message.
    FailTimeout(&'static str),
    /// Keep the session as it is.
    Keep,
    /// Read the registration page to see whether the user moved on.
    Poll,
}

pub enum RegistrationStepView {
    CleanupAndRelease,
    CancelClosed,
    FailTimeout(Seq<char>),
    Keep,
    Poll,
}

pub open spec fn registration_step_view(s: RegistrationSessionStep) -> RegistrationStepView {
    match s {
        RegistrationSessionStep::CleanupAndRelease => RegistrationStepView::CleanupAndRelease,
        RegistrationSessionStep::CancelClosed => RegistrationStepView::CancelClosed,
        RegistrationSessionStep::FailTimeout(m) => RegistrationStepView::FailTimeout(m@),
        RegistrationSessionStep::Keep => RegistrationStepView::Keep,
        RegistrationSessionStep::Poll => RegistrationStepView::Poll,
    }
}

/// The step for a registration session: `task` is its task's phase and the
/// input it waits for (`None` when the task is gone); a session waiting for
/// the captcha may wait `captcha_timeout_secs`, any other the account
/// browser timeout.
pub open spec fn registration_session_step_for(
    task: Option<(ServiceTaskPhase, Option<TaskUserInputKind>)>,
    session_active: bool,
    idle_secs: u64,
    captcha_timeout_secs: u64,
) -> RegistrationStepView {
    match task {
        None => RegistrationStepView::CleanupAndRelease,
        Some((phase, waiting)) => if phase_is_terminal(phase) {
            RegistrationStepView::CleanupAndRelease
        } else if !session_active {
            RegistrationStepView::CancelClosed
        } else if waiting == Some(TaskUserInputKind::CaptchaCompleted) && idle_secs >= captcha_timeout_secs {
            RegistrationStepView::FailTimeout("reCAPTCHA 等待超时，浏览器会话已自动清理"@)
        } else if waiting != Some(TaskUserInputKind::CaptchaCompleted) && idle_secs >= ACCOUNT_BROWSER_SESSION_TIMEOUT_SECS {
            RegistrationStepView::FailTimeout("注册浏览器会话等待超时，已自动清理"@)
        } else if waiting == Some(TaskUserInputKind::CaptchaCompleted) || waiting == Some(TaskUserInputKind::EmailCode) {
            RegistrationStepView::Poll
        } else {
            RegistrationStepView::Keep
        },
    }
}

pub fn registration_session_step(
    task: Option<(ServiceTaskPhase, Option<TaskUserInputKind>)>,
    session_active: bool,
    idle_secs: u64,
    captcha_timeout_secs: u64,
) -> (r: RegistrationSessionStep)
    ensures
        registration_step_view(r) == registration_session_step_for(task, session_active, idle_secs, captcha_timeout_secs),
{
    match task {
        None => RegistrationSessionStep::CleanupAndRelease,
        Some((phase, waiting)) => {
            if is_terminal_phase(phase) {
                return RegistrationSessionStep::CleanupAndRelease;
            }
            if !session_active {
                return RegistrationSessionStep::CancelClosed;
            }
            let captcha = matches!(waiting, Some(TaskUserInputKind::CaptchaCompleted));
            let email = matches!(waiting, Some(TaskUserInputKind::EmailCode));
            if captcha && idle_secs >= captcha_timeout_secs {
                return RegistrationSessionStep::FailTimeout("reCAPTCHA 等待超时，浏览器会话已自动清理");
            }
            if !captcha && idle_secs >= ACCOUNT_BROWSER_SESSION_TIMEOUT_SECS {
                return RegistrationSessionStep::FailTimeout("注册浏览器会话等待超时，已自动清理");
            }
            if captcha || email {
                RegistrationSessionStep::Poll
            } else {
                RegistrationSessionStep::Keep
            }
        },
    }
}

/// The message logged when a polled registration moves on.
pub open spec fn advance_message(waiting: Option<TaskUserInputKind>, s: CdpRegistrationState) -> Seq<char> {
    if waiting == Some(TaskUserInputKind::EmailCode) && (s == CdpRegistrationState::AccountCreated || s == CdpRegistrationState::SubscriptionSucceeded) {
        "已自动检测到邮箱验证完成，继续注册流程"@
    } else if waiting == Some(TaskUserInputKind::EmailCode) && s == CdpRegistrationState::ChallengeRequired {
        "邮箱验证页面出现 reCAPTCHA，转入验证等待"@
    } else if waiting == Some(TaskUserInputKind::EmailCode) && s == CdpRegistrationState::RegisteredEmail {
        "检测到邮箱已注册，返回注册信息输入"@
    } else if waiting == Some(TaskUserInputKind::CaptchaCompleted) && (s == CdpRegistrationState::EmailVerificationRequired
        || s == CdpRegistrationState::EmailVerificationFailed) {
        "已自动检测到 reCAPTCHA 完成，转入邮箱验证码阶段"@
    } else {
        "已自动检测到 reCAPTCHA 完成，继续注册流程"@
    }
}

pub fn registration_advance_message(waiting: Option<TaskUserInputKind>, s: CdpRegistrationState) -> (r: &'static str)
    ensures
        r@ == advance_message(waiting, s),
{
    match (waiting, s) {
        (Some(TaskUserInputKind::EmailCode), CdpRegistrationState::AccountCreated)
        | (Some(TaskUserInputKind::EmailCode), CdpRegistrationState::SubscriptionSucceeded) =>
            "已自动检测到邮箱验证完成，继续注册流程",
        (Some(TaskUserInputKind::EmailCode), CdpRegistrationState::ChallengeRequired) =>
            "邮箱验证页面出现 reCAPTCHA，转入验证等待",
        (Some(TaskUserInputKind::EmailCode), CdpRegistrationState::RegisteredEmail) =>
            "检测到邮箱已注册，返回注册信息输入",
        (Some(TaskUserInputKind::CaptchaCompleted), CdpRegistrationState::EmailVerificationRequired)
        | (Some(TaskUserInputKind::CaptchaCompleted), CdpRegistrationState::EmailVerificationFailed) =>
            "已自动检测到 reCAPTCHA 完成，转入邮箱验证码阶段",
        _ => "已自动检测到 reCAPTCHA 完成，继续注册流程",
    }
}

/// What is done with a waiting account browser session.
#[derive(Debug, Clone, Copy, PartialEq, Eq, Structural)]
pub enum AccountSessionStep {
    /// The task is gone or finished: clean up and free the slot.
    CleanupAndRelease,
    /// The user closed the browser: cancel the task.
    CancelClosed,
    /// Read the login page to see whether the captcha was solved.
    CheckCaptcha,
    /// The session waited too long: fail the task.
    FailTimeout,
    Keep,
}

/// The step for an account browser session; a session waiting for the
/// captcha is checked first and comes back here with `captcha_checked`
/// when it still waits.
pub open spec fn account_session_step_for(
    task_phase: Option<ServiceTaskPhase>,
    session_active: bool,
    waiting_for_captcha: bool,
    captcha_checked: bool,
    idle_secs: u64,
) -> AccountSessionStep {
    match task_phase {
        None => AccountSessionStep::CleanupAndRelease,
        Some(phase) => if phase_is_terminal(phase) {
            AccountSessionStep::CleanupAndRelease
        } else if !session_active {
            AccountSessionStep::CancelClosed
        } else if waiting_for_captcha && !captcha_checked {
            AccountSessionStep::CheckCaptcha
        } else if idle_secs >= ACCOUNT_BROWSER_SESSION_TIMEOUT_SECS {
            AccountSessionStep::FailTimeout
        } else {
            AccountSessionStep::Keep
        },
    }
}

pub fn account_session_step(
    task_phase: Option<ServiceTaskPhase>,
    session_active: bool,
    waiting_for_captcha: bool,
    captcha_checked: bool,
    idle_secs: u64,
) -> (r: AccountSessionStep)
    ensures
        r == account_session_step_for(task_phase, session_active, waiting_for_captcha, captcha_checked, idle_secs),
{
    match task_phase {
        None => AccountSessionStep::CleanupAndRelease,
        Some(phase) => if is_terminal_phase(phase) {
            AccountSessionStep::CleanupAndRelease
        } else if !session_active {
            AccountSessionStep::CancelClosed
        } else if waiting_for_captcha && !captcha_checked {
            AccountSessionStep::CheckCaptcha
        } else if idle_secs >= ACCOUNT_BROWSER_SESSION_TIMEOUT_SECS {
            AccountSessionStep::FailTimeout
        } else {
            AccountSessionStep::Keep
        },
    }
}

/// The messages of the session ends.
pub fn account_session_closed_message() -> (r: &'static str)
    ensures
        r@ == "用户已关闭浏览器，任务已取消"@,
{
    "用户已关闭浏览器，任务已取消"
}

pub fn registration_session_closed_message() -> (r: &'static str)
    ensures
        r@ == "用户已关闭浏览器，注册任务已取消"@,
{
    "用户已关闭浏览器，注册任务已取消"
}

pub fn account_session_timeout_message() -> (r: &'static str)
    ensures
        r@ == "浏览器会话等待超时，已自动清理"@,
{
    "浏览器会话等待超时，已自动清理"
}

/// A session of a finished task is never kept: it is cleaned up before
/// anything else is looked at.
pub proof fn finished_tasks_keep_no_session(
    phase: ServiceTaskPhase,
    waiting: Option<TaskUserInputKind>,
    session_active: bool,
    idle_secs: u64,
    captcha_timeout_secs: u64,
    waiting_for_captcha: bool,
    captcha_checked: bool,
)
    requires
        phase_is_terminal(phase),
    ensures
        registration_session_step_for(Some((phase, waiting)), session_active, idle_secs, captcha_timeout_secs) is CleanupAndRelease,
        account_session_step_for(Some(phase), session_active, waiting_for_captcha, captcha_checked, idle_secs) == AccountSessionStep::CleanupAndRelease,
{
}

} // verus!
