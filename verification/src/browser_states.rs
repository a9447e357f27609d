//! What a browser page reports of a login or a registration, and what the
//! service does about it while it waits for the user.

use vstd::prelude::*;
use crate::credential::BrowserCredentialsTaskInput;
use crate::credential_job::ResumeOutcome;
use crate::tasks::TaskUserInputKind;
use crate::text::{is_empty_text, owned, trim, trimmed};

verus! {

/// The state of a login page.
#[derive(Debug, Clone, Copy, PartialEq, Eq)]
pub enum CdpLoginState {
    Success,
    InvalidCredentials,
    RobotVerificationBlocked,
    RegisteredEmail,
    ChallengeRequired,
    ChallengePossible,
    Pending,
}

/// The state of a registration page.
#[derive(Debug, Clone, Copy, PartialEq, Eq)]
pub enum CdpRegistrationState {
    AccountCreated,
    ChallengeRequired,
    EmailVerificationFailed,
    EmailVerificationRequired,
    Pending,
    RegisteredEmail,
    SubscriptionSucceeded,
}

/// What a waiting account browser session does with its login page's state.
#[derive(Debug, Clone, Copy, PartialEq, Eq)]
pub enum AccountBrowserCaptchaAction {
    KeepWaiting,
    PromptCredentials,
    FinalizeLogin,
    ResumeAutomation,
}

pub open spec fn captcha_action_for(state: CdpLoginState) -> AccountBrowserCaptchaAction {
    match state {
        CdpLoginState::InvalidCredentials => AccountBrowserCaptchaAction::PromptCredentials,
        CdpLoginState::Success => AccountBrowserCaptchaAction::FinalizeLogin,
        CdpLoginState::RobotVerificationBlocked | CdpLoginState::RegisteredEmail =>
            AccountBrowserCaptchaAction::ResumeAutomation,
        _ => AccountBrowserCaptchaAction::KeepWaiting,
    }
}

pub fn account_browser_captcha_action(state: CdpLoginState) -> (r: AccountBrowserCaptchaAction)
    ensures
        r == captcha_action_for(state),
{
    match state {
        CdpLoginState::InvalidCredentials => AccountBrowserCaptchaAction::PromptCredentials,
        CdpLoginState::Success => AccountBrowserCaptchaAction::FinalizeLogin,
        CdpLoginState::RobotVerificationBlocked | CdpLoginState::RegisteredEmail =>
            AccountBrowserCaptchaAction::ResumeAutomation,
        CdpLoginState::ChallengeRequired
        | CdpLoginState::ChallengePossible
        | CdpLoginState::Pending => AccountBrowserCaptchaAction::KeepWaiting,
    }
}

/// Whether a registration session waiting for the user moves on.
#[derive(Debug, Clone, Copy, PartialEq, Eq)]
pub enum RegistrationSessionPollAction {
    KeepWaiting,
    Advance,
}

/// A session waiting for the captcha moves on once the page left the
/// challenge; one waiting for the e-mail code once the page left the code
/// step; any other session keeps waiting.
pub open spec fn registration_poll_for(
    waiting_for_input: Option<TaskUserInputKind>,
    state: CdpRegistrationState,
) -> RegistrationSessionPollAction {
    match waiting_for_input {
        Some(TaskUserInputKind::CaptchaCompleted) => if state == CdpRegistrationState::ChallengeRequired
            || state == CdpRegistrationState::Pending {
            RegistrationSessionPollAction::KeepWaiting
        } else {
            RegistrationSessionPollAction::Advance
        },
        Some(TaskUserInputKind::EmailCode) => if state
            == CdpRegistrationState::EmailVerificationRequired || state
            == CdpRegistrationState::EmailVerificationFailed || state
            == CdpRegistrationState::Pending {
            RegistrationSessionPollAction::KeepWaiting
        } else {
            RegistrationSessionPollAction::Advance
        },
        _ => RegistrationSessionPollAction::KeepWaiting,
    }
}

pub fn registration_session_poll_action(
    waiting_for_input: Option<TaskUserInputKind>,
    state: &CdpRegistrationState,
) -> (r: RegistrationSessionPollAction)
    ensures
        r == registration_poll_for(waiting_for_input, *state),
{
    match waiting_for_input {
        Some(TaskUserInputKind::CaptchaCompleted) => match state {
            CdpRegistrationState::ChallengeRequired | CdpRegistrationState::Pending => {
                RegistrationSessionPollAction::KeepWaiting
            },
            _ => RegistrationSessionPollAction::Advance,
        },
        Some(TaskUserInputKind::EmailCode) => match state {
            CdpRegistrationState::EmailVerificationRequired
            | CdpRegistrationState::EmailVerificationFailed
            | CdpRegistrationState::Pending => RegistrationSessionPollAction::KeepWaiting,
            _ => RegistrationSessionPollAction::Advance,
        },
        _ => RegistrationSessionPollAction::KeepWaiting,
    }
}

// ---------------------------------------------------------------------------
// Waiting for the user inside a credential job

/// Why a wait ends before any input: the task was cancelled, the user
/// closed the browser window, or the wait timed out.
pub fn wait_interrupted(cancel_requested: bool, session_active: bool, timed_out: bool) -> (r: Option<
    ResumeOutcome,
>)
    ensures
        cancel_requested ==> (r matches Some(ResumeOutcome::Cancelled(m)) && m@ == "用户取消"@),
        !cancel_requested && !session_active ==> (r matches Some(ResumeOutcome::Cancelled(m))
            && m@ == "用户已关闭对应浏览器窗口"@),
        !cancel_requested && session_active && timed_out ==> (r matches Some(
            ResumeOutcome::Failed(m),
        ) && m@ == "浏览器会话等待超时，已自动清理"@),
        !cancel_requested && session_active && !timed_out ==> r is None,
{
    if cancel_requested {
        Some(ResumeOutcome::Cancelled(owned("用户取消")))
    } else if !session_active {
        Some(ResumeOutcome::Cancelled(owned("用户已关闭对应浏览器窗口")))
    } else if timed_out {
        Some(ResumeOutcome::Failed(owned("浏览器会话等待超时，已自动清理")))
    } else {
        None
    }
}

/// Re-entered credentials are taken when their password is not blank; the
/// password is trimmed. `None` (input that did not parse, or a blank
/// password) means the wait goes on with the invalid-input prompt.
pub fn accept_credentials_input(parsed: Option<BrowserCredentialsTaskInput>) -> (r: Option<
    BrowserCredentialsTaskInput,
>)
    ensures
        match parsed {
            Some(p) => if trimmed(p.password@).len() > 0 {
                r matches Some(x) && x.email == p.email && x.password@ == trimmed(p.password@)
            } else {
                r is None
            },
            None => r is None,
        },
{
    match parsed {
        Some(p) => {
            let password = trim(p.password.as_str());
            if is_empty_text(password.as_str()) {
                None
            } else {
                Some(BrowserCredentialsTaskInput { email: p.email, password })
            }
        },
        None => None,
    }
}

/// What one poll of a captcha wait found.
pub enum CaptchaPoll {
    /// The login succeeded: finalize it.
    FinalizeLogin,
    /// The page asks for credentials again.
    PromptCredentials,
    /// Retry the automation.
    RetryAutomation,
    /// Keep waiting; when `reprompt`, tell the user the captcha is not done.
    KeepWaiting { reprompt: bool },
}

/// The captcha wait's decision on the page's state (`None` when it could not
/// be read) and on whether the user said the captcha was done.
pub fn captcha_wait_poll(state: Option<CdpLoginState>, captcha_input_received: bool) -> (r:
    CaptchaPoll)
    ensures
        state == Some(CdpLoginState::Success) ==> r is FinalizeLogin,
        state == Some(CdpLoginState::InvalidCredentials) ==> r is PromptCredentials,
        (state == Some(CdpLoginState::RobotVerificationBlocked) || state == Some(
            CdpLoginState::RegisteredEmail,
        )) ==> r is RetryAutomation,
        (state is None || state == Some(CdpLoginState::ChallengeRequired) || state == Some(
            CdpLoginState::ChallengePossible,
        ) || state == Some(CdpLoginState::Pending)) ==> r == (CaptchaPoll::KeepWaiting {
            reprompt: captcha_input_received,
        }),
{
    match state {
        Some(CdpLoginState::Success) => CaptchaPoll::FinalizeLogin,
        Some(CdpLoginState::InvalidCredentials) => CaptchaPoll::PromptCredentials,
        Some(CdpLoginState::RobotVerificationBlocked) | Some(CdpLoginState::RegisteredEmail) =>
            CaptchaPoll::RetryAutomation,
        _ => CaptchaPoll::KeepWaiting { reprompt: captcha_input_received },
    }
}

} // verus!
