//! Where a registration's browser session goes next: after the sign-up
//! form, after the subscription page was opened, and when the sign-up is
//! blocked by the robot check and a fallback proxy is there to retry with.

use vstd::prelude::*;
use crate::browser_states::CdpRegistrationState;
use crate::registration::{
    registration_subscription_open_error_is_retryable, subscription_open_error_retryable,
    BrowserAutomationError,
};
use crate::text::{concat2, concat6, decimal, join, joined, owned, usize_decimal, views};

verus! {

/// What the registration does next.
pub enum RegistrationNext {
    /// The account exists: open the subscription page.
    OpenSubscription,
    /// The subscription page is open: fill the subscription forms.
    FillSubscriptionForms,
    /// The subscription is already active: confirm it.
    ConfirmSubscription,
    /// Wait for the e-mail code sent to this address.
    WaitEmailCode { email: String },
    /// The address is registered already: wait for other credentials.
    WaitNewCredentials { email: String },
    /// Wait for the user to solve the captcha.
    WaitCaptcha,
    /// Clean the session up and fail with this error.
    Fail(BrowserAutomationError),
}

pub enum NextView {
    OpenSubscription,
    FillSubscriptionForms,
    ConfirmSubscription,
    WaitEmailCode(Seq<char>),
    WaitNewCredentials(Seq<char>),
    WaitCaptcha,
    Fail(BrowserAutomationError),
}

pub open spec fn next_view(n: RegistrationNext) -> NextView {
    match n {
        RegistrationNext::OpenSubscription => NextView::OpenSubscription,
        RegistrationNext::FillSubscriptionForms => NextView::FillSubscriptionForms,
        RegistrationNext::ConfirmSubscription => NextView::ConfirmSubscription,
        RegistrationNext::WaitEmailCode { email } => NextView::WaitEmailCode(email@),
        RegistrationNext::WaitNewCredentials { email } => NextView::WaitNewCredentials(email@),
        RegistrationNext::WaitCaptcha => NextView::WaitCaptcha,
        RegistrationNext::Fail(e) => NextView::Fail(e),
    }
}

/// The step a page state leads to, for the registration of `email`.
pub open spec fn next_from_state(s: CdpRegistrationState, email: Seq<char>) -> NextView {
    match s {
        CdpRegistrationState::AccountCreated => NextView::OpenSubscription,
        CdpRegistrationState::SubscriptionSucceeded => NextView::ConfirmSubscription,
        CdpRegistrationState::EmailVerificationRequired => NextView::WaitEmailCode(email),
        CdpRegistrationState::EmailVerificationFailed => NextView::WaitEmailCode(email),
        CdpRegistrationState::RegisteredEmail => NextView::WaitNewCredentials(email),
        CdpRegistrationState::ChallengeRequired => NextView::WaitCaptcha,
        CdpRegistrationState::Pending => NextView::WaitCaptcha,
    }
}

/// Where a registration resumed from a page state goes.
pub fn registration_next_from_state(s: CdpRegistrationState, email: &str) -> (r: RegistrationNext)
    ensures
        next_view(r) == next_from_state(s, email@),
{
    match s {
        CdpRegistrationState::AccountCreated => RegistrationNext::OpenSubscription,
        CdpRegistrationState::SubscriptionSucceeded => RegistrationNext::ConfirmSubscription,
        CdpRegistrationState::EmailVerificationRequired => RegistrationNext::WaitEmailCode { email: owned(email) },
        CdpRegistrationState::EmailVerificationFailed => RegistrationNext::WaitEmailCode { email: owned(email) },
        CdpRegistrationState::RegisteredEmail => RegistrationNext::WaitNewCredentials { email: owned(email) },
        CdpRegistrationState::ChallengeRequired => RegistrationNext::WaitCaptcha,
        CdpRegistrationState::Pending => RegistrationNext::WaitCaptcha,
    }
}

/// The step the sign-up's outcome leads to: `Ok` tells whether the
/// subscription already succeeded; the e-mail errors name their address.
pub open spec fn next_from_signup(result: Result<bool, BrowserAutomationError>, email: Seq<char>) -> NextView {
    match result {
        Ok(subscribed) => if subscribed {
            NextView::ConfirmSubscription
        } else {
            NextView::OpenSubscription
        },
        Err(BrowserAutomationError::EmailCodeRequired { email: e }) => NextView::WaitEmailCode(e@),
        Err(BrowserAutomationError::RegisteredEmail { email: e }) => NextView::WaitNewCredentials(e@),
        Err(BrowserAutomationError::ChallengeRequired { .. }) => NextView::WaitCaptcha,
        Err(e) => NextView::Fail(e),
    }
}

/// Where the registration goes after the sign-up form, and whether the task
/// moves to the registered-e-mail check first (it does unless a captcha
/// stopped the sign-up).
pub fn registration_next_from_signup(result: Result<bool, BrowserAutomationError>, email: &str) -> (r: (bool, RegistrationNext))
    ensures
        r.0 == !(result matches Err(BrowserAutomationError::ChallengeRequired { .. })),
        next_view(r.1) == next_from_signup(result, email@),
{
    let detect = !matches!(result, Err(BrowserAutomationError::ChallengeRequired { .. }));
    let next = match result {
        Ok(subscribed) => if subscribed {
            RegistrationNext::ConfirmSubscription
        } else {
            RegistrationNext::OpenSubscription
        },
        Err(BrowserAutomationError::EmailCodeRequired { email }) => RegistrationNext::WaitEmailCode { email },
        Err(BrowserAutomationError::RegisteredEmail { email }) => RegistrationNext::WaitNewCredentials { email },
        Err(BrowserAutomationError::ChallengeRequired { .. }) => RegistrationNext::WaitCaptcha,
        Err(e) => RegistrationNext::Fail(e),
    };
    (detect, next)
}

/// The opening of the subscription page is tried once more when it failed
/// while the page was still switching and the browser is still open.
pub fn subscription_page_retry(result: &Result<CdpRegistrationState, BrowserAutomationError>, session_active: bool) -> (r: bool)
    ensures
        r == (*result matches Err(e) && subscription_open_error_retryable(e) && session_active),
{
    match result {
        Err(e) => registration_subscription_open_error_is_retryable(e) && session_active,
        Ok(_) => false,
    }
}

/// The step the subscription page leads to.
pub open spec fn next_from_subscription_page(result: Result<CdpRegistrationState, BrowserAutomationError>, email: Seq<char>) -> NextView {
    match result {
        Ok(CdpRegistrationState::AccountCreated) => NextView::FillSubscriptionForms,
        Ok(CdpRegistrationState::SubscriptionSucceeded) => NextView::ConfirmSubscription,
        Ok(CdpRegistrationState::ChallengeRequired) => NextView::WaitCaptcha,
        Ok(CdpRegistrationState::Pending) => NextView::WaitCaptcha,
        Ok(CdpRegistrationState::RegisteredEmail) => NextView::WaitNewCredentials(email),
        Ok(CdpRegistrationState::EmailVerificationRequired) => NextView::WaitEmailCode(email),
        Ok(CdpRegistrationState::EmailVerificationFailed) => NextView::WaitEmailCode(email),
        Err(e) => NextView::Fail(e),
    }
}

/// Where the registration of `email` goes once the subscription page was
/// opened, or failed to open.
pub fn registration_next_from_subscription_page(result: Result<CdpRegistrationState, BrowserAutomationError>, email: &str) -> (r: RegistrationNext)
    ensures
        next_view(r) == next_from_subscription_page(result, email@),
{
    match result {
        Ok(CdpRegistrationState::AccountCreated) => RegistrationNext::FillSubscriptionForms,
        Ok(CdpRegistrationState::SubscriptionSucceeded) => RegistrationNext::ConfirmSubscription,
        Ok(CdpRegistrationState::ChallengeRequired) => RegistrationNext::WaitCaptcha,
        Ok(CdpRegistrationState::Pending) => RegistrationNext::WaitCaptcha,
        Ok(CdpRegistrationState::RegisteredEmail) => RegistrationNext::WaitNewCredentials { email: owned(email) },
        Ok(CdpRegistrationState::EmailVerificationRequired) => RegistrationNext::WaitEmailCode { email: owned(email) },
        Ok(CdpRegistrationState::EmailVerificationFailed) => RegistrationNext::WaitEmailCode { email: owned(email) },
        Err(e) => RegistrationNext::Fail(e),
    }
}

/// The warning logged while the registration waits for the user.
pub open spec fn waiting_log_text(n: NextView) -> Option<Seq<char>> {
    match n {
        NextView::WaitEmailCode(e) => Some("等待邮箱验证码: "@ + e),
        NextView::WaitNewCredentials(e) => Some("邮箱已注册: "@ + e),
        NextView::WaitCaptcha => Some("等待用户完成 reCAPTCHA"@),
        _ => None,
    }
}

/// The warning to log for a step that waits for the user.
pub fn waiting_log(next: &RegistrationNext) -> (r: Option<String>)
    ensures
        (match r { Some(t) => Some(t@), None => None }) == waiting_log_text(next_view(*next)),
{
    match next {
        RegistrationNext::WaitEmailCode { email } => Some(concat2("等待邮箱验证码: ", email.as_str())),
        RegistrationNext::WaitNewCredentials { email } => Some(concat2("邮箱已注册: ", email.as_str())),
        RegistrationNext::WaitCaptcha => Some(owned("等待用户完成 reCAPTCHA")),
        _ => None,
    }
}

// ---------------------------------------------------------------------------
// The sign-up with a fallback proxy

/// Which proxy a browser session goes through.
#[derive(Debug, Clone, Copy, PartialEq, Eq, Structural)]
pub enum ChromeProxyAttempt {
    Primary,
    Fallback,
}

/// What starting the sign-up in a new browser session came to: the session
/// could not start, or it started and the sign-up gave its outcome.
pub enum SignupAttempt {
    SessionFailed(BrowserAutomationError),
    Finished(Result<bool, BrowserAutomationError>),
}

/// What the caller does after a sign-up attempt.
pub enum SignupDecision {
    /// Close the session and sign up again through the fallback proxy,
    /// logging why.
    RetryWithFallback,
    /// No session to clean up: fail with the error.
    FailWithoutSession(BrowserAutomationError),
    /// Go on with the session as the sign-up's outcome says.
    Continue(bool, RegistrationNext),
}

/// The robot check refused the sign-up through the primary proxy while a
/// fallback proxy is configured: the sign-up is tried once more through it.
pub open spec fn retries_with_fallback(attempt: ChromeProxyAttempt, has_fallback: bool, a: SignupAttempt) -> bool {
    a matches SignupAttempt::Finished(Err(BrowserAutomationError::RobotVerificationBlocked))
        && attempt is Primary && has_fallback
}

pub fn signup_decision(attempt: ChromeProxyAttempt, has_fallback: bool, a: SignupAttempt, email: &str) -> (r: SignupDecision)
    ensures
        retries_with_fallback(attempt, has_fallback, a) <==> r is RetryWithFallback,
        a matches SignupAttempt::SessionFailed(e) ==> r == SignupDecision::FailWithoutSession(e),
        !retries_with_fallback(attempt, has_fallback, a) ==> (a matches SignupAttempt::Finished(res) ==> (r matches SignupDecision::Continue(
            detect,
            next,
        ) && detect == !(res matches Err(BrowserAutomationError::ChallengeRequired { .. })) && next_view(next) == next_from_signup(res, email@))),
{
    match a {
        SignupAttempt::SessionFailed(e) => SignupDecision::FailWithoutSession(e),
        SignupAttempt::Finished(res) => {
            let blocked = matches!(res, Err(BrowserAutomationError::RobotVerificationBlocked));
            if blocked && attempt == ChromeProxyAttempt::Primary && has_fallback {
                SignupDecision::RetryWithFallback
            } else {
                let (detect, next) = registration_next_from_signup(res, email);
                SignupDecision::Continue(detect, next)
            }
        },
    }
}

/// The log line when the sign-up is retried through the fallback proxy.
pub fn fallback_retry_log() -> (r: &'static str)
    ensures
        r@ == "机器人验证未通过，自动切换系统代理重试一次"@,
{
    "机器人验证未通过，自动切换系统代理重试一次"
}

/// The diagnostic logged when the robot check refused the sign-up: the
/// captcha frames and visible challenges on the page, and its error texts.
pub fn robot_block_diagnostic(frames: usize, challenges: usize, errors: &Vec<String>) -> (r: String)
    ensures
        r@ == "验证诊断：页面拒绝验证，验证码框 "@ + decimal(frames as nat) + " 个，可见挑战 "@ + decimal(challenges as nat)
            + " 个；"@ + joined(views(errors@), "；"@),
{
    let joined_errors = join(errors, "；");
    concat6(
        "验证诊断：页面拒绝验证，验证码框 ",
        usize_decimal(frames).as_str(),
        " 个，可见挑战 ",
        usize_decimal(challenges).as_str(),
        " 个；",
        joined_errors.as_str(),
    )
}

// ---------------------------------------------------------------------------
// The e-mail code

/// Where a registration goes after its e-mail code was submitted, with the
/// warning to log when it waits for the code again.
pub enum EmailCodeNext {
    /// The account exists: open the subscription page.
    OpenSubscription,
    /// Wait for the code again.
    WaitEmailCode { log: Option<&'static str> },
    WaitCaptcha,
    WaitNewCredentials,
    ConfirmSubscription,
    /// Clean the session up and fail with the error.
    Fail(BrowserAutomationError),
}

pub enum EmailCodeView {
    OpenSubscription,
    WaitEmailCode(Option<Seq<char>>),
    WaitCaptcha,
    WaitNewCredentials,
    ConfirmSubscription,
    Fail(BrowserAutomationError),
}

pub open spec fn email_code_view(n: EmailCodeNext) -> EmailCodeView {
    match n {
        EmailCodeNext::OpenSubscription => EmailCodeView::OpenSubscription,
        EmailCodeNext::WaitEmailCode { log } => EmailCodeView::WaitEmailCode(match log { Some(l) => Some(l@), None => None }),
        EmailCodeNext::WaitCaptcha => EmailCodeView::WaitCaptcha,
        EmailCodeNext::WaitNewCredentials => EmailCodeView::WaitNewCredentials,
        EmailCodeNext::ConfirmSubscription => EmailCodeView::ConfirmSubscription,
        EmailCodeNext::Fail(e) => EmailCodeView::Fail(e),
    }
}

/// A wrong code or a code page still switching waits for the code again,
/// saying so; a page still asking for the code waits silently.
pub open spec fn email_code_next_for(result: Result<CdpRegistrationState, BrowserAutomationError>) -> EmailCodeView {
    match result {
        Ok(CdpRegistrationState::AccountCreated) => EmailCodeView::OpenSubscription,
        Ok(CdpRegistrationState::EmailVerificationFailed) => EmailCodeView::WaitEmailCode(Some("邮箱验证码无效，请重新输入"@)),
        Ok(CdpRegistrationState::EmailVerificationRequired) => EmailCodeView::WaitEmailCode(None),
        Ok(CdpRegistrationState::Pending) => EmailCodeView::WaitEmailCode(None),
        Ok(CdpRegistrationState::ChallengeRequired) => EmailCodeView::WaitCaptcha,
        Ok(CdpRegistrationState::RegisteredEmail) => EmailCodeView::WaitNewCredentials,
        Ok(CdpRegistrationState::SubscriptionSucceeded) => EmailCodeView::ConfirmSubscription,
        Err(e) => if crate::registration::email_code_error_recoverable(e) {
            EmailCodeView::WaitEmailCode(Some("邮箱验证码页面尚未完成，请重新提交验证码"@))
        } else {
            EmailCodeView::Fail(e)
        },
    }
}

pub fn email_code_next(result: Result<CdpRegistrationState, BrowserAutomationError>) -> (r: EmailCodeNext)
    ensures
        email_code_view(r) == email_code_next_for(result),
{
    match result {
        Ok(CdpRegistrationState::AccountCreated) => EmailCodeNext::OpenSubscription,
        Ok(CdpRegistrationState::EmailVerificationFailed) => EmailCodeNext::WaitEmailCode { log: Some("邮箱验证码无效，请重新输入") },
        Ok(CdpRegistrationState::EmailVerificationRequired) => EmailCodeNext::WaitEmailCode { log: None },
        Ok(CdpRegistrationState::Pending) => EmailCodeNext::WaitEmailCode { log: None },
        Ok(CdpRegistrationState::ChallengeRequired) => EmailCodeNext::WaitCaptcha,
        Ok(CdpRegistrationState::RegisteredEmail) => EmailCodeNext::WaitNewCredentials,
        Ok(CdpRegistrationState::SubscriptionSucceeded) => EmailCodeNext::ConfirmSubscription,
        Err(e) => if crate::registration::registration_email_code_error_is_recoverable(&e) {
            EmailCodeNext::WaitEmailCode { log: Some("邮箱验证码页面尚未完成，请重新提交验证码") }
        } else {
            EmailCodeNext::Fail(e)
        },
    }
}

/// The line logged after trying to bring the registration browser to the
/// front: a warning when it could not be.
pub fn browser_focus_log(focused: bool) -> (r: (bool, &'static str))
    ensures
        focused ==> !r.0 && r.1@ == "已切回注册浏览器继续流程"@,
        !focused ==> r.0 && r.1@ == "未能自动前置注册浏览器，请手动切换；任务将继续运行"@,
{
    if focused {
        (false, "已切回注册浏览器继续流程")
    } else {
        (true, "未能自动前置注册浏览器，请手动切换；任务将继续运行")
    }
}

/// The answer when replacement registration credentials are not valid
/// JSON, with the parser's error text.
pub fn invalid_registration_credentials_response(error_text: &str) -> (r: crate::response::ApiResponse)
    ensures
        crate::response::is_error_response(r, 400, "invalid registration credentials input: "@ + error_text@),
{
    let m = concat2("invalid registration credentials input: ", error_text);
    crate::response::error_response(400, m.as_str())
}

/// The input error when replacement credentials name an alias that another
/// account holds.
pub fn alias_taken_message(alias: &str) -> (r: String)
    ensures
        r@ == "account alias already exists: "@ + alias@,
{
    concat2("account alias already exists: ", alias)
}

/// A registration resumed from its page goes on to confirming the
/// subscription exactly when the page says the subscription succeeded, and
/// opens the subscription page exactly when the page says only the account
/// was created; both agree with what a sign-up reporting the same thing
/// leads to.
pub proof fn resumed_page_state_agrees_with_sign_up(s: CdpRegistrationState, email: Seq<char>)
    ensures
        next_from_state(s, email) == NextView::ConfirmSubscription <==> s == CdpRegistrationState::SubscriptionSucceeded,
        next_from_state(s, email) == NextView::OpenSubscription <==> s == CdpRegistrationState::AccountCreated,
        s == CdpRegistrationState::SubscriptionSucceeded ==> next_from_state(s, email) == next_from_signup(Ok(true), email),
        s == CdpRegistrationState::AccountCreated ==> next_from_state(s, email) == next_from_signup(Ok(false), email),
{
}

/// A resumed registration waits for the e-mail code exactly when the page
/// asks for the e-mail's verification, waits for other credentials exactly
/// when the page says the e-mail is registered already (both for the
/// registration's own e-mail), waits for the captcha otherwise, and never
/// fails or fills the subscription forms from the page state alone.
pub proof fn resumed_page_state_waits_for_what_the_page_asks(s: CdpRegistrationState, email: Seq<char>)
    ensures
        next_from_state(s, email) is WaitEmailCode <==> (s == CdpRegistrationState::EmailVerificationRequired
            || s == CdpRegistrationState::EmailVerificationFailed),
        next_from_state(s, email) is WaitNewCredentials <==> s == CdpRegistrationState::RegisteredEmail,
        next_from_state(s, email) == NextView::WaitCaptcha <==> (s == CdpRegistrationState::ChallengeRequired
            || s == CdpRegistrationState::Pending),
        next_from_state(s, email) matches NextView::WaitEmailCode(e) ==> e == email,
        next_from_state(s, email) matches NextView::WaitNewCredentials(e) ==> e == email,
        !(next_from_state(s, email) is Fail) && !(next_from_state(s, email) is FillSubscriptionForms),
{
}

} // verus!
