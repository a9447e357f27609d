use overleaf_service::browser_states::CdpRegistrationState;
use overleaf_service::registration::{
    registration_email_code_error_is_recoverable, registration_subscription_open_error_is_retryable,
    BrowserAutomationError,
};
use overleaf_service::registration_session::{
    alias_taken_message, browser_focus_log, email_code_next, fallback_retry_log,
    invalid_registration_credentials_response, registration_next_from_signup,
    registration_next_from_state, registration_next_from_subscription_page, robot_block_diagnostic,
    signup_decision, subscription_page_retry, waiting_log, ChromeProxyAttempt, EmailCodeNext,
    RegistrationNext, SignupAttempt, SignupDecision,
};

fn s(x: &str) -> String {
    x.to_string()
}

#[test]
fn email_code_errors_that_can_be_answered_again() {
    assert!(registration_email_code_error_is_recoverable(&BrowserAutomationError::ElementNotFound {
        selector: s("email verification code input")
    }));
    assert!(!registration_email_code_error_is_recoverable(&BrowserAutomationError::ElementNotFound {
        selector: s("the email verification code")
    }));
    assert!(registration_email_code_error_is_recoverable(&BrowserAutomationError::Timeout {
        operation: s("waiting for Email Verification page")
    }));
    assert!(registration_email_code_error_is_recoverable(&BrowserAutomationError::Other {
        message: s("EMAIL VERIFICATION FAILED: retry")
    }));
    assert!(!registration_email_code_error_is_recoverable(&BrowserAutomationError::InvalidCredentials));
}

#[test]
fn subscription_page_errors_that_are_retried() {
    assert!(registration_subscription_open_error_is_retryable(&BrowserAutomationError::Timeout {
        operation: s("open Overleaf Subscription Page")
    }));
    assert!(registration_subscription_open_error_is_retryable(&BrowserAutomationError::ExternalDriver {
        message: s("Execution context was destroyed, most likely because of a navigation")
    }));
    assert!(registration_subscription_open_error_is_retryable(&BrowserAutomationError::ExternalDriver {
        message: s("Inspected target navigated or closed")
    }));
    assert!(!registration_subscription_open_error_is_retryable(&BrowserAutomationError::ExternalDriver {
        message: s("socket closed")
    }));
    let retry = Err(BrowserAutomationError::Timeout { operation: s("overleaf subscription page") });
    assert!(subscription_page_retry(&retry, true));
    assert!(!subscription_page_retry(&retry, false));
    assert!(!subscription_page_retry(&Ok(CdpRegistrationState::AccountCreated), true));
}

#[test]
fn submitted_email_codes_move_the_registration_on() {
    assert!(matches!(email_code_next(Ok(CdpRegistrationState::AccountCreated)), EmailCodeNext::OpenSubscription));
    assert!(matches!(
        email_code_next(Ok(CdpRegistrationState::EmailVerificationFailed)),
        EmailCodeNext::WaitEmailCode { log: Some("邮箱验证码无效，请重新输入") }
    ));
    assert!(matches!(
        email_code_next(Ok(CdpRegistrationState::EmailVerificationRequired)),
        EmailCodeNext::WaitEmailCode { log: None }
    ));
    assert!(matches!(email_code_next(Ok(CdpRegistrationState::Pending)), EmailCodeNext::WaitEmailCode { log: None }));
    assert!(matches!(email_code_next(Ok(CdpRegistrationState::ChallengeRequired)), EmailCodeNext::WaitCaptcha));
    assert!(matches!(email_code_next(Ok(CdpRegistrationState::RegisteredEmail)), EmailCodeNext::WaitNewCredentials));
    assert!(matches!(
        email_code_next(Ok(CdpRegistrationState::SubscriptionSucceeded)),
        EmailCodeNext::ConfirmSubscription
    ));
    assert!(matches!(
        email_code_next(Err(BrowserAutomationError::Timeout { operation: s("email verification submit") })),
        EmailCodeNext::WaitEmailCode { log: Some("邮箱验证码页面尚未完成，请重新提交验证码") }
    ));
    assert!(matches!(
        email_code_next(Err(BrowserAutomationError::InvalidCredentials)),
        EmailCodeNext::Fail(BrowserAutomationError::InvalidCredentials)
    ));
}

#[test]
fn page_states_choose_the_next_step() {
    assert!(matches!(
        registration_next_from_state(CdpRegistrationState::EmailVerificationFailed, "a@b"),
        RegistrationNext::WaitEmailCode { ref email } if email == "a@b"
    ));
    assert!(matches!(
        registration_next_from_state(CdpRegistrationState::Pending, "a@b"),
        RegistrationNext::WaitCaptcha
    ));
    assert!(matches!(
        registration_next_from_subscription_page(Ok(CdpRegistrationState::AccountCreated), "a@b"),
        RegistrationNext::FillSubscriptionForms
    ));
    assert!(matches!(
        registration_next_from_subscription_page(Ok(CdpRegistrationState::RegisteredEmail), "a@b"),
        RegistrationNext::WaitNewCredentials { ref email } if email == "a@b"
    ));
    let (detect, next) = registration_next_from_signup(Ok(true), "a@b");
    assert!(detect);
    assert!(matches!(next, RegistrationNext::ConfirmSubscription));
    let (detect, next) = registration_next_from_signup(
        Err(BrowserAutomationError::ChallengeRequired { challenge: s("recaptcha") }),
        "a@b",
    );
    assert!(!detect);
    assert!(matches!(next, RegistrationNext::WaitCaptcha));
    let (_, next) = registration_next_from_signup(Err(BrowserAutomationError::EmailCodeRequired { email: s("x@y") }), "a@b");
    assert!(matches!(next, RegistrationNext::WaitEmailCode { ref email } if email == "x@y"));
    assert_eq!(waiting_log(&next).as_deref(), Some("等待邮箱验证码: x@y"));
    assert_eq!(waiting_log(&RegistrationNext::WaitCaptcha).as_deref(), Some("等待用户完成 reCAPTCHA"));
    assert_eq!(
        waiting_log(&RegistrationNext::WaitNewCredentials { email: s("x@y") }).as_deref(),
        Some("邮箱已注册: x@y")
    );
    assert_eq!(waiting_log(&RegistrationNext::OpenSubscription), None);
}

#[test]
fn a_blocked_signup_retries_once_through_the_fallback_proxy() {
    let blocked = SignupAttempt::Finished(Err(BrowserAutomationError::RobotVerificationBlocked));
    assert!(matches!(
        signup_decision(ChromeProxyAttempt::Primary, true, blocked, "a@b"),
        SignupDecision::RetryWithFallback
    ));
    let blocked = SignupAttempt::Finished(Err(BrowserAutomationError::RobotVerificationBlocked));
    assert!(matches!(
        signup_decision(ChromeProxyAttempt::Fallback, true, blocked, "a@b"),
        SignupDecision::Continue(true, RegistrationNext::Fail(BrowserAutomationError::RobotVerificationBlocked))
    ));
    let failed = SignupAttempt::SessionFailed(BrowserAutomationError::Other { message: s("no chrome") });
    assert!(matches!(
        signup_decision(ChromeProxyAttempt::Primary, true, failed, "a@b"),
        SignupDecision::FailWithoutSession(BrowserAutomationError::Other { .. })
    ));
    assert_eq!(fallback_retry_log(), "机器人验证未通过，自动切换系统代理重试一次");
    assert_eq!(
        robot_block_diagnostic(2, 1, &vec![s("e1"), s("e2")]),
        "验证诊断：页面拒绝验证，验证码框 2 个，可见挑战 1 个；e1；e2"
    );
    assert_eq!(robot_block_diagnostic(0, 0, &Vec::new()), "验证诊断：页面拒绝验证，验证码框 0 个，可见挑战 0 个；");
}

#[test]
fn small_registration_messages() {
    assert_eq!(browser_focus_log(true), (false, "已切回注册浏览器继续流程"));
    assert_eq!(browser_focus_log(false), (true, "未能自动前置注册浏览器，请手动切换；任务将继续运行"));
    let r = invalid_registration_credentials_response("EOF");
    assert_eq!(r.status_code, 400);
    assert_eq!(r.body, "{\"error\":\"invalid registration credentials input: EOF\"}");
    assert_eq!(alias_taken_message("a"), "account alias already exists: a");
}
