use overleaf_service::browser_states::CdpRegistrationState;
use overleaf_service::errors_remote::AccountRegistrationError;
use overleaf_service::registration::{normalize_registration_card_bin, BrowserAutomationError, TrialEligibility};
use overleaf_service::registration_flow::{
    check_existing_cookie_trial, check_existing_credentials_trial, cookie_recovery_log,
    existing_account_already_saved_response, existing_account_trial_not_eligible,
    registration_route, require_task_id, ExistingTrialLoginSource, RegistrationRoute,
    RegistrationSlot, RegistrationStartRequest,
};
use overleaf_service::registration_payment::{
    advance_payment, PaymentAction, PaymentEvent, PaymentRetryConfig, PaymentRetryState,
    PaymentStage, PaymentTaskStep,
};
use overleaf_service::registration_session::{
    registration_next_from_signup, registration_next_from_state,
    registration_next_from_subscription_page, robot_block_diagnostic, signup_decision, waiting_log,
    ChromeProxyAttempt, RegistrationNext, SignupAttempt, SignupDecision,
};

fn request(trial_days: u32, card_bin: &str, source: Option<ExistingTrialLoginSource>, existing: Option<&str>) -> RegistrationStartRequest {
    RegistrationStartRequest {
        alias: None,
        existing_alias: existing.map(str::to_string),
        existing_login_source: source,
        trial_days,
        card_bin: card_bin.to_string(),
        task_id: Some("  t1 ".to_string()),
    }
}

#[test]
fn registration_requests_are_checked_in_order() {
    let r = registration_route(request(14, "abc", None, None)).err().unwrap();
    assert_eq!(r.status_code, 400);
    assert_eq!(r.body, "{\"error\":\"trial_days must be 7 or 21, got 14\"}");
    let r = registration_route(request(7, "12345", None, None)).err().unwrap();
    assert_eq!(
        r.body,
        "{\"error\":\"card_bin must be empty or exactly six digits\",\"kind\":\"invalid_card_bin\"}"
    );
    let r = registration_route(request(21, "", Some(ExistingTrialLoginSource::Alias), Some("  "))).err().unwrap();
    assert_eq!(r.body, "{\"error\":\"missing existing_alias\"}");
}

#[test]
fn registration_requests_are_routed_by_source() {
    let ok = registration_route(request(21, " 424242 ", None, None)).ok().unwrap();
    assert_eq!(ok.task_id.as_deref(), Some("t1"));
    assert_eq!(ok.card_bin.as_deref(), Some("424242"));
    assert!(matches!(ok.route, RegistrationRoute::NewAccount));
    let ok = registration_route(request(7, "", None, Some(" acct "))).ok().unwrap();
    assert!(matches!(ok.route, RegistrationRoute::ExistingAlias { ref alias } if alias == "acct"));
    let ok = registration_route(request(7, "", Some(ExistingTrialLoginSource::Cookie), Some("acct"))).ok().unwrap();
    assert!(matches!(ok.route, RegistrationRoute::ExistingCookie));
    let ok = registration_route(request(7, "", Some(ExistingTrialLoginSource::Credentials), None)).ok().unwrap();
    assert!(matches!(ok.route, RegistrationRoute::ExistingCredentials));
}

#[test]
fn card_bins_are_empty_or_six_digits() {
    assert_eq!(normalize_registration_card_bin("  ").ok().unwrap(), None);
    assert_eq!(normalize_registration_card_bin("123456").ok().unwrap(), Some("123456".to_string()));
    assert!(normalize_registration_card_bin("12345a").is_err());
}

#[test]
fn one_registration_holds_the_slot() {
    let mut slot = RegistrationSlot::new();
    assert!(slot.reserve("a").is_ok());
    let busy = slot.reserve("b").err().unwrap();
    assert_eq!(busy.status_code, 409);
    assert_eq!(
        busy.body,
        "{\"error\":\"已有注册任务正在运行，请等待其完成或取消\",\"kind\":\"registration_busy\"}"
    );
    slot.release("b");
    assert_eq!(slot.owner.as_deref(), Some("a"));
    slot.release("a");
    assert!(slot.owner.is_none());
    assert!(slot.reserve("b").is_ok());
}

#[test]
fn existing_trials_need_a_task_and_credentials() {
    let r = require_task_id(None, "existing account trial requires task_id").err().unwrap();
    assert_eq!(r.body, "{\"error\":\"existing account trial requires task_id\"}");
    assert_eq!(require_task_id(Some("t".to_string()), "x").ok().unwrap(), "t");
    let r = check_existing_credentials_trial(None, " ", "pw").err().unwrap();
    assert_eq!(r.body, "{\"error\":\"missing email\"}");
    let r = check_existing_credentials_trial(None, "a@b.c", " ").err().unwrap();
    assert_eq!(r.body, "{\"error\":\"missing password\"}");
    let ok = check_existing_credentials_trial(Some(" hint ".to_string()), " a@b.c ", " pw ").ok().unwrap();
    assert_eq!(ok.email, "a@b.c");
    assert_eq!(ok.secret, " pw ");
    assert_eq!(ok.alias_hint.as_deref(), Some("hint"));
    let r = check_existing_cookie_trial(None, "a@b.c", "  ").err().unwrap();
    assert_eq!(r.body, "{\"error\":\"missing overleaf_session2 Cookie\",\"kind\":\"invalid_session_cookie\"}");
    let ok = check_existing_cookie_trial(None, "a@b.c", " s3cret ").ok().unwrap();
    assert_eq!(ok.secret, "s3cret");
}

#[test]
fn existing_trial_refusals_name_the_account() {
    let r = existing_account_already_saved_response("acct");
    assert_eq!(r.status_code, 409);
    assert_eq!(r.body, "{\"error\":\"邮箱已保存为账号 acct，请改用账号别名来源\",\"kind\":\"existing_account_already_saved\"}");
    let (m, r) = existing_account_trial_not_eligible("acct", TrialEligibility::ActiveTrial);
    assert_eq!(m, "账号 acct 已处于试用中");
    assert_eq!(r.status_code, 409);
    let (m, _) = existing_account_trial_not_eligible("acct", TrialEligibility::Unknown);
    assert_eq!(m, "无法确认账号 acct 的试用资格，已停止购买");
    assert_eq!(cookie_recovery_log(false), "账号 Cookie 已失效，正在使用已保存密码恢复登录");
}

fn config() -> PaymentRetryConfig {
    PaymentRetryConfig { trial_days: 21, strategy_label: "Random".to_string() }
}

#[test]
fn payment_tries_the_next_card_after_a_decline() {
    let cfg = config();
    let (s, a) = PaymentRetryState::start();
    assert!(matches!(a, PaymentAction::LoadCards));
    let (s, step) = advance_payment(&cfg, s, PaymentEvent::CardsLoaded(Ok(())));
    assert!(matches!(step.action, PaymentAction::SelectCard));
    let (s, step) = advance_payment(&cfg, s, PaymentEvent::CardSelected(Ok(Some("4111".to_string()))));
    assert_eq!(step.steps, vec![PaymentTaskStep::SelectCard, PaymentTaskStep::FillPayment]);
    assert!(matches!(step.action, PaymentAction::FillPayment { ref card } if card == "4111"));
    let (s, step) = advance_payment(&cfg, s, PaymentEvent::PaymentFilled(Ok((5, 4))));
    assert_eq!(step.logs[0].text, "已填写订阅地址和支付 iframe 字段: address_fields=5, payment_fields=4");
    let declined = BrowserAutomationError::Other { message: "card declined".to_string() };
    let (s, step) = advance_payment(&cfg, s, PaymentEvent::PaymentSubmitted(Err((declined, "card declined".to_string()))));
    assert!(matches!(step.action, PaymentAction::MarkCardFailed { ref card, ref message } if card == "4111" && message == "card declined"));
    let (s, step) = advance_payment(&cfg, s, PaymentEvent::CardMarked(Ok(())));
    assert!(matches!(step.action, PaymentAction::LoadCards));
    assert_eq!(step.logs[0].text, "当前银行卡支付失败，正在尝试下一张可用卡");
    assert_eq!(s.attempted, vec!["4111".to_string()]);
    let (s, _) = advance_payment(&cfg, s, PaymentEvent::CardsLoaded(Ok(())));
    let (s, step) = advance_payment(&cfg, s, PaymentEvent::CardSelected(Ok(None)));
    assert_eq!(s.stage, PaymentStage::Done);
    match step.action {
        PaymentAction::Fail(AccountRegistrationError::Browser { message }) => {
            assert_eq!(message, "payment failed and no unattempted card remains")
        }
        _ => panic!("expected a browser failure"),
    }
}

#[test]
fn payment_success_marks_the_card_and_continues() {
    let cfg = config();
    let (s, _) = PaymentRetryState::start();
    let (s, _) = advance_payment(&cfg, s, PaymentEvent::CardsLoaded(Ok(())));
    let (s, _) = advance_payment(&cfg, s, PaymentEvent::CardSelected(Ok(Some("5555".to_string()))));
    let (s, _) = advance_payment(&cfg, s, PaymentEvent::PaymentFilled(Ok((1, 1))));
    let (s, step) = advance_payment(&cfg, s, PaymentEvent::PaymentSubmitted(Ok(CdpRegistrationState::SubscriptionSucceeded)));
    assert_eq!(step.steps, vec![PaymentTaskStep::WaitThankYou]);
    assert!(matches!(step.action, PaymentAction::MarkCardUsed { ref card } if card == "5555"));
    let (s, step) = advance_payment(&cfg, s, PaymentEvent::CardMarked(Err("locked".to_string())));
    assert_eq!(s.stage, PaymentStage::Done);
    assert_eq!(step.logs[0].text, "支付成功，但标记银行卡已使用失败: locked");
    assert!(matches!(step.action, PaymentAction::ContinueAfterPayment { accept_extra_trial_offer: true }));
}

#[test]
fn payment_waits_when_no_card_fits_at_first() {
    let cfg = config();
    let (s, _) = PaymentRetryState::start();
    let (s, _) = advance_payment(&cfg, s, PaymentEvent::CardsLoaded(Ok(())));
    let (_, step) = advance_payment(&cfg, s, PaymentEvent::CardSelected(Ok(None)));
    assert!(matches!(step.action, PaymentAction::WaitForInput));
    assert_eq!(step.logs[0].text, "订阅页已打开，但没有符合 Random 策略和当前 BIN 范围的可用银行卡");
    let (s, _) = PaymentRetryState::start();
    let (_, step) = advance_payment(&cfg, s, PaymentEvent::CardsLoaded(Err("io".to_string())));
    assert!(matches!(step.action, PaymentAction::WaitForInput));
    assert_eq!(step.logs[0].text, "订阅页已打开，但无法读取银行卡库: io");
}

#[test]
fn payment_states_other_than_success_fail() {
    let cfg = config();
    let (s, _) = PaymentRetryState::start();
    let (s, _) = advance_payment(&cfg, s, PaymentEvent::CardsLoaded(Ok(())));
    let (s, _) = advance_payment(&cfg, s, PaymentEvent::CardSelected(Ok(Some("1".to_string()))));
    let (s, _) = advance_payment(&cfg, s, PaymentEvent::PaymentFilled(Ok((0, 0))));
    let (_, step) = advance_payment(&cfg, s, PaymentEvent::PaymentSubmitted(Ok(CdpRegistrationState::Pending)));
    match step.action {
        PaymentAction::Fail(AccountRegistrationError::Browser { message }) => {
            assert_eq!(message, "payment did not reach subscription success: Pending")
        }
        _ => panic!("expected a browser failure"),
    }
}

#[test]
fn registration_steps_follow_the_page_state() {
    assert!(matches!(registration_next_from_state(CdpRegistrationState::AccountCreated, "a@b.c"), RegistrationNext::OpenSubscription));
    assert!(matches!(
        registration_next_from_state(CdpRegistrationState::EmailVerificationFailed, "a@b.c"),
        RegistrationNext::WaitEmailCode { ref email } if email == "a@b.c"
    ));
    assert!(matches!(registration_next_from_state(CdpRegistrationState::Pending, "a@b.c"), RegistrationNext::WaitCaptcha));
    let (detect, next) = registration_next_from_signup(
        Err(BrowserAutomationError::ChallengeRequired { challenge: "x".to_string() }),
        "a@b.c",
    );
    assert!(!detect);
    assert!(matches!(next, RegistrationNext::WaitCaptcha));
    let (detect, next) = registration_next_from_signup(Ok(true), "a@b.c");
    assert!(detect);
    assert!(matches!(next, RegistrationNext::ConfirmSubscription));
    assert!(matches!(
        registration_next_from_subscription_page(Ok(CdpRegistrationState::AccountCreated), "a@b.c"),
        RegistrationNext::FillSubscriptionForms
    ));
    let next = registration_next_from_state(CdpRegistrationState::RegisteredEmail, "a@b.c");
    assert_eq!(waiting_log(&next).as_deref(), Some("邮箱已注册: a@b.c"));
}

#[test]
fn robot_blocks_retry_once_through_the_fallback_proxy() {
    let blocked = || SignupAttempt::Finished(Err(BrowserAutomationError::RobotVerificationBlocked));
    assert!(matches!(signup_decision(ChromeProxyAttempt::Primary, true, blocked(), "e"), SignupDecision::RetryWithFallback));
    assert!(matches!(
        signup_decision(ChromeProxyAttempt::Fallback, true, blocked(), "e"),
        SignupDecision::Continue(true, RegistrationNext::Fail(BrowserAutomationError::RobotVerificationBlocked))
    ));
    assert!(matches!(
        signup_decision(ChromeProxyAttempt::Primary, false, blocked(), "e"),
        SignupDecision::Continue(_, RegistrationNext::Fail(_))
    ));
    assert_eq!(
        robot_block_diagnostic(1, 2, &vec!["a".to_string(), "b".to_string()]),
        "验证诊断：页面拒绝验证，验证码框 1 个，可见挑战 2 个；a；b"
    );
}
