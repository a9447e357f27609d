use overleaf_service::browser_states::CdpRegistrationState;
use overleaf_service::browser_window::{
    window_batch_end, window_batch_report, window_item_outcome, window_progress_message,
    WindowBatchEnd,
};
use overleaf_service::config::{normalize_browser_proxy_policy, ChromeProxyMode};
use overleaf_service::credential::{BrowserAutoLoginBatchItem, CredentialBrowserOperation};
use overleaf_service::errors::BrowserAutoLoginError;
use overleaf_service::errors_remote::AccountRegistrationError;
use overleaf_service::resources::{
    card_status_update, fetch_address_selector, prefetched_fallback_index, CardStatusUpdate,
    RegistrationAddressSource,
};
use overleaf_service::session_reconcile::{
    account_session_step, registration_advance_message, registration_session_step,
    AccountSessionStep, RegistrationSessionStep,
};
use overleaf_service::task_end::{
    completion_progress_total, credential_batch_task_end, git_token_batch_task_end,
    password_change_batch_task_end, registration_error_action, BatchTaskEnd,
    RegistrationErrorAction,
};
use overleaf_service::tasks::{ServiceTaskPhase, TaskUserInputKind};

#[test]
fn batch_tasks_fail_with_a_count() {
    assert!(matches!(credential_batch_task_end("账号密码刷新 Cookie", 0), BatchTaskEnd::Complete(ref m) if m == "账号密码刷新 Cookie完成"));
    assert!(matches!(credential_batch_task_end("添加", 2), BatchTaskEnd::Fail(ref m) if m == "添加未完全完成：2 个账号失败"));
    assert!(matches!(password_change_batch_task_end(1), BatchTaskEnd::Fail(ref m) if m == "Overleaf 密码修改未完全完成：1 个账号失败"));
    assert!(matches!(
        git_token_batch_task_end(CredentialBrowserOperation::GitToken, 3),
        BatchTaskEnd::Fail(ref m) if m == "Git Integration token 获取未完全完成：3 个账号失败"
    ));
    assert_eq!(completion_progress_total(Some(0)), 1);
    assert_eq!(completion_progress_total(Some(7)), 7);
    assert_eq!(completion_progress_total(None), 1);
}

#[test]
fn answerable_registration_errors_leave_the_task_waiting() {
    let (action, response) = registration_error_action(AccountRegistrationError::RegisteredEmail { email: "a@b.c".to_string() });
    assert!(matches!(action, RegistrationErrorAction::WaitNewCredentials { ref log, .. } if log == "邮箱已注册: a@b.c"));
    assert_eq!(response.status_code, 400);
    let (action, _) = registration_error_action(AccountRegistrationError::MissingEmail);
    assert!(matches!(action, RegistrationErrorAction::Fail { ref message } if message == "missing email"));
}

#[test]
fn proxy_policies_are_normalized() {
    let p = normalize_browser_proxy_policy(ChromeProxyMode::Direct, Some("http://x")).ok().unwrap();
    assert_eq!(p.mode, ChromeProxyMode::Direct);
    assert!(p.server.is_none());
    let p = normalize_browser_proxy_policy(ChromeProxyMode::Custom, Some(" socks5://127.0.0.1:1080 ")).ok().unwrap();
    assert_eq!(p.server.as_deref(), Some("socks5://127.0.0.1:1080"));
    assert_eq!(
        normalize_browser_proxy_policy(ChromeProxyMode::Custom, Some("  ")).err().unwrap(),
        "custom proxy server is required"
    );
    assert_eq!(
        normalize_browser_proxy_policy(ChromeProxyMode::Custom, Some("http://u:p@h:1")).err().unwrap(),
        "custom proxy server must be an unauthenticated http/https/socks4/socks5 URL"
    );
    assert!(normalize_browser_proxy_policy(ChromeProxyMode::Custom, Some("ftp://h")).is_err());
    assert!(normalize_browser_proxy_policy(ChromeProxyMode::Custom, Some("http://a b")).is_err());
}

#[test]
fn card_statuses_and_address_selectors() {
    assert_eq!(card_status_update(" USED ").ok().unwrap(), CardStatusUpdate::Used);
    assert_eq!(card_status_update("failed").ok().unwrap(), CardStatusUpdate::Failed);
    assert_eq!(card_status_update("other").err().unwrap().body, "{\"error\":\"card status must be used or failed\"}");
    assert_eq!(fetch_address_selector(-5), 0);
    assert_eq!(fetch_address_selector(42), 42);
    assert_eq!(prefetched_fallback_index(RegistrationAddressSource::Fallback, 3), Some(3));
    assert_eq!(prefetched_fallback_index(RegistrationAddressSource::Api, 3), None);
}

#[test]
fn waiting_sessions_are_reconciled() {
    assert!(matches!(registration_session_step(None, true, 0, 300), RegistrationSessionStep::CleanupAndRelease));
    let waiting_captcha = Some((ServiceTaskPhase::WaitingForUser, Some(TaskUserInputKind::CaptchaCompleted)));
    assert!(matches!(registration_session_step(waiting_captcha, false, 0, 300), RegistrationSessionStep::CancelClosed));
    assert!(matches!(
        registration_session_step(waiting_captcha, true, 300, 300),
        RegistrationSessionStep::FailTimeout(m) if m == "reCAPTCHA 等待超时，浏览器会话已自动清理"
    ));
    assert!(matches!(registration_session_step(waiting_captcha, true, 10, 300), RegistrationSessionStep::Poll));
    let running = Some((ServiceTaskPhase::Running, None));
    assert!(matches!(registration_session_step(running, true, 10, 300), RegistrationSessionStep::Keep));
    assert!(matches!(registration_session_step(running, true, 600, 300), RegistrationSessionStep::FailTimeout(_)));
    assert_eq!(
        registration_advance_message(Some(TaskUserInputKind::EmailCode), CdpRegistrationState::AccountCreated),
        "已自动检测到邮箱验证完成，继续注册流程"
    );
    assert_eq!(account_session_step(Some(ServiceTaskPhase::Failed), true, false, false, 0), AccountSessionStep::CleanupAndRelease);
    assert_eq!(account_session_step(Some(ServiceTaskPhase::WaitingForUser), true, true, false, 0), AccountSessionStep::CheckCaptcha);
    assert_eq!(account_session_step(Some(ServiceTaskPhase::WaitingForUser), true, true, true, 600), AccountSessionStep::FailTimeout);
}

fn window(alias: &str, opened: bool) -> BrowserAutoLoginBatchItem {
    BrowserAutoLoginBatchItem { alias: alias.to_string(), opened, cancelled: false, report: None, error: None }
}

#[test]
fn window_batches_report_in_order() {
    let ordered = vec![("i1".to_string(), "a".to_string()), ("i2".to_string(), "b".to_string()), ("i3".to_string(), "c".to_string())];
    let entries = vec![("i3".to_string(), window("c", false)), ("i1".to_string(), window("a", true))];
    let report = window_batch_report(&ordered, &entries, &vec!["i2".to_string()]);
    let aliases: Vec<&str> = report.items.iter().map(|i| i.alias.as_str()).collect();
    assert_eq!(aliases, vec!["a", "b", "c"]);
    assert!(report.items[1].cancelled);
    assert_eq!((report.opened_count, report.failed_count, report.cancelled_count), (1, 1, 1));
    assert!(matches!(window_batch_end(&report, false), WindowBatchEnd::Fail { ref message } if message == "浏览器窗口未完全打开：1 个成功，1 个失败"));
    assert!(matches!(
        window_batch_end(&report, true),
        WindowBatchEnd::Cancel { ref log } if log == "浏览器窗口批次已停止：已打开 1 个，取消 1 个，失败 1 个"
    ));
    assert_eq!(window_progress_message(2, 3), "浏览器窗口启动进度 2/3");
}

#[test]
fn window_attempts_report_their_outcome() {
    let o = window_item_outcome("a", Ok(window("a", true)));
    assert!(o.completed && !o.log_warning);
    assert_eq!(o.message, "a 的浏览器窗口已打开");
    let o = window_item_outcome("a", Err(BrowserAutoLoginError::Browser { message: "boom".to_string() }));
    assert!(!o.completed);
    assert_eq!(o.log, "a 的浏览器窗口打开失败: boom");
}
