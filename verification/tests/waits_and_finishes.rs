use overleaf_service::browser_states::CdpLoginState;
use overleaf_service::credential::BrowserCredentialsTaskInput;
use overleaf_service::credential_job::ResumeOutcome;
use overleaf_service::credential_wait::{
    credentials_received_log, finalized_login_outcome, wait_decision, wait_started,
    wait_transition_failed, WaitDecision, WaitLook,
};
use overleaf_service::errors_remote::AccountSessionError;
use overleaf_service::import_recovery::{
    reconcile_session_recovery, retried_imported_aliases, session_recovery_outcome,
    SessionRecoveryOutcome,
};
use overleaf_service::imports::{
    AccountImportPostAction, AccountImportPostActionError, ImportedAccountRecord,
};
use overleaf_service::registration_finish::{
    artifacts_extracted_log, expiry_after_metadata, extra_trial_baseline, extra_trial_log,
    extra_trial_poll, final_expiry_reading, metadata_refresh_log, registration_finished_message,
    registration_save_target, registration_trial_expiry, reopen_management_failed_log,
    ExtraTrialPoll, RegistrationSaveTarget,
};
use overleaf_service::registration::{
    existing_trial_continuation_log, rendered_trial_continuation, ExistingTrialContinuation,
    TrialEligibility, TrialPurchaseAvailability,
};
use overleaf_service::registration_flow::{
    existing_trial_email, existing_trial_session_cookie, existing_trial_starts_recovery,
    ExistingTrialSetback,
};
use overleaf_service::sessions::{
    AccountSessionRefreshBatchItem, AccountSessionRefreshBatchReport,
};

use overleaf_service::credential_batch::{
    import_candidate_lock_aliases, reject_locked_aliases, ImportLockCandidate,
};
use overleaf_service::errors_store::TaskStateError;
use overleaf_service::task_end::BatchTaskEnd;
use overleaf_service::trial_eligibility::{
    trial_eligibility_end, trial_eligibility_error_logs, trial_eligibility_request,
    TrialEligibilityItem,
};
use overleaf_service::task_api::{cancel_cleanup_steps, CancelCleanupStep, CancelledBrowserSessionKind};

fn look_captcha(received: bool, state: Option<CdpLoginState>) -> WaitLook {
    WaitLook::Captcha { captcha_input_received: received, login_state: state }
}

#[test]
fn waiting_stops_on_cancel_close_and_timeout_first() {
    let d = wait_decision(true, false, 9999, look_captcha(false, Some(CdpLoginState::Success)), "x");
    assert!(matches!(d, WaitDecision::Resume(ResumeOutcome::Cancelled(ref m)) if m == "用户取消"));
    let d = wait_decision(false, false, 9999, look_captcha(false, Some(CdpLoginState::Success)), "x");
    assert!(matches!(d, WaitDecision::Resume(ResumeOutcome::Cancelled(ref m)) if m == "用户已关闭对应浏览器窗口"));
    let d = wait_decision(false, true, 600, look_captcha(false, Some(CdpLoginState::Success)), "x");
    assert!(matches!(d, WaitDecision::Resume(ResumeOutcome::Failed(ref m)) if m == "浏览器会话等待超时，已自动清理"));
    let d = wait_decision(false, true, 599, look_captcha(false, Some(CdpLoginState::Success)), "x");
    assert!(matches!(d, WaitDecision::FinalizeLogin));
}

#[test]
fn waiting_for_credentials_takes_a_trimmed_password() {
    let input = BrowserCredentialsTaskInput { email: Some("a@b.c".to_string()), password: "  pw  ".to_string() };
    let d = wait_decision(false, true, 1, WaitLook::Credentials(Some(Some(input))), "请重新输入");
    match d {
        WaitDecision::Resume(ResumeOutcome::Credentials(i)) => {
            assert_eq!(i.password, "pw");
            assert_eq!(i.email.as_deref(), Some("a@b.c"));
        }
        _ => panic!("expected credentials"),
    }
    let blank = BrowserCredentialsTaskInput { email: None, password: "   ".to_string() };
    let d = wait_decision(false, true, 1, WaitLook::Credentials(Some(Some(blank))), "请重新输入");
    match d {
        WaitDecision::KeepWaiting { rewait_message, log } => {
            assert_eq!(rewait_message.as_deref(), Some("请重新输入"));
            let log = log.unwrap();
            assert!(log.warning);
            assert_eq!(log.text, "阶段：补充凭据格式无效，继续等待");
        }
        _ => panic!("expected to keep waiting"),
    }
    let d = wait_decision(false, true, 1, WaitLook::Credentials(Some(None)), "请重新输入");
    assert!(matches!(d, WaitDecision::KeepWaiting { rewait_message: Some(_), log: Some(_) }));
    let d = wait_decision(false, true, 1, WaitLook::Credentials(None), "请重新输入");
    assert!(matches!(d, WaitDecision::KeepWaiting { rewait_message: None, log: None }));
    let log = credentials_received_log();
    assert!(!log.warning);
    assert_eq!(log.text, "阶段：收到补充账号密码");
}

#[test]
fn waiting_for_the_captcha_goes_by_the_login_page() {
    assert!(matches!(
        wait_decision(false, true, 0, look_captcha(false, Some(CdpLoginState::InvalidCredentials)), ""),
        WaitDecision::Resume(ResumeOutcome::PromptCredentials)
    ));
    assert!(matches!(
        wait_decision(false, true, 0, look_captcha(false, Some(CdpLoginState::RegisteredEmail)), ""),
        WaitDecision::Resume(ResumeOutcome::RetryAutomation)
    ));
    assert!(matches!(
        wait_decision(false, true, 0, look_captcha(false, Some(CdpLoginState::RobotVerificationBlocked)), ""),
        WaitDecision::Resume(ResumeOutcome::RetryAutomation)
    ));
    assert!(matches!(
        wait_decision(false, true, 0, look_captcha(false, Some(CdpLoginState::Pending)), ""),
        WaitDecision::KeepWaiting { rewait_message: None, log: None }
    ));
    match wait_decision(false, true, 0, look_captcha(true, None), "") {
        WaitDecision::KeepWaiting { rewait_message, log } => {
            assert_eq!(rewait_message.as_deref(), Some("验证码尚未完成，请在对应浏览器窗口继续验证"));
            assert_eq!(log.unwrap().text, "阶段：验证码尚未完成，继续等待");
        }
        _ => panic!("expected to keep waiting"),
    }
    assert!(matches!(finalized_login_outcome(Ok(())), ResumeOutcome::Login));
    assert!(matches!(finalized_login_outcome(Err("boom".to_string())), ResumeOutcome::Failed(ref m) if m == "boom"));
}

#[test]
fn waiting_starts_with_a_log_line() {
    let (log, all) = wait_started("captcha_completed", 0, 0);
    assert!(log.warning);
    assert_eq!(log.text, "阶段：等待用户输入（captcha_completed）");
    assert!(all);
    let (_, all) = wait_started("x", 1, 0);
    assert!(!all);
    let (_, all) = wait_started("x", 0, 2);
    assert!(!all);
    assert!(matches!(wait_transition_failed("Busy"), ResumeOutcome::Failed(ref m) if m == "browser batch wait transition failed: Busy"));
}

#[test]
fn existing_trials_need_an_email_and_a_session_cookie() {
    assert_eq!(existing_trial_email("main", Some("  a@b.c ")), Ok("a@b.c".to_string()));
    assert_eq!(existing_trial_email("main", Some("   ")), Err("missing email for account alias: main".to_string()));
    assert_eq!(existing_trial_email("main", None), Err("missing email for account alias: main".to_string()));
    assert_eq!(existing_trial_session_cookie(Some(" abc ")), Some("abc".to_string()));
    assert_eq!(existing_trial_session_cookie(Some("  ")), None);
    assert_eq!(existing_trial_session_cookie(None), None);
}

#[test]
fn setbacks_turn_into_cookie_recovery_only_for_new_tasks() {
    assert!(existing_trial_starts_recovery(true, ExistingTrialSetback::SecretsMissing));
    assert!(existing_trial_starts_recovery(true, ExistingTrialSetback::SessionCookieMissing));
    assert!(existing_trial_starts_recovery(true, ExistingTrialSetback::SessionRefused { requires_cookie_recovery: true }));
    assert!(!existing_trial_starts_recovery(true, ExistingTrialSetback::SessionRefused { requires_cookie_recovery: false }));
    assert!(!existing_trial_starts_recovery(true, ExistingTrialSetback::SecretsUnreadable));
    assert!(!existing_trial_starts_recovery(false, ExistingTrialSetback::SecretsMissing));
}

#[test]
fn an_extra_trial_must_move_the_expiry_by_fourteen_days() {
    assert_eq!(extra_trial_baseline(Ok(Some(100))), Ok(100));
    assert_eq!(extra_trial_baseline(Ok(None)), Err("未能读取延期前的到期时间，无法验证额外试用".to_string()));
    assert_eq!(extra_trial_baseline(Err("net".to_string())), Err("读取试用延期结果失败: net".to_string()));
    assert!(matches!(extra_trial_poll(100, 0, Ok(Some(100 + 14 * 86_400))), ExtraTrialPoll::Confirmed));
    assert!(matches!(extra_trial_poll(100, 0, Ok(Some(100 + 14 * 86_400 - 1))), ExtraTrialPoll::KeepPolling));
    assert!(matches!(extra_trial_poll(100, 0, Ok(None)), ExtraTrialPoll::KeepPolling));
    assert!(matches!(extra_trial_poll(100, 3, Err("net".to_string())), ExtraTrialPoll::Failed(ref m) if m == "读取试用延期结果失败: net"));
    assert!(matches!(extra_trial_poll(100, 20, Ok(Some(i64::MAX))), ExtraTrialPoll::Failed(ref m) if m == "未确认试用到期时间延长 14 天，额外试用未完成"));
    let ok = extra_trial_log(Ok(()));
    assert!(!ok.warning);
    assert_eq!(ok.text, "已确认试用到期时间延长 14 天，正在重新加载订阅管理页");
    let bad = extra_trial_log(Err("Timeout".to_string()));
    assert!(bad.warning);
    assert_eq!(bad.text, "额外试用未确认: Timeout；继续取消自动续费并按实际到期时间保存账号");
}

#[test]
fn the_final_page_gives_the_expiry() {
    let (e, log) = final_expiry_reading(Ok(Some(1_700_000_000)));
    assert_eq!(e, Some(1_700_000_000));
    assert!(!log.warning);
    assert_eq!(log.text, "已解析试用/订阅到期时间: 1700000000");
    let (e, log) = final_expiry_reading(Ok(Some(-5)));
    assert_eq!(e, Some(-5));
    assert_eq!(log.text, "已解析试用/订阅到期时间: -5");
    let (e, log) = final_expiry_reading(Ok(None));
    assert_eq!(e, None);
    assert_eq!(log.text, "未从最终订阅页面解析到试用/订阅到期时间");
    let (e, log) = final_expiry_reading(Err("gone".to_string()));
    assert_eq!(e, None);
    assert!(log.warning);
    assert_eq!(log.text, "读取最终订阅页面状态失败，跳过到期时间解析: gone");
    assert_eq!(reopen_management_failed_log("E").text, "重新打开订阅管理页失败，将尝试从当前页面解析到期时间: E");
    assert_eq!(registration_trial_expiry(Some(1), Some(2)), Some(1));
    assert_eq!(registration_trial_expiry(None, Some(2)), Some(2));
    assert_eq!(registration_trial_expiry(None, None), None);
}

#[test]
fn a_finished_registration_is_saved_and_reported() {
    assert_eq!(registration_save_target(Some("old".to_string()), true), RegistrationSaveTarget::Existing("old".to_string()));
    assert_eq!(registration_save_target(None, true), RegistrationSaveTarget::NewWithPassword);
    assert_eq!(registration_save_target(None, false), RegistrationSaveTarget::NewWithoutPassword);
    assert_eq!(expiry_after_metadata(Some(5), Some(7)), (Some(5), false));
    assert_eq!(expiry_after_metadata(None, Some(7)), (Some(7), true));
    assert_eq!(metadata_refresh_log(Ok(())).text, "已验证账号身份并刷新订阅/试用元数据");
    let w = metadata_refresh_log(Err("X".to_string()));
    assert!(w.warning);
    assert_eq!(w.text, "账号身份已验证，但订阅元数据刷新失败，保留已解析结果: X");
    assert_eq!(artifacts_extracted_log(true), "已返回项目页并提取 Cookie 与 Git Integration token");
    assert_eq!(artifacts_extracted_log(false), "已返回项目页并提取 Cookie");
    assert_eq!(registration_finished_message(7, 21), "账号已保存并取消续费，实际试用期限未达到所选天数");
    assert_eq!(registration_finished_message(21, 21), "自动注册账号完成");
}

fn fresh_record(now: i64) -> ImportedAccountRecord {
    ImportedAccountRecord {
        email: Some("a@b.c".to_string()),
        user_id: Some("u1".to_string()),
        subscription_status: Some("Pro".to_string()),
        subscription_label: None,
        subscription_checked_at: Some(now - 10),
        trial_expiry: None,
    }
}

#[test]
fn recovery_outcomes_follow_the_saved_record() {
    let now = 1_000_000;
    let rec = fresh_record(now);
    match session_recovery_outcome("a", Some(Some(&rec)), now) {
        SessionRecoveryOutcome::Recovered(r) => {
            assert_eq!(r.alias, "a");
            assert_eq!(r.user_id.as_deref(), Some("u1"));
        }
        _ => panic!("expected a recovery"),
    }
    let mut stale = fresh_record(now);
    stale.subscription_checked_at = Some(now - 86_401);
    assert!(matches!(
        session_recovery_outcome("a", Some(Some(&stale)), now),
        SessionRecoveryOutcome::Failed(AccountSessionError::Session { ref message }) if message == "账号密码恢复后状态元数据仍不完整"
    ));
    assert!(matches!(
        session_recovery_outcome("a", Some(None), now),
        SessionRecoveryOutcome::Failed(AccountSessionError::AccountAliasNotFound { ref alias }) if alias == "a"
    ));
    assert!(matches!(
        session_recovery_outcome("a", None, now),
        SessionRecoveryOutcome::Failed(AccountSessionError::Io { ref message }) if message == "无法读取导入账号状态"
    ));
}

#[test]
fn only_imported_retries_are_reconciled() {
    let retry = vec!["b".to_string(), "x".to_string(), "a".to_string()];
    let imported = vec!["a".to_string(), "b".to_string()];
    assert_eq!(retried_imported_aliases(&retry, &imported), vec!["b".to_string(), "a".to_string()]);
}

#[test]
fn reconciling_updates_the_report_and_drops_recovered_errors() {
    let now = 1_000_000;
    let rec = fresh_record(now);
    let recovered = match session_recovery_outcome("a", Some(Some(&rec)), now) {
        SessionRecoveryOutcome::Recovered(r) => r,
        _ => panic!("expected a recovery"),
    };
    let initial = AccountSessionRefreshBatchReport {
        refreshed_count: 0,
        failed_count: 2,
        items: vec![
            AccountSessionRefreshBatchItem {
                alias: "a".to_string(),
                refreshed: false,
                report: None,
                error: Some(AccountSessionError::Session { message: "old".to_string() }),
            },
            AccountSessionRefreshBatchItem {
                alias: "b".to_string(),
                refreshed: false,
                report: None,
                error: Some(AccountSessionError::Session { message: "kept".to_string() }),
            },
        ],
    };
    let aliases = vec!["a".to_string(), "b".to_string(), "c".to_string()];
    let outcomes = vec![
        SessionRecoveryOutcome::Recovered(recovered),
        SessionRecoveryOutcome::Failed(AccountSessionError::Session { message: "new".to_string() }),
        SessionRecoveryOutcome::Failed(AccountSessionError::AccountAliasNotFound { alias: "c".to_string() }),
    ];
    let mut errors = vec![
        AccountImportPostActionError { action: AccountImportPostAction::RefreshSessionMetadata, message: "a：失败".to_string() },
        AccountImportPostActionError { action: AccountImportPostAction::RefreshSessionMetadata, message: "b：失败".to_string() },
        AccountImportPostActionError { action: AccountImportPostAction::FetchGitToken, message: "a：token".to_string() },
    ];
    let r = reconcile_session_recovery(Some(initial), &aliases, &outcomes, &mut errors).unwrap();
    assert_eq!(r.items.len(), 3);
    assert!(r.items[0].refreshed);
    assert!(r.items[0].error.is_none());
    assert!(!r.items[1].refreshed);
    assert!(matches!(r.items[1].error, Some(AccountSessionError::Session { ref message }) if message == "kept"));
    assert_eq!(r.items[2].alias, "c");
    assert!(matches!(r.items[2].error, Some(AccountSessionError::AccountAliasNotFound { .. })));
    assert_eq!(r.refreshed_count, 1);
    assert_eq!(r.failed_count, 2);
    assert_eq!(errors.len(), 2);
    assert_eq!(errors[0].message, "b：失败");
    assert_eq!(errors[1].message, "a：token");

    let mut untouched = vec![AccountImportPostActionError {
        action: AccountImportPostAction::RefreshSessionMetadata,
        message: "a：失败".to_string(),
    }];
    assert!(reconcile_session_recovery(None, &Vec::new(), &Vec::new(), &mut untouched).is_none());
    assert_eq!(untouched.len(), 1);
}

#[test]
fn imports_lock_each_alias_once() {
    let candidates = vec![
        ImportLockCandidate { alias: "a".to_string(), existing_alias: None },
        ImportLockCandidate { alias: "b".to_string(), existing_alias: Some("old".to_string()) },
        ImportLockCandidate { alias: "a".to_string(), existing_alias: Some("b".to_string()) },
        ImportLockCandidate { alias: "c".to_string(), existing_alias: Some("old".to_string()) },
    ];
    assert_eq!(
        import_candidate_lock_aliases(&candidates),
        vec!["a".to_string(), "b".to_string(), "old".to_string(), "c".to_string()]
    );
}

#[test]
fn password_requests_stop_at_the_first_locked_alias() {
    let aliases = vec!["a".to_string(), "b".to_string(), "c".to_string()];
    let owners = vec![None, Some("t1".to_string()), Some("t2".to_string())];
    match reject_locked_aliases(true, &aliases, &owners) {
        Err(TaskStateError::AccountAlreadyLocked { alias, task_id }) => {
            assert_eq!(alias, "b");
            assert_eq!(task_id, "t1");
        }
        _ => panic!("expected a lock error"),
    }
    assert!(reject_locked_aliases(false, &aliases, &owners).is_ok());
    assert!(reject_locked_aliases(true, &aliases, &vec![None, None, None]).is_ok());
}

#[test]
fn trial_eligibility_requests_and_ends() {
    let bad = trial_eligibility_request(9, false, vec!["a".to_string()], None);
    assert_eq!(bad.err().unwrap().status_code, 400);
    let ok = trial_eligibility_request(21, true, vec!["a".to_string(), "b".to_string()], Some(" t ".to_string()))
        .ok()
        .unwrap();
    assert_eq!(ok.aliases, vec!["a".to_string(), "b".to_string()]);
    assert_eq!(ok.task_id.as_deref(), Some("t"));
    let dup = trial_eligibility_request(21, true, vec!["a".to_string(), "a".to_string()], None);
    assert!(dup.err().unwrap().body.contains("account alias repeated in input: a"));
    let items = vec![
        TrialEligibilityItem { alias: "a".to_string(), error: None },
        TrialEligibilityItem {
            alias: "b".to_string(),
            error: Some(AccountSessionError::Session { message: "expired".to_string() }),
        },
    ];
    assert_eq!(trial_eligibility_error_logs(&items), vec!["b：expired".to_string()]);
    assert!(matches!(trial_eligibility_end(2, 0), BatchTaskEnd::Complete(ref m) if m == "账号试用资格检查完成"));
    assert!(matches!(trial_eligibility_end(3, 1), BatchTaskEnd::Fail(ref m) if m == "试用资格检查完成：2 个成功，1 个失败"));
    assert!(matches!(trial_eligibility_end(1, 2), BatchTaskEnd::Fail(ref m) if m == "试用资格检查完成：0 个成功，2 个失败"));
}

#[test]
fn cancelled_sessions_are_cleaned_before_the_task_is_cancelled() {
    let steps = cancel_cleanup_steps(CancelledBrowserSessionKind::AccountBrowser);
    assert_eq!(
        steps,
        vec![
            CancelCleanupStep::CleanupSession,
            CancelCleanupStep::Log("账号浏览器会话已按用户取消请求清理"),
            CancelCleanupStep::CancelTask("任务已取消，浏览器会话已清理"),
        ]
    );
    let steps = cancel_cleanup_steps(CancelledBrowserSessionKind::Registration);
    assert_eq!(steps[0], CancelCleanupStep::CleanupSession);
    assert_eq!(steps[2], CancelCleanupStep::CancelTask("Registration cancelled and browser session cleaned"));
}

#[test]
fn the_purchase_page_decides_an_unclear_trial() {
    assert_eq!(
        rendered_trial_continuation(TrialPurchaseAvailability::Available, TrialEligibility::Ineligible),
        Ok(ExistingTrialContinuation::PurchasePageReady)
    );
    assert_eq!(
        rendered_trial_continuation(TrialPurchaseAvailability::Unavailable, TrialEligibility::Eligible),
        Err(TrialEligibility::Ineligible)
    );
    assert_eq!(
        rendered_trial_continuation(TrialPurchaseAvailability::Unknown, TrialEligibility::ActiveTrial),
        Ok(ExistingTrialContinuation::ResumeActiveTrial)
    );
    assert_eq!(
        rendered_trial_continuation(TrialPurchaseAvailability::Unknown, TrialEligibility::Unknown),
        Err(TrialEligibility::Unknown)
    );
    assert_eq!(
        existing_trial_continuation_log(ExistingTrialContinuation::PurchasePageReady),
        "已确认已有账号试用购买页就绪，进入统一订阅流程"
    );
}
