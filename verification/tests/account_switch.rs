use overleaf_service::account_switch::{
    check_switch_selection, recovery_login, switch_attempt_end, switch_conflict_response,
    switch_recovery_refusal, switch_recovery_route, switch_target_alias, SwitchAttemptEnd,
    SwitchAttemptOutcome, SwitchRecoveryRoute, TaskLockView,
};
use overleaf_service::errors::AccountSecretStoreError;
use overleaf_service::tasks::ServiceTaskPhase;

const ID: &str = "aaaaaaaaaaaaaaaaaaaaaaaa";

#[test]
fn switch_selections_need_valid_ids_and_a_source() {
    let ids = vec![ID.to_string()];
    assert!(check_switch_selection(Some(&ids), true, Some("src")).is_ok());
    assert!(check_switch_selection(None, true, None).is_ok());
    let r = check_switch_selection(Some(&ids), true, Some("  ")).unwrap_err();
    assert_eq!(r.body, "{\"error\":\"迁移项目选择无效，请重新选择\"}");
    let bad = vec!["short".to_string()];
    assert!(check_switch_selection(Some(&bad), false, None).is_err());
    assert!(check_switch_selection(Some(&ids), false, None).is_ok());
}

#[test]
fn switch_targets_must_be_named() {
    assert_eq!(switch_target_alias(" acct ").unwrap(), "acct");
    let r = switch_target_alias("  ").unwrap_err();
    assert_eq!(r.status_code, 404);
    assert_eq!(r.body, "{\"error\":\"account alias not found: \"}");
}

fn task(phase: ServiceTaskPhase, switch: bool, locked: &[&str]) -> TaskLockView {
    TaskLockView {
        phase,
        is_switch_execution: switch,
        locked_aliases: locked.iter().map(|a| a.to_string()).collect(),
    }
}

#[test]
fn switches_wait_for_busy_sources_and_other_switches() {
    let tasks = vec![task(ServiceTaskPhase::Running, false, &["src"])];
    let r = switch_conflict_response(&tasks, true, Some("src")).unwrap();
    assert_eq!(r.body, "{\"error\":\"源账号还有任务正在执行，请等待完成后再迁移\"}");
    assert!(switch_conflict_response(&tasks, false, Some("src")).is_none());
    let tasks = vec![task(ServiceTaskPhase::WaitingForUser, true, &[])];
    let r = switch_conflict_response(&tasks, false, None).unwrap();
    assert_eq!(r.status_code, 409);
    let done = vec![task(ServiceTaskPhase::Completed, true, &["src"])];
    assert!(switch_conflict_response(&done, true, Some("src")).is_none());
}

#[test]
fn switch_attempts_recover_expired_cookies_once() {
    let failed = || SwitchAttemptOutcome::Failed { message: "cookie expired".to_string(), requires_cookie_recovery: true };
    assert!(matches!(switch_attempt_end(failed(), true, true), SwitchAttemptEnd::Recover { ref log } if log == "cookie expired；正在尝试账号密码恢复"));
    assert!(matches!(switch_attempt_end(failed(), false, true), SwitchAttemptEnd::Fail { ref message } if message == "cookie expired"));
    assert!(matches!(switch_attempt_end(SwitchAttemptOutcome::Switched, true, true), SwitchAttemptEnd::Complete));
    assert!(matches!(switch_attempt_end(SwitchAttemptOutcome::MigrationCancelled, true, true), SwitchAttemptEnd::Cancel));
}

#[test]
fn recoveries_need_a_password_and_a_browser() {
    assert_eq!(switch_recovery_route(true, true, true), SwitchRecoveryRoute::PasswordRequired);
    assert_eq!(switch_recovery_route(false, true, true), SwitchRecoveryRoute::LocalBrowser);
    assert_eq!(switch_recovery_route(false, false, true), SwitchRecoveryRoute::Automation);
    assert_eq!(switch_recovery_route(false, false, false), SwitchRecoveryRoute::Unavailable);
    let (_, r) = switch_recovery_refusal(SwitchRecoveryRoute::PasswordRequired).unwrap();
    assert_eq!(r.body, "{\"error\":\"目标账号没有可用的本地密码，请重新输入密码后再试\",\"kind\":\"account_password_required\"}");
    assert!(switch_recovery_refusal(SwitchRecoveryRoute::Automation).is_none());
}

#[test]
fn recovery_logins_read_the_saved_email_and_password() {
    let l = recovery_login("a", Some(" a@b.c ".to_string()), Ok("pw".to_string())).ok().unwrap();
    assert_eq!(l.email, " a@b.c ");
    assert_eq!(l.password, "pw");
    let missing = AccountSecretStoreError::Missing { alias: "a".to_string(), category: "password".to_string() };
    assert_eq!(recovery_login("a", Some("a@b.c".to_string()), Err(missing)).ok().unwrap().password, "");
    let (m, r) = recovery_login("a", Some(" ".to_string()), Ok("pw".to_string())).err().unwrap();
    assert_eq!(m, "missing email for account alias: a");
    assert_eq!(r.status_code, 400);
}
