use overleaf_service::credential::{AccountGitTokenRefreshBatchItem, AccountGitTokenRefreshBatchReport, GitTokenBrowserPlan};
use overleaf_service::errors_remote::AccountSessionError;
use overleaf_service::import_batch::{
    choose_import_batch, insert_sorted_unique, mark_retry_git_token_plans, password_recovery_log,
    retry_session_aliases, ImportBatchKind,
};
use overleaf_service::import_post_actions::{
    git_token_batch_log_lines, GitTokenOutcome, GitTokenRefreshStatus, ImportLogLevel,
    ImportPostActionRun, ImportPostRequest, ImportPostStage,
};
use overleaf_service::imports::{
    AccountImportDecision, AccountImportPostAction, AccountImportPostActionOptions,
    AccountImportReport, ImportedAccountRecord,
};
use overleaf_service::sessions::{session_batch_report, AccountSessionRefreshBatchItem};

fn import_of(aliases: &[(&str, bool)]) -> AccountImportReport {
    AccountImportReport {
        imported_count: aliases.iter().filter(|a| a.1).count(),
        skipped_duplicate_email_count: 1,
        alias_conflict_count: 0,
        decisions: aliases
            .iter()
            .map(|(a, imported)| AccountImportDecision { resolved_alias: a.to_string(), imported: *imported })
            .collect(),
    }
}

fn fresh_record(now: i64) -> ImportedAccountRecord {
    ImportedAccountRecord {
        email: Some("a@b.c".to_string()),
        user_id: Some("u1".to_string()),
        subscription_status: Some("free".to_string()),
        subscription_label: None,
        subscription_checked_at: Some(now - 10),
        trial_expiry: None,
    }
}

fn stale_record() -> ImportedAccountRecord {
    ImportedAccountRecord {
        email: None,
        user_id: None,
        subscription_status: None,
        subscription_label: None,
        subscription_checked_at: None,
        trial_expiry: None,
    }
}

#[test]
fn import_post_actions_refresh_stale_accounts_then_fetch_tokens() {
    let options = AccountImportPostActionOptions { refresh_session_metadata: true, fetch_git_token: true };
    let (mut run, logs, request) = ImportPostActionRun::start(import_of(&[("a", true), ("b", false), ("c", true)]), options);
    assert_eq!(logs[0].text, "账号导入写入完成：2 个导入，1 个重复邮箱跳过，0 个别名冲突");
    assert!(matches!(request, ImportPostRequest::LoadDocument));
    assert_eq!(run.imported, vec!["a".to_string(), "c".to_string()]);

    let now = 1_000_000;
    let (logs, request) = run.document_loaded(Ok(vec![Some(fresh_record(now)), Some(stale_record())]), now);
    assert_eq!(logs[0].text, "开始刷新导入账号状态元数据：1 个账号");
    assert!(matches!(request, ImportPostRequest::RefreshSessions(ref a) if a == &vec!["c".to_string()]));
    assert_eq!(run.stage, ImportPostStage::RefreshingSessions);

    let report = session_batch_report(vec![AccountSessionRefreshBatchItem {
        alias: "c".to_string(),
        refreshed: false,
        report: None,
        error: Some(AccountSessionError::Session { message: "expired".to_string() }),
    }]);
    let (logs, request) = run.sessions_refreshed(Ok(report));
    assert_eq!(logs[0].level, ImportLogLevel::Warning);
    assert_eq!(logs[0].text, "导入后状态刷新：c 失败：expired");
    assert_eq!(logs[1].text, "导入后状态刷新完成：成功 0 个，失败 1 个");
    assert_eq!(logs[2].text, "开始获取导入账号 Git 令牌：2 个账号");
    assert!(matches!(request, ImportPostRequest::FetchGitTokens(ref a) if a.len() == 2));
    assert_eq!(run.report.post_action_errors.len(), 1);
    assert_eq!(run.report.post_action_errors[0].action, AccountImportPostAction::RefreshSessionMetadata);
    assert_eq!(run.report.post_action_errors[0].message, "c：expired");

    let logs = run.git_tokens_fetched(GitTokenOutcome::NotConfigured);
    assert_eq!(logs[0].text, "导入后 Git 令牌获取失败：浏览器自动化未配置");
    assert_eq!(run.stage, ImportPostStage::Done);
    assert_eq!(run.report.post_action_errors[1].message, "browser automation is not configured");
}

#[test]
fn import_post_actions_fail_every_requested_action_when_the_store_is_unreadable() {
    let options = AccountImportPostActionOptions { refresh_session_metadata: true, fetch_git_token: true };
    let (mut run, _, _) = ImportPostActionRun::start(import_of(&[("a", true)]), options);
    let (logs, request) = run.document_loaded(Err("disk error".to_string()), 0);
    assert_eq!(logs[0].level, ImportLogLevel::Error);
    assert_eq!(logs[0].text, "导入后置动作读取账号失败：disk error");
    assert!(matches!(request, ImportPostRequest::Finish));
    assert_eq!(run.report.post_action_errors.len(), 2);
    assert_eq!(run.report.post_action_errors[1].action, AccountImportPostAction::FetchGitToken);
}

#[test]
fn import_post_actions_log_skipped_steps() {
    let options = AccountImportPostActionOptions { refresh_session_metadata: true, fetch_git_token: true };
    let (mut run, _, _) = ImportPostActionRun::start(import_of(&[("a", false)]), options);
    let (logs, request) = run.document_loaded(Ok(Vec::new()), 0);
    assert_eq!(logs[0].text, "导入后状态刷新已跳过：没有需要更新的账号");
    assert_eq!(logs[1].text, "导入后 Git 令牌获取已跳过：没有需要处理的账号");
    assert!(matches!(request, ImportPostRequest::Finish));
}

#[test]
fn git_token_batches_log_each_account() {
    let report = AccountGitTokenRefreshBatchReport {
        refreshed_count: 1,
        skipped_count: 1,
        failed_count: 0,
        items: vec![
            AccountGitTokenRefreshBatchItem { alias: "a".to_string(), refreshed: true, skipped: false, report: Some("{}".to_string()), error: None },
            AccountGitTokenRefreshBatchItem { alias: "b".to_string(), refreshed: false, skipped: true, report: None, error: None },
        ],
    };
    let logs = git_token_batch_log_lines(&report, &vec![Some(GitTokenRefreshStatus::VisibleTokenSaved), None], "导入后 Git 令牌");
    assert_eq!(logs[0].text, "导入后 Git 令牌：a 完成（已读取并保存 token）");
    assert_eq!(logs[1].text, "导入后 Git 令牌：b 跳过（已有有效 token）");
    assert_eq!(logs[2].text, "导入后 Git 令牌完成：成功 1 个，跳过 1 个，失败 0 个");
    assert_eq!(logs[2].level, ImportLogLevel::Info);
}

#[test]
fn git_token_outcomes_record_failures() {
    let options = AccountImportPostActionOptions { refresh_session_metadata: false, fetch_git_token: true };
    let (mut run, _, _) = ImportPostActionRun::start(import_of(&[("a", true)]), options);
    let (_, request) = run.document_loaded(Ok(vec![None]), 0);
    assert!(matches!(request, ImportPostRequest::FetchGitTokens(_)));
    let logs = run.git_tokens_fetched(GitTokenOutcome::Failed("timeout".to_string()));
    assert_eq!(logs[0].text, "导入后 Git 令牌获取失败：timeout");
    assert_eq!(run.report.post_action_errors[0].message, "timeout");
}

#[test]
fn retry_aliases_form_an_ordered_set() {
    let report = session_batch_report(vec![
        AccountSessionRefreshBatchItem { alias: "z".to_string(), refreshed: false, report: None, error: None },
        AccountSessionRefreshBatchItem { alias: "a".to_string(), refreshed: true, report: None, error: None },
        AccountSessionRefreshBatchItem { alias: "m".to_string(), refreshed: false, report: None, error: None },
        AccountSessionRefreshBatchItem { alias: "z".to_string(), refreshed: false, report: None, error: None },
    ]);
    let aliases = vec!["q".to_string()];
    assert_eq!(retry_session_aliases(&aliases, Some(&report)), vec!["m".to_string(), "z".to_string()]);
    let all = vec!["b".to_string(), "a".to_string(), "b".to_string()];
    assert_eq!(retry_session_aliases(&all, None), vec!["a".to_string(), "b".to_string()]);
    let mut set = vec!["b".to_string(), "d".to_string()];
    insert_sorted_unique(&mut set, "c");
    insert_sorted_unique(&mut set, "d");
    insert_sorted_unique(&mut set, "a");
    assert_eq!(set, vec!["a", "b", "c", "d"]);
}

fn plan(alias: &str) -> GitTokenBrowserPlan {
    GitTokenBrowserPlan {
        alias: alias.to_string(),
        email: None,
        password: "pw".to_string(),
        startup_error: None,
        recovery_error: None,
        skip_existing_token: true,
        force_credentials_login: false,
    }
}

#[test]
fn retried_accounts_log_in_with_credentials() {
    let mut plans = vec![plan("a"), plan("b")];
    mark_retry_git_token_plans(&mut plans, &vec!["b".to_string()]);
    assert!(!plans[0].force_credentials_login && plans[0].skip_existing_token);
    assert!(plans[1].force_credentials_login && !plans[1].skip_existing_token);
}

#[test]
fn the_import_batch_depends_on_tokens_and_retries() {
    let both = AccountImportPostActionOptions { refresh_session_metadata: true, fetch_git_token: true };
    let refresh_only = AccountImportPostActionOptions { refresh_session_metadata: true, fetch_git_token: false };
    assert_eq!(choose_import_batch(both, 2, 1), ImportBatchKind::GitToken);
    assert_eq!(choose_import_batch(refresh_only, 2, 1), ImportBatchKind::PasswordRecovery);
    assert_eq!(choose_import_batch(both, 0, 0), ImportBatchKind::Finish);
    assert_eq!(password_recovery_log(3), "3 个账号需要密码恢复，进入凭据浏览器批次");
}
