use overleaf_service::credential::{AccountGitTokenRefreshBatchItem, AccountGitTokenRefreshBatchReport};
use overleaf_service::errors_remote::{AccountGitTokenError, AccountSessionError};
use overleaf_service::imports::{
    append_failed_git_token_post_action_errors, append_failed_session_refresh_post_action_errors,
    append_unrepresented_batch_failure, build_completed_account_import_post_action_report,
    cookie_import_message, imported_aliases_from_import_report, merge_session_refresh_batch_reports,
    session_refresh_batch_log_lines, AccountImportDecision, AccountImportPostAction,
    AccountImportPostActionError, AccountImportPostActionSeed, AccountImportReport,
    CompletedAccountImportPostActionReport, ManualCookieValidationReport,
};
use overleaf_service::sessions::{
    session_batch_report, AccountSessionRefreshBatchItem, AccountSessionRefreshBatchReport,
};

fn s(x: &str) -> String {
    x.to_string()
}

fn item(alias: &str, refreshed: bool, error: Option<&str>) -> AccountSessionRefreshBatchItem {
    AccountSessionRefreshBatchItem {
        alias: s(alias),
        refreshed,
        report: None,
        error: error.map(|m| AccountSessionError::Session { message: s(m) }),
    }
}

fn import(decisions: Vec<(&str, bool)>) -> AccountImportReport {
    AccountImportReport {
        imported_count: decisions.iter().filter(|d| d.1).count(),
        skipped_duplicate_email_count: 0,
        alias_conflict_count: 0,
        decisions: decisions
            .into_iter()
            .map(|(a, i)| AccountImportDecision { resolved_alias: s(a), imported: i })
            .collect(),
    }
}

#[test]
fn imported_aliases_follow_the_decisions() {
    let r = import(vec![("a", true), ("b", false), ("c", true)]);
    assert_eq!(imported_aliases_from_import_report(&r), vec![s("a"), s("c")]);
}

#[test]
fn refresh_reports_merge_by_alias() {
    let first = session_batch_report(vec![item("a", false, Some("x")), item("b", true, None)]);
    let second = session_batch_report(vec![item("a", true, None), item("c", false, Some("y"))]);
    let merged = merge_session_refresh_batch_reports(Some(first), Some(second)).unwrap();
    let aliases: Vec<&str> = merged.items.iter().map(|i| i.alias.as_str()).collect();
    assert_eq!(aliases, vec!["a", "b", "c"]);
    assert!(merged.items[0].refreshed);
    assert_eq!(merged.refreshed_count, 2);
    assert_eq!(merged.failed_count, 1);
    assert!(merge_session_refresh_batch_reports(None, None).is_none());
    let only = merge_session_refresh_batch_reports(None, Some(session_batch_report(vec![item("z", true, None)]))).unwrap();
    assert_eq!(only.items.len(), 1);
}

#[test]
fn failed_refreshes_become_post_action_errors() {
    let mut errors: Vec<AccountImportPostActionError> = Vec::new();
    let mut report = session_batch_report(vec![item("a", false, Some("expired")), item("b", true, None), item("c", false, None)]);
    report.failed_count = 4;
    append_failed_session_refresh_post_action_errors(&mut errors, &report);
    let messages: Vec<&str> = errors.iter().map(|e| e.message.as_str()).collect();
    assert_eq!(messages, vec!["a：expired", "c：未知错误", "批次报告还有 2 个未归属失败账号"]);
    assert!(errors.iter().all(|e| e.action == AccountImportPostAction::RefreshSessionMetadata));

    let mut errors: Vec<AccountImportPostActionError> = Vec::new();
    let tokens = AccountGitTokenRefreshBatchReport {
        refreshed_count: 1,
        skipped_count: 1,
        failed_count: 1,
        items: vec![
            AccountGitTokenRefreshBatchItem { alias: s("a"), refreshed: true, skipped: false, report: None, error: None },
            AccountGitTokenRefreshBatchItem { alias: s("b"), refreshed: false, skipped: true, report: None, error: None },
            AccountGitTokenRefreshBatchItem {
                alias: s("c"),
                refreshed: false,
                skipped: false,
                report: None,
                error: Some(AccountGitTokenError::TokenNotAvailable { alias: s("c") }),
            },
        ],
    };
    append_failed_git_token_post_action_errors(&mut errors, &tokens);
    assert_eq!(errors.len(), 1);
    assert_eq!(errors[0].action, AccountImportPostAction::FetchGitToken);
    assert_eq!(errors[0].message, "c：Git token was not available after browser generation: c");

    let mut errors: Vec<AccountImportPostActionError> = Vec::new();
    append_unrepresented_batch_failure(&mut errors, AccountImportPostAction::FetchGitToken, 1, 1);
    assert!(errors.is_empty());
}

#[test]
fn refresh_logs_name_each_account() {
    let report = session_batch_report(vec![item("a", true, None), item("b", false, Some("bad"))]);
    let logs = session_refresh_batch_log_lines(&report, "恢复");
    let lines: Vec<(bool, &str)> = logs.iter().map(|l| (l.warning, l.text.as_str())).collect();
    assert_eq!(
        lines,
        vec![(false, "恢复：a 完成"), (true, "恢复：b 失败：bad"), (true, "恢复完成：成功 1 个，失败 1 个")]
    );
}

#[test]
fn completed_imports_say_how_they_ended() {
    assert_eq!(cookie_import_message(0, 0), "Cookie 账号导入完成");
    assert_eq!(cookie_import_message(2, 1), "Cookie 账号导入未完全完成：2 个身份验证失败，1 个后置动作失败");
    let done = build_completed_account_import_post_action_report(
        AccountImportPostActionSeed::Accounts(import(vec![("a", true)])),
        None,
        None,
        Vec::new(),
    );
    assert!(!done.has_failures());
    assert_eq!(done.terminal_message(), "账号导入完成");
    let partial = build_completed_account_import_post_action_report(
        AccountImportPostActionSeed::Accounts(import(vec![("a", true)])),
        None,
        None,
        vec![AccountImportPostActionError { action: AccountImportPostAction::FetchGitToken, message: s("x") }],
    );
    assert!(partial.has_failures());
    assert_eq!(partial.terminal_message(), "账号导入完成，部分后置动作失败");
    let cookie = build_completed_account_import_post_action_report(
        AccountImportPostActionSeed::ManualCookie {
            import: import(vec![("a", true)]),
            validation: ManualCookieValidationReport { validated_count: 0, failed_count: 1 },
        },
        None,
        None,
        Vec::new(),
    );
    assert!(cookie.has_failures());
    assert_eq!(cookie.terminal_message(), "Cookie 账号导入未完全完成：1 个身份验证失败，0 个后置动作失败");
    assert!(matches!(cookie, CompletedAccountImportPostActionReport::ManualCookie(_)));
}
