use overleaf_service::credential::{
    AccountGitTokenRefreshBatchItem, CredentialBrowserBatchItem, CredentialBrowserOperation,
};
use overleaf_service::credential_commit::{
    commit_end, commit_outcome, git_token_generation_commit, saved_browser_login_outcome,
    saved_cookie_generation_step, saved_cookie_git_token_mode, saved_git_token_outcome,
    CredentialBrowserCommitReport, GitTokenGenerationCommit,
};
use overleaf_service::credential_job::{SavedBrowserLoginOutcome, SavedGitTokenOutcome};
use overleaf_service::errors::{AccountSecretStoreError, BrowserAutoLoginError};
use overleaf_service::errors_remote::AccountGitTokenError;
use overleaf_service::saved_cookie::{
    saved_cookie_from_secrets, saved_cookie_identity, saved_cookie_record_check, SavedCookieCheck,
};

fn s(x: &str) -> String {
    x.to_string()
}

const ALL: [CredentialBrowserOperation; 6] = [
    CredentialBrowserOperation::Add,
    CredentialBrowserOperation::Refresh,
    CredentialBrowserOperation::PasswordChange,
    CredentialBrowserOperation::GitTokenRefresh,
    CredentialBrowserOperation::GitToken,
    CredentialBrowserOperation::BrowserLogin,
];

#[test]
fn every_operation_names_itself() {
    let labels = ["账号密码添加账号", "账号密码刷新 Cookie", "修改 Overleaf 密码", "刷新 Git Integration token 状态", "获取 Git Integration token", "浏览器登录"];
    let jobs = ["credential-add-batch", "credential-refresh-batch", "overleaf-password-change-batch", "git-token-refresh-batch", "git-token-generate-batch", "browser-login-credential-batch"];
    let workers = ["overleaf-credential-add-item", "overleaf-credential-refresh-item", "overleaf-password-change-item", "overleaf-git-token-refresh-item", "overleaf-git-token-item", "overleaf-browser-login-item"];
    let running = ["登录并添加账号", "刷新 Cookie", "登录并修改远端密码", "刷新 Git token 状态", "检查 Cookie 并获取 Git token", "打开浏览器并登录"];
    let invalid = ["邮箱或密码错误，请重新输入", "密码错误，请重新输入", "当前密码错误，请重新输入", "密码错误，请重新输入后继续刷新 Git token 状态", "密码错误，请重新输入后继续获取 Git token", "没有可用登录态，请重新输入密码"];
    let terminal = ["账号添加完成", "Cookie 刷新完成", "远端密码修改完成", "Git token 状态刷新完成", "Git token 获取完成", "浏览器登录完成"];
    let input = ["重新输入格式无效，请检查邮箱和密码", "重新输入格式无效，请检查密码", "重新输入格式无效，请检查当前密码", "重新输入格式无效，请检查账号密码", "重新输入格式无效，请检查账号密码", "重新输入格式无效，请检查密码"];
    let queued = ["账号添加批次", "Cookie 刷新批次", "远端改密批次", "Git token 状态刷新批次", "Git token 批次", "浏览器登录批次"];
    let success = ["登录并保存完成: a", "Cookie 刷新完成: a", "Overleaf 远端密码修改完成: a", "Git token 状态刷新完成: a", "Git token 获取完成: a", "浏览器登录完成: a"];
    let failure = ["账号未完成: a (x)", "Cookie 刷新未完成: a (x)", "远端密码修改未完成: a (x)", "Git token 状态刷新未完成: a (x)", "Git token 获取未完成: a (x)", "浏览器登录未完成: a (x)"];
    for (i, op) in ALL.iter().enumerate() {
        assert_eq!(op.task_label(), labels[i]);
        assert_eq!(op.job_name(), jobs[i]);
        assert_eq!(op.worker_name(), workers[i]);
        assert_eq!(op.running_message(), running[i]);
        assert_eq!(op.invalid_credentials_message(), invalid[i]);
        assert_eq!(op.terminal_item_message(), terminal[i]);
        assert_eq!(op.invalid_input_message(), input[i]);
        assert_eq!(op.queue_message(3), format!("{}已进入独立后台队列，并发上限 3", queued[i]));
        assert_eq!(op.success_message("a"), success[i]);
        assert_eq!(op.failure_message("a", "x"), failure[i]);
    }
    assert_eq!(CredentialBrowserOperation::GitToken.git_token_batch_success_message(), "Git Integration token 获取完成");
    assert_eq!(CredentialBrowserOperation::GitTokenRefresh.git_token_batch_success_message(), "Git Integration token 状态刷新完成");
    assert_eq!(CredentialBrowserOperation::Add.git_token_batch_success_message(), "Git Integration token 操作完成");
    assert_eq!(CredentialBrowserOperation::GitToken.git_token_batch_failure_prefix(), "Git Integration token 获取未完全完成");
    assert_eq!(CredentialBrowserOperation::Refresh.git_token_batch_failure_prefix(), "Git Integration token 操作未完全完成");
}

#[test]
fn committed_accounts_end_completed_or_failed() {
    let end = commit_end(CredentialBrowserOperation::Refresh, "a", true, None);
    assert_eq!(end.stage_line, "终态：完成");
    assert!(!end.warning);
    assert_eq!(end.item_message, "Cookie 刷新完成");
    assert_eq!(end.task_line, "Cookie 刷新完成: a");
    let end = commit_end(CredentialBrowserOperation::PasswordChange, "a", false, None);
    assert_eq!(end.stage_line, "终态：失败");
    assert!(end.warning);
    assert_eq!(end.item_message, "browser reported password was not changed");
    assert_eq!(end.task_line, "远端密码修改未完成: a (browser reported password was not changed)");
    let end = commit_end(CredentialBrowserOperation::Add, "a", false, Some(s("no cookie")));
    assert_eq!(end.task_line, "账号未完成: a (no cookie)");
}

#[test]
fn commit_reports_become_batch_items() {
    let (item, completed, failure) = commit_outcome("plan", CredentialBrowserCommitReport::GitTokenSkipped);
    assert!(completed);
    assert!(failure.is_none());
    match item {
        CredentialBrowserBatchItem::GitToken(i) => {
            assert_eq!(i.alias, "plan");
            assert!(i.skipped && !i.refreshed);
        }
        _ => panic!("expected a Git token item"),
    }
    let (item, completed, failure) = commit_outcome(
        "plan",
        CredentialBrowserCommitReport::BrowserLogin { alias: s("a"), opened: false, report: s("{}") },
    );
    assert!(!completed);
    assert_eq!(failure.as_deref(), Some("浏览器登录结果未确认窗口已打开"));
    match item {
        CredentialBrowserBatchItem::BrowserLogin(i) => {
            assert!(!i.opened && !i.cancelled);
            assert!(matches!(i.error, Some(BrowserAutoLoginError::Browser { ref message }) if message == "浏览器登录结果未确认窗口已打开"));
        }
        _ => panic!("expected a browser login item"),
    }
    let (item, completed, failure) = commit_outcome(
        "plan",
        CredentialBrowserCommitReport::PasswordChange {
            alias: s("a"),
            email: s("a@x"),
            password_updated: true,
            failure_message: None,
            report: s("{}"),
        },
    );
    assert!(completed && failure.is_none());
    assert!(matches!(item, CredentialBrowserBatchItem::PasswordChange(ref i) if i.email.as_deref() == Some("a@x")));
    let (_, completed, _) = commit_outcome("plan", CredentialBrowserCommitReport::GitToken { alias: s("a"), report: s("{}") });
    assert!(completed);
}

fn token_item(refreshed: bool, skipped: bool, report: Option<&str>, error: Option<AccountGitTokenError>) -> AccountGitTokenRefreshBatchItem {
    AccountGitTokenRefreshBatchItem { alias: s("a"), refreshed, skipped, report: report.map(s), error }
}

#[test]
fn generated_tokens_are_read_from_the_first_item() {
    assert_eq!(git_token_generation_commit(&Vec::new()).err().unwrap(), "Git token generation returned no item");
    assert!(matches!(
        git_token_generation_commit(&vec![token_item(true, false, Some("{\"t\":1}"), None)]),
        Ok(GitTokenGenerationCommit::Refreshed(ref j)) if j == "{\"t\":1}"
    ));
    assert!(matches!(git_token_generation_commit(&vec![token_item(false, true, None, None)]), Ok(GitTokenGenerationCommit::Skipped)));
    assert_eq!(
        git_token_generation_commit(&vec![token_item(false, false, None, Some(AccountGitTokenError::MissingCookies { alias: s("a") }))]).err().unwrap(),
        "missing cookies for account alias: a"
    );
    assert_eq!(git_token_generation_commit(&vec![token_item(false, false, None, None)]).err().unwrap(), "Git token generation did not complete");

    assert!(saved_cookie_generation_step(vec![token_item(false, true, None, None)]).is_none());
    assert!(matches!(saved_cookie_generation_step(vec![token_item(true, false, Some("r"), None)]), Some(Ok(ref j)) if j == "r"));
    assert!(matches!(
        saved_cookie_generation_step(vec![token_item(true, false, None, None)]),
        Some(Err(AccountGitTokenError::Browser { ref message })) if message == "Git token generation returned no report"
    ));
    assert!(matches!(
        saved_cookie_generation_step(Vec::new()),
        Some(Err(AccountGitTokenError::Browser { ref message })) if message == "Git token generation returned no item"
    ));
}

#[test]
fn the_saved_cookie_is_tried_before_a_login() {
    assert_eq!(saved_cookie_git_token_mode(true, false, false), Some(true));
    assert_eq!(saved_cookie_git_token_mode(false, true, false), Some(false));
    assert_eq!(saved_cookie_git_token_mode(true, false, true), None);
    assert_eq!(saved_cookie_git_token_mode(false, false, false), None);
    let (o, r) = saved_git_token_outcome(Ok(s("rep")));
    assert!(matches!(o, SavedGitTokenOutcome::Completed));
    assert_eq!(r.as_deref(), Some("rep"));
    let (o, _) = saved_git_token_outcome(Err(AccountGitTokenError::MissingCookies { alias: s("a") }));
    assert!(matches!(o, SavedGitTokenOutcome::Recover(ref m) if m == "Cookie 在 Git token 操作时失效，转账号密码登录"));
    let (o, _) = saved_git_token_outcome(Err(AccountGitTokenError::Browser { message: s("crash") }));
    assert!(matches!(o, SavedGitTokenOutcome::Failed(ref m) if m == "crash"));
    let (o, _) = saved_browser_login_outcome(Err(BrowserAutoLoginError::InvalidCookie { alias: s("a") }));
    assert!(matches!(o, SavedBrowserLoginOutcome::Recover(ref m) if m == "已保存 Cookie 在打开窗口时失效，转账号密码登录"));
    let (o, _) = saved_browser_login_outcome(Err(BrowserAutoLoginError::MissingEmail { alias: s("a") }));
    assert!(matches!(o, SavedBrowserLoginOutcome::Failed(ref m) if m == "account alias has no saved email for browser login: a"));
    let (o, r) = saved_browser_login_outcome(Ok(s("{}")));
    assert!(matches!(o, SavedBrowserLoginOutcome::Completed));
    assert_eq!(r.as_deref(), Some("{}"));
}

#[test]
fn saved_cookies_are_checked_step_by_step() {
    assert!(matches!(saved_cookie_record_check(false, "a", None, 10), Some(SavedCookieCheck::Failed(ref m)) if m == "account alias not found: a"));
    assert!(matches!(saved_cookie_record_check(true, "a", Some(10), 10), Some(SavedCookieCheck::Recover(ref m)) if m == "已保存 Cookie 已过期"));
    assert!(saved_cookie_record_check(true, "a", Some(11), 10).is_none());
    assert!(saved_cookie_record_check(true, "a", None, 10).is_none());
    assert_eq!(saved_cookie_from_secrets(Ok(Some(s(" c ")))).ok().unwrap(), "c");
    assert!(matches!(saved_cookie_from_secrets(Ok(Some(s("  ")))), Err(SavedCookieCheck::Recover(ref m)) if m == "没有可用 Cookie"));
    assert!(matches!(saved_cookie_from_secrets(Ok(None)), Err(SavedCookieCheck::Recover(_))));
    assert!(matches!(
        saved_cookie_from_secrets(Err(AccountSecretStoreError::Missing { alias: s("a"), category: s("Cookie") })),
        Err(SavedCookieCheck::Recover(ref m)) if m == "没有可用 Cookie"
    ));
    assert!(matches!(
        saved_cookie_from_secrets(Err(AccountSecretStoreError::WriteFailed { alias: s("a"), category: s("Cookie") })),
        Err(SavedCookieCheck::Failed(ref m)) if m == "failed to read stored Cookie secret for account alias: a"
    ));
    assert!(matches!(saved_cookie_identity(Ok(()), s("c")), SavedCookieCheck::Valid { ref session_cookie } if session_cookie == "c"));
    assert!(matches!(
        saved_cookie_identity(Err((true, s("x"))), s("c")),
        SavedCookieCheck::Recover(ref m) if m == "已保存 Cookie 无效或身份不匹配"
    ));
    assert!(matches!(saved_cookie_identity(Err((false, s("io"))), s("c")), SavedCookieCheck::Failed(ref m) if m == "io"));
}
