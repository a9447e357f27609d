use overleaf_service::credential::{
    assemble_credential_browser_batch_items, browser_login_batch_report_from_browser_items,
    classify_credential_batch_item, credential_batch_report_from_browser_items,
    credential_browser_batch_item_from_report, finish_credential_browser_batch,
    git_token_batch_report_from_browser_items, missing_credential_browser_batch_item,
    password_change_batch_report_from_browser_items, AccountGitTokenRefreshBatchItem,
    BatchTaskView, BrowserAutoLoginBatchItem, BrowserBatchItemSnapshot, BrowserBatchSnapshot,
    CredentialBatchCompletionKind, CredentialBatchFinish, CredentialBatchItemStatus,
    CredentialBatchReport, CredentialBrowserBatchAccumulator, CredentialBrowserBatchItem,
    CredentialBrowserOperation, CredentialLoginReport, CredentialLoginStatus,
    OverleafPasswordChangeBatchItem,
};
use overleaf_service::errors::BrowserAutoLoginError;
use overleaf_service::errors_remote::AccountGitTokenError;

fn s(x: &str) -> String {
    x.to_string()
}

fn login(alias: &str, status: CredentialLoginStatus) -> CredentialLoginReport {
    CredentialLoginReport { alias: s(alias), email: format!("{alias}@x"), existing_alias: None, status, metadata: None }
}

fn opened(alias: &str, opened: bool, cancelled: bool) -> CredentialBrowserBatchItem {
    CredentialBrowserBatchItem::BrowserLogin(BrowserAutoLoginBatchItem {
        alias: s(alias),
        opened,
        cancelled,
        report: None,
        error: if opened { None } else { Some(BrowserAutoLoginError::Browser { message: s("x") }) },
    })
}

fn snapshot(id: &str, alias: &str, cancelled: bool) -> BrowserBatchItemSnapshot {
    BrowserBatchItemSnapshot { item_id: s(id), alias: s(alias), cancelled, terminal: true }
}

#[test]
fn login_reports_become_credential_items() {
    let (item, completed, failure) = credential_browser_batch_item_from_report(login("a", CredentialLoginStatus::UpdatedExisting), None);
    assert!(completed && failure.is_none());
    assert_eq!(item.status, CredentialBatchItemStatus::Updated);
    let (item, completed, _) = credential_browser_batch_item_from_report(login("a", CredentialLoginStatus::Imported), Some(s("no meta")));
    assert!(!completed);
    assert_eq!(item.status, CredentialBatchItemStatus::Failed);
    assert_eq!(item.error.as_deref(), Some("no meta"));
    let mut batch = CredentialBatchReport { imported_count: 0, updated_count: 0, skipped_duplicate_email_count: 0, failed_count: 0, items: Vec::new() };
    classify_credential_batch_item(&mut batch, login("a", CredentialLoginStatus::Imported), None);
    classify_credential_batch_item(&mut batch, login("b", CredentialLoginStatus::SkippedDuplicateEmail), None);
    classify_credential_batch_item(&mut batch, login("c", CredentialLoginStatus::Imported), Some(s("x")));
    assert_eq!((batch.imported_count, batch.updated_count, batch.skipped_duplicate_email_count, batch.failed_count), (1, 0, 1, 1));
}

#[test]
fn batch_reports_count_their_items() {
    let (a, _, _) = credential_browser_batch_item_from_report(login("a", CredentialLoginStatus::Imported), None);
    let (b, _, _) = credential_browser_batch_item_from_report(login("b", CredentialLoginStatus::Imported), Some(s("x")));
    let r = credential_batch_report_from_browser_items(vec![
        CredentialBrowserBatchItem::Credential(a),
        CredentialBrowserBatchItem::Credential(b),
        opened("z", true, false),
    ]);
    assert_eq!(r.items.len(), 2);
    assert_eq!((r.imported_count, r.failed_count), (1, 1));
    let r = git_token_batch_report_from_browser_items(vec![
        CredentialBrowserBatchItem::GitToken(AccountGitTokenRefreshBatchItem { alias: s("a"), refreshed: true, skipped: false, report: None, error: None }),
        CredentialBrowserBatchItem::GitToken(AccountGitTokenRefreshBatchItem { alias: s("b"), refreshed: false, skipped: true, report: None, error: None }),
        CredentialBrowserBatchItem::GitToken(AccountGitTokenRefreshBatchItem {
            alias: s("c"),
            refreshed: false,
            skipped: false,
            report: None,
            error: Some(AccountGitTokenError::Browser { message: s("x") }),
        }),
    ]);
    assert_eq!((r.refreshed_count, r.skipped_count, r.failed_count), (1, 1, 1));
    let r = password_change_batch_report_from_browser_items(vec![
        CredentialBrowserBatchItem::PasswordChange(OverleafPasswordChangeBatchItem { alias: s("a"), email: None, password_updated: true, report: None, error: None }),
        CredentialBrowserBatchItem::PasswordChange(OverleafPasswordChangeBatchItem { alias: s("b"), email: None, password_updated: false, report: None, error: Some(s("x")) }),
    ]);
    assert_eq!((r.changed_count, r.failed_count), (1, 1));
    let r = browser_login_batch_report_from_browser_items(vec![opened("a", true, false), opened("b", false, true), opened("c", false, false)]);
    assert_eq!((r.opened_count, r.failed_count, r.cancelled_count), (1, 1, 1));
}

#[test]
fn accounts_without_a_result_are_filled_in() {
    match missing_credential_browser_batch_item(CredentialBrowserOperation::BrowserLogin, "a", false) {
        CredentialBrowserBatchItem::BrowserLogin(i) => {
            assert!(!i.cancelled && !i.opened);
            assert!(matches!(i.error, Some(BrowserAutoLoginError::Browser { ref message }) if message == "账号没有返回浏览器结果，已标记为失败"));
        }
        _ => panic!("expected a browser login item"),
    }
    match missing_credential_browser_batch_item(CredentialBrowserOperation::GitToken, "a", false) {
        CredentialBrowserBatchItem::GitToken(i) => {
            assert!(!i.refreshed && !i.skipped);
            assert!(matches!(i.error, Some(AccountGitTokenError::Browser { ref message }) if message == "账号没有返回浏览器结果，已标记为失败"));
        }
        _ => panic!("expected a Git token item"),
    }
    match missing_credential_browser_batch_item(CredentialBrowserOperation::BrowserLogin, "a", true) {
        CredentialBrowserBatchItem::BrowserLogin(i) => {
            assert!(i.cancelled && !i.opened);
            assert!(i.error.is_none());
        }
        _ => panic!("expected a browser login item"),
    }
    let mut accumulated = vec![(s("i2"), opened("b", true, false))];
    let (items, missing) = assemble_credential_browser_batch_items(
        CredentialBrowserOperation::BrowserLogin,
        &vec![opened("pre", true, false)],
        &vec![s("i1"), s("i2")],
        &mut accumulated,
        &vec![snapshot("i1", "a", false), snapshot("i2", "b", false)],
    );
    assert_eq!(missing, vec![s("a")]);
    assert_eq!(items.len(), 3);
    assert!(matches!(items[1], CredentialBrowserBatchItem::BrowserLogin(ref i) if i.alias == "a" && !i.opened));
    assert!(matches!(items[2], CredentialBrowserBatchItem::BrowserLogin(ref i) if i.alias == "b" && i.opened));
    assert_eq!(accumulated.len(), 2);
}

fn accumulator(items: Vec<(String, CredentialBrowserBatchItem)>, ids: Vec<&str>) -> CredentialBrowserBatchAccumulator {
    CredentialBrowserBatchAccumulator {
        initial_items: Vec::new(),
        ordered_item_ids: ids.into_iter().map(s).collect(),
        items,
        finalized: false,
    }
}

#[test]
fn finished_batches_end_their_task() {
    let terminal = Some(BrowserBatchSnapshot { terminal: true, items: vec![snapshot("i1", "a", false), snapshot("i2", "b", false)] });
    let mut acc = accumulator(vec![(s("i1"), opened("a", true, false))], vec!["i1", "i2"]);
    let r = finish_credential_browser_batch(
        CredentialBrowserOperation::BrowserLogin,
        &mut acc,
        &terminal,
        Some(BatchTaskView { terminal: false, cancel_requested: false }),
        CredentialBatchCompletionKind::Standard,
    );
    match r {
        CredentialBatchFinish::BrowserLoginIncomplete { missing_warning, report, message } => {
            assert_eq!(missing_warning.as_deref(), Some("浏览器批次补全 1 个无结果账号，已按失败处理"));
            assert_eq!((report.opened_count, report.failed_count), (1, 1));
            assert_eq!(message, "浏览器自动登录未完全完成：1 个失败，0 个取消");
        }
        _ => panic!("expected an incomplete browser login"),
    }
    assert!(acc.finalized);
    let again = finish_credential_browser_batch(CredentialBrowserOperation::BrowserLogin, &mut acc, &terminal, None, CredentialBatchCompletionKind::Standard);
    assert!(matches!(again, CredentialBatchFinish::NotReady));

    let mut acc = accumulator(vec![(s("i1"), opened("a", true, false)), (s("i2"), opened("b", true, false))], vec!["i1", "i2"]);
    let r = finish_credential_browser_batch(CredentialBrowserOperation::BrowserLogin, &mut acc, &terminal, None, CredentialBatchCompletionKind::Standard);
    assert!(matches!(r, CredentialBatchFinish::BrowserLoginOpened { missing_warning: None, .. }));

    let mut acc = accumulator(Vec::new(), vec!["i1"]);
    let r = finish_credential_browser_batch(
        CredentialBrowserOperation::Refresh,
        &mut acc,
        &terminal,
        Some(BatchTaskView { terminal: false, cancel_requested: true }),
        CredentialBatchCompletionKind::Standard,
    );
    assert!(matches!(r, CredentialBatchFinish::Cancel { missing_warning: Some(_) }));

    let mut acc = accumulator(Vec::new(), vec!["i1"]);
    let r = finish_credential_browser_batch(
        CredentialBrowserOperation::Refresh,
        &mut acc,
        &terminal,
        Some(BatchTaskView { terminal: true, cancel_requested: false }),
        CredentialBatchCompletionKind::Standard,
    );
    assert!(matches!(r, CredentialBatchFinish::TaskAlreadyFinished));

    let running = Some(BrowserBatchSnapshot { terminal: false, items: Vec::new() });
    let mut acc = accumulator(Vec::new(), Vec::new());
    let r = finish_credential_browser_batch(CredentialBrowserOperation::Refresh, &mut acc, &running, None, CredentialBatchCompletionKind::Standard);
    assert!(matches!(r, CredentialBatchFinish::NotReady));
    assert!(!acc.finalized);

    let mut acc = accumulator(Vec::new(), vec!["i1", "i2"]);
    let r = finish_credential_browser_batch(
        CredentialBrowserOperation::Refresh,
        &mut acc,
        &terminal,
        None,
        CredentialBatchCompletionKind::CredentialRefresh,
    );
    match r {
        CredentialBatchFinish::CredentialRefresh { report, .. } => assert_eq!(report.failed_count, 2),
        _ => panic!("expected the refresh continuation"),
    }
}
