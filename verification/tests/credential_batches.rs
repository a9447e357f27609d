use overleaf_service::credential::{CredentialBatchItemStatus, CredentialLoginReport, CredentialLoginStatus};
use overleaf_service::credential_batch::{
    credential_add_lock_aliases, credential_report_from_skipped_duplicates, push_unique,
    refresh_login_email, OrderedCredentialBatch, SkippedDuplicateEmail,
};

fn skipped(alias: &str, existing: &str) -> SkippedDuplicateEmail {
    SkippedDuplicateEmail { alias: alias.to_string(), email: format!("{alias}@x.y"), existing_alias: existing.to_string() }
}

fn login(alias: &str, status: CredentialLoginStatus) -> CredentialLoginReport {
    CredentialLoginReport {
        alias: alias.to_string(),
        email: format!("{alias}@x.y"),
        existing_alias: None,
        status,
        metadata: None,
    }
}

#[test]
fn batches_keep_plan_order_whatever_order_logins_finish_in() {
    let start = credential_report_from_skipped_duplicates(&vec![skipped("dup", "old")]);
    assert_eq!(start.skipped_duplicate_email_count, 1);
    let mut batch = OrderedCredentialBatch::new(start, 3);
    let line = batch.record(2, "c", "c@x.y", Err("timeout".to_string()), "登录并保存完成");
    assert_eq!(line, (true, "未完成：timeout".to_string()));
    let line = batch.record(0, "a", "a@x.y", Ok((login("a", CredentialLoginStatus::Imported), None)), "登录并保存完成");
    assert_eq!(line, (false, "登录并保存完成".to_string()));
    let line = batch.record(
        1,
        "b",
        "b@x.y",
        Ok((login("b", CredentialLoginStatus::UpdatedExisting), Some("no cookie".to_string()))),
        "登录并保存完成",
    );
    assert_eq!(line, (true, "未完成：no cookie".to_string()));
    let report = batch.finish();
    let aliases: Vec<&str> = report.items.iter().map(|i| i.alias.as_str()).collect();
    assert_eq!(aliases, vec!["dup", "a", "b", "c"]);
    assert_eq!(report.items[0].status, CredentialBatchItemStatus::SkippedDuplicateEmail);
    assert_eq!(report.items[1].status, CredentialBatchItemStatus::Imported);
    assert_eq!(report.items[2].status, CredentialBatchItemStatus::Failed);
    assert_eq!(report.items[3].error.as_deref(), Some("timeout"));
    assert_eq!(report.imported_count, 1);
    assert_eq!(report.failed_count, 2);
}

#[test]
fn lock_aliases_are_listed_once_in_order_of_mention() {
    let planned = vec!["a".to_string(), "b".to_string(), "a".to_string()];
    let aliases = credential_add_lock_aliases(&planned, &vec![skipped("c", "b"), skipped("d", "e")]);
    assert_eq!(aliases, vec!["a", "b", "c", "d", "e"]);
    let mut v = vec!["x".to_string()];
    push_unique(&mut v, "x");
    push_unique(&mut v, "y");
    assert_eq!(v, vec!["x", "y"]);
}

#[test]
fn refresh_logins_need_an_email() {
    assert_eq!(refresh_login_email(Some(" a@b.c ")), Some("a@b.c".to_string()));
    assert_eq!(refresh_login_email(Some("  ")), None);
    assert_eq!(refresh_login_email(None), None);
}
