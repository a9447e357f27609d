use overleaf_service::account_switch::migration_progress_applies;
use overleaf_service::projects::{remote_cleanup_end, RemoteCleanupEnd};
use overleaf_service::skills::{
    switch_finish, switch_finish_plan, SkillAgent, SkillSyncItem, SkillSyncReport,
};
use overleaf_service::tasks::ServiceTaskPhase;
use overleaf_service::errors::{AccountActionError, AccountSecretStoreError};
use overleaf_service::password_plans::{
    check_new_passwords, require_refresh_aliases, SavedPasswordLookup, SavedPasswordPlanner,
};
use overleaf_service::remote_cleanup::{
    CleanupPreviewCounts, CleanupThenRemoveOutcome, RemoteCleanupPreviewBatch,
    RemoteCleanupRemovalBatch, RemoteCleanupRemovalStatus,
};

#[test]
fn a_switch_completes_whatever_the_skills_sync_gave() {
    let report = SkillSyncReport {
        failed_count: 1,
        items: vec![
            SkillSyncItem { agent: Some(SkillAgent::codex), success: true, message: "codex skills 账号已同步".to_string() },
            SkillSyncItem { agent: None, success: false, message: "未同步".to_string() },
        ],
    };
    let plan = switch_finish_plan(Some("b@example.com".to_string()), Some(true));
    assert!(plan.sync_skills);
    let done = switch_finish(plan, Some(report));
    assert_eq!(done.message, "无感换号执行完成");
    assert_eq!(done.browser_account_email, Some("b@example.com".to_string()));
    assert_eq!(done.skills_sync.as_ref().map(|r| r.failed_count), Some(1));
    assert_eq!(done.logs.len(), 2);
    assert!(!done.logs[0].warning);
    assert_eq!(done.logs[0].text, "codex skills 账号已同步");
    assert!(done.logs[1].warning);
    assert_eq!(done.logs[1].text, "未同步");
    for retry in [None, Some(false)] {
        let plan = switch_finish_plan(None, retry);
        assert!(!plan.sync_skills);
        let done = switch_finish(plan, None);
        assert!(done.logs.is_empty());
        assert!(done.skills_sync.is_none());
        assert_eq!(done.browser_account_email, None);
        assert_eq!(done.message, "无感换号执行完成");
    }
}

#[test]
fn remote_cleanups_end_by_their_counts() {
    assert_eq!(remote_cleanup_end(true, Some(3), None), RemoteCleanupEnd::Cancel("远端项目处理已取消，已完成的操作保留"));
    assert_eq!(remote_cleanup_end(false, Some(1), Some(0)), RemoteCleanupEnd::Fail("远端项目处理未完全完成"));
    assert_eq!(remote_cleanup_end(false, None, Some(2)), RemoteCleanupEnd::Fail("远端项目处理未完全完成"));
    assert_eq!(remote_cleanup_end(false, Some(0), None), RemoteCleanupEnd::Complete("远端项目处理完成"));
    assert_eq!(remote_cleanup_end(false, None, None), RemoteCleanupEnd::Complete("远端项目处理完成"));
}

#[test]
fn migration_progress_is_kept_only_for_live_tasks() {
    assert!(migration_progress_applies(Some(ServiceTaskPhase::Running)));
    assert!(migration_progress_applies(Some(ServiceTaskPhase::WaitingForUser)));
    assert!(!migration_progress_applies(Some(ServiceTaskPhase::Completed)));
    assert!(!migration_progress_applies(Some(ServiceTaskPhase::Cancelled)));
    assert!(!migration_progress_applies(None));
}

#[test]
fn saved_password_refreshes_plan_each_alias_once() {
    assert!(require_refresh_aliases(1).is_ok());
    let e = require_refresh_aliases(0).err().unwrap();
    assert_eq!(e.status_code, 400);
    assert!(e.body.contains("empty value: 账号别名"));

    let mut planner = SavedPasswordPlanner::new();
    assert!(planner
        .add("a".to_string(), SavedPasswordLookup::Found { email: Some("a@x".to_string()), password: Ok("pw".to_string()) })
        .is_ok());
    let missing = AccountSecretStoreError::Missing { alias: "b".to_string(), category: "password".to_string() };
    assert!(planner.add("b".to_string(), SavedPasswordLookup::Found { email: None, password: Err(missing) }).is_ok());
    assert_eq!(planner.plans.len(), 2);
    assert_eq!(planner.plans[0].password, "pw");
    assert_eq!(planner.plans[1].password, "");
    let dup = planner.add("a".to_string(), SavedPasswordLookup::NoRecord).err().unwrap();
    assert_eq!(dup.status_code, 400);
    assert!(dup.body.contains("account alias repeated in input: a"));
    let unknown = planner.add("z".to_string(), SavedPasswordLookup::NoRecord).err().unwrap();
    assert_eq!(unknown.status_code, 404);
    let failed = AccountSecretStoreError::ReadFailed { alias: "c".to_string(), category: "password".to_string() };
    let bad = planner.add("c".to_string(), SavedPasswordLookup::Found { email: None, password: Err(failed) }).err().unwrap();
    assert_eq!(bad.status_code, 500);
    assert_eq!(planner.plans.len(), 2);
}

#[test]
fn the_first_short_password_refuses_them_all() {
    assert!(check_new_passwords(&vec![None, None]).is_ok());
    assert!(matches!(
        check_new_passwords(&vec![None, Some(8), Some(12)]),
        Err(AccountActionError::PasswordTooShort { minimum: 8 })
    ));
}

#[test]
fn cleanup_previews_add_up_their_accounts() {
    let mut batch = RemoteCleanupPreviewBatch::new();
    batch.record("a".to_string(), Ok(CleanupPreviewCounts { total_projects: 5, delete_count: 3, leave_count: 2 }));
    batch.record("b".to_string(), Err("no cookie".to_string()));
    batch.record("c".to_string(), Ok(CleanupPreviewCounts { total_projects: 1, delete_count: 0, leave_count: 1 }));
    assert_eq!(batch.previewed_count, 2);
    assert_eq!(batch.failed_count, 1);
    assert_eq!(batch.total_projects, 6);
    assert_eq!(batch.delete_count, 3);
    assert_eq!(batch.leave_count, 3);
    assert_eq!(batch.items[1].error.as_deref(), Some("no cookie"));
}

#[test]
fn cleanup_removals_count_each_account_once() {
    let mut batch = RemoteCleanupRemovalBatch::new();
    batch.record("a".to_string(), Ok(CleanupThenRemoveOutcome::RemovedLocally { removed_count: None }));
    batch.record("b".to_string(), Ok(CleanupThenRemoveOutcome::RemovedLocally { removed_count: Some(2) }));
    batch.record("c".to_string(), Ok(CleanupThenRemoveOutcome::RemoteCleanupIncomplete));
    batch.record("d".to_string(), Err("boom".to_string()));
    assert_eq!(batch.removed_count, 3);
    assert_eq!(batch.incomplete_count, 1);
    assert_eq!(batch.failed_count, 1);
    assert_eq!(batch.items[3].status, RemoteCleanupRemovalStatus::Failed);
    assert_eq!(batch.items[2].removed, 0);
}
