use overleaf_service::errors_store::TaskStateError;
use overleaf_service::routes::ApiRoute;
use overleaf_service::task_api::{
    check_retry_source, invalid_retry_descriptor_response, retry_request, retry_source_id,
    retry_task_exists_response, single_retry_alias, RetryDescriptor, RetrySourceView,
};
use overleaf_service::tasks::{ServiceTaskPhase, TaskOperationKind, TaskReplaySafety};

fn s(x: &str) -> String {
    x.to_string()
}

fn descriptor(kind: TaskOperationKind, aliases: &[&str]) -> RetryDescriptor {
    RetryDescriptor {
        operation_kind: kind,
        replay_safety: TaskReplaySafety::Safe,
        aliases: aliases.iter().map(|a| a.to_string()).collect(),
        migrate_projects: None,
        sync_skills: None,
    }
}

#[test]
fn only_open_failures_with_a_descriptor_are_retried() {
    assert_eq!(retry_source_id(" t1 ").ok().unwrap(), "t1");
    assert_eq!(retry_source_id("  ").err().unwrap().body, "{\"error\":\"missing task_id\"}");
    let missing = check_retry_source(Err(TaskStateError::TaskNotFound { task_id: s("t") }), false);
    assert_eq!(missing.err().unwrap().status_code, 404);
    let running = RetrySourceView { phase: ServiceTaskPhase::Running, resolved: false, descriptor: None };
    assert_eq!(
        check_retry_source(Ok(running), true).err().unwrap().body,
        "{\"error\":\"only failed tasks can be retried\"}"
    );
    let resolved = RetrySourceView {
        phase: ServiceTaskPhase::Failed,
        resolved: true,
        descriptor: Some(descriptor(TaskOperationKind::BrowserLogin, &["a"])),
    };
    assert_eq!(check_retry_source(Ok(resolved), true).err().unwrap().status_code, 400);
    let bare = RetrySourceView { phase: ServiceTaskPhase::Failed, resolved: false, descriptor: None };
    assert_eq!(
        check_retry_source(Ok(bare), true).err().unwrap().body,
        "{\"error\":\"task has no retry descriptor\"}"
    );
    let mut guarded = descriptor(TaskOperationKind::AccountSwitchExecute, &["a"]);
    guarded.replay_safety = TaskReplaySafety::RequiresConfirmation;
    let unconfirmed = RetrySourceView { phase: ServiceTaskPhase::Failed, resolved: false, descriptor: Some(guarded) };
    assert_eq!(
        check_retry_source(Ok(unconfirmed), false).err().unwrap().body,
        "{\"error\":\"retry requires confirm_replay=true\"}"
    );
    let mut guarded = descriptor(TaskOperationKind::AccountSwitchExecute, &["a"]);
    guarded.replay_safety = TaskReplaySafety::RequiresConfirmation;
    let confirmed = RetrySourceView { phase: ServiceTaskPhase::Failed, resolved: false, descriptor: Some(guarded) };
    let d = check_retry_source(Ok(confirmed), true).ok().unwrap();
    assert_eq!(d.operation_kind, TaskOperationKind::AccountSwitchExecute);
    assert_eq!(retry_task_exists_response().status_code, 409);
}

#[test]
fn retries_replay_the_request_under_the_new_task() {
    let (route, body) = retry_request(&descriptor(TaskOperationKind::BrowserCurrentAccount, &[]), "r1").ok().unwrap();
    assert_eq!(route, ApiRoute::DetectBrowserCurrentAccount);
    assert_eq!(body, "{\"task_id\":\"r1\"}");
    let (route, body) = retry_request(&descriptor(TaskOperationKind::AccountGitTokenRefresh, &["a", "b"]), "r1").ok().unwrap();
    assert_eq!(route, ApiRoute::RefreshGitToken);
    assert_eq!(body, "{\"aliases\":\"a,b\",\"task_id\":\"r1\"}");
    let (route, _) = retry_request(&descriptor(TaskOperationKind::AccountGitTokenGenerate, &["a"]), "r1").ok().unwrap();
    assert_eq!(route, ApiRoute::GenerateGitToken);
    let (route, _) = retry_request(&descriptor(TaskOperationKind::BrowserLogin, &["a"]), "r1").ok().unwrap();
    assert_eq!(route, ApiRoute::BrowserAutoLogin);
    let (route, _) = retry_request(&descriptor(TaskOperationKind::RemoteProjectCleanupPreview, &["a"]), "r1").ok().unwrap();
    assert_eq!(route, ApiRoute::PreviewRemoteCleanup);
    let (route, body) = retry_request(&descriptor(TaskOperationKind::AccountSwitchProjectPreview, &["a"]), "r1").ok().unwrap();
    assert_eq!(route, ApiRoute::PreviewAccountSwitchProjects);
    assert_eq!(body, "{\"alias\":\"a\",\"task_id\":\"r1\"}");
    let mut plan = descriptor(TaskOperationKind::AccountSwitchPlan, &["a"]);
    plan.migrate_projects = Some(true);
    let (route, body) = retry_request(&plan, "r1").ok().unwrap();
    assert_eq!(route, ApiRoute::PlanAccountSwitch);
    assert_eq!(body, "{\"alias\":\"a\",\"migrate_projects\":true,\"task_id\":\"r1\"}");
    let mut exec = descriptor(TaskOperationKind::AccountSwitchExecute, &["a"]);
    exec.sync_skills = Some(true);
    let (route, body) = retry_request(&exec, "r\"1").ok().unwrap();
    assert_eq!(route, ApiRoute::ExecuteAccountSwitch);
    assert_eq!(body, "{\"alias\":\"a\",\"migrate_projects\":false,\"sync_skills\":true,\"task_id\":\"r\\\"1\"}");
    let two = retry_request(&descriptor(TaskOperationKind::AccountSwitchPlan, &["a", "b"]), "r1");
    assert_eq!(two.err().unwrap().body, "{\"error\":\"unsupported retry operation: AccountSwitchPlan\"}");
    let other = retry_request(&descriptor(TaskOperationKind::AccountImport, &["a"]), "r1");
    assert_eq!(other.err().unwrap().body, "{\"error\":\"unsupported retry operation: AccountImport\"}");
    assert_eq!(
        invalid_retry_descriptor_response(TaskOperationKind::Generic).body,
        "{\"error\":\"unsupported retry operation: Generic\"}"
    );
    assert_eq!(single_retry_alias(&vec![s("a")]), Some("a"));
    assert_eq!(single_retry_alias(&vec![s(" ")]), None);
    assert_eq!(single_retry_alias(&vec![s("a"), s("b")]), None);
}
