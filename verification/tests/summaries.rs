use overleaf_service::task_summary::{task_summary, NameCount, TaskSnapshotView};
use overleaf_service::tasks::{ServiceTaskPhase, TaskFailureKind};

fn task(phase: ServiceTaskPhase, seq: u64) -> TaskSnapshotView {
    TaskSnapshotView {
        phase,
        cancel_requested: false,
        last_sequence: seq,
        waiting_item_kinds: Vec::new(),
        waiting_for_input: None,
        available_actions: Vec::new(),
        retry_available: false,
        resolved: false,
        failure_kind: None,
        locked_aliases: Vec::new(),
    }
}

fn pairs(v: &[NameCount]) -> Vec<(String, usize)> {
    v.iter().map(|c| (c.name.clone(), c.count)).collect()
}

#[test]
fn the_summary_counts_phases_inputs_failures_and_locks() {
    let mut pending = task(ServiceTaskPhase::Pending, 3);
    pending.locked_aliases = vec!["a".to_string(), "b".to_string()];
    pending.available_actions = vec!["cancel".to_string()];
    let mut waiting = task(ServiceTaskPhase::WaitingForUser, 9);
    waiting.waiting_for_input = Some("email_code".to_string());
    waiting.waiting_item_kinds = vec!["captcha_completed".to_string()];
    waiting.locked_aliases = vec!["b".to_string(), "c".to_string()];
    waiting.available_actions = vec!["submit_input".to_string(), "cancel".to_string()];
    waiting.cancel_requested = true;
    let bare_wait = task(ServiceTaskPhase::WaitingForUser, 1);
    let mut failed = task(ServiceTaskPhase::Failed, 5);
    failed.failure_kind = Some(TaskFailureKind::NeedsLogin);
    failed.available_actions = vec!["retry".to_string()];
    failed.retry_available = true;
    failed.locked_aliases = vec!["z".to_string()];
    let mut resolved = task(ServiceTaskPhase::Failed, 4);
    resolved.failure_kind = Some(TaskFailureKind::Fatal);
    resolved.resolved = true;
    let done = task(ServiceTaskPhase::Completed, 2);
    let cancelled = task(ServiceTaskPhase::Cancelled, 7);
    let running = task(ServiceTaskPhase::Running, 8);

    let s = task_summary(&vec![pending, waiting, bare_wait, failed, resolved, done, cancelled, running]);
    assert_eq!(s.total_count, 8);
    assert_eq!(s.pending_count, 1);
    assert_eq!(s.running_count, 1);
    assert_eq!(s.waiting_for_user_count, 2);
    assert_eq!(s.completed_count, 1);
    assert_eq!(s.failed_count, 1);
    assert_eq!(s.cancelled_count, 1);
    assert_eq!(s.active_count, 4);
    assert_eq!(s.terminal_count, 4);
    assert_eq!(s.clearable_count, 4);
    assert_eq!(s.cancel_requested_count, 1);
    assert_eq!(s.waiting_for_input_count, 2);
    assert_eq!(s.unsupported_waiting_input_count, 1);
    assert_eq!(s.recoverable_failed_count, 1);
    assert_eq!(s.locked_alias_count, 3);
    assert_eq!(s.latest_sequence, 9);
    assert_eq!(
        pairs(&s.waiting_for_input_by_kind),
        vec![("captcha_completed".to_string(), 1), ("email_code".to_string(), 1)]
    );
    assert_eq!(pairs(&s.failed_by_kind), vec![("needs_login".to_string(), 1)]);
    assert_eq!(
        pairs(&s.available_actions_count),
        vec![("cancel".to_string(), 2), ("retry".to_string(), 1), ("submit_input".to_string(), 1)]
    );
}

#[test]
fn an_empty_list_summarizes_to_zero() {
    let s = task_summary(&Vec::new());
    assert_eq!(s.total_count, 0);
    assert_eq!(s.latest_sequence, 0);
    assert!(s.waiting_for_input_by_kind.is_empty());
    assert_eq!(s.locked_alias_count, 0);
}
