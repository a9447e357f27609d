use overleaf_service::task_api::{
    account_browser_session_missing_response, cancel_follow_up, cancel_follow_up_messages,
    cancel_precheck, registration_session_missing_response, task_input_route,
    unsupported_item_kind_response, CancelFollowUp, CancelPrecheck, CancelledBrowserSessionKind,
    TaskInputRoute, TaskPhaseView,
};
use overleaf_service::tasks::{ServiceTaskPhase, TaskUserInputKind};

#[test]
fn cancel_requests_are_checked_first() {
    assert!(matches!(cancel_precheck("   ", None), CancelPrecheck::MissingTaskId));
    let cancelling = TaskPhaseView { phase: ServiceTaskPhase::Running, cancel_requested: true };
    assert!(matches!(cancel_precheck(" t1 ", Some(cancelling)), CancelPrecheck::AlreadyCancelling));
    let finished = TaskPhaseView { phase: ServiceTaskPhase::Cancelled, cancel_requested: true };
    assert!(matches!(cancel_precheck(" t1 ", Some(finished)), CancelPrecheck::RequestCancel(ref id) if id == "t1"));
    assert!(matches!(cancel_precheck("t2", None), CancelPrecheck::RequestCancel(ref id) if id == "t2"));
}

#[test]
fn cancel_follow_ups_prefer_live_sessions() {
    assert_eq!(
        cancel_follow_up(true, true, true, ServiceTaskPhase::WaitingForUser),
        CancelFollowUp::CleanupSession(CancelledBrowserSessionKind::Registration)
    );
    assert_eq!(
        cancel_follow_up(false, true, true, ServiceTaskPhase::WaitingForUser),
        CancelFollowUp::CleanupSession(CancelledBrowserSessionKind::AccountBrowser)
    );
    assert_eq!(cancel_follow_up(false, false, true, ServiceTaskPhase::WaitingForUser), CancelFollowUp::WaitForBrowserBatch);
    assert_eq!(cancel_follow_up(false, false, false, ServiceTaskPhase::WaitingForUser), CancelFollowUp::CancelWaiting);
    assert_eq!(cancel_follow_up(false, false, false, ServiceTaskPhase::Running), CancelFollowUp::LogCancelRequested);
    assert_eq!(
        cancel_follow_up_messages(CancelFollowUp::WaitForBrowserBatch),
        (Some("浏览器批次已收到取消请求，等待各账号会话完成清理"), None)
    );
    assert_eq!(
        cancel_follow_up_messages(CancelFollowUp::CancelWaiting),
        (Some("Waiting task cancelled after user request"), Some("Task cancelled while waiting for user input"))
    );
    assert_eq!(cancel_follow_up_messages(CancelFollowUp::LogCancelRequested), (Some("Cancel requested"), None));
    assert_eq!(
        cancel_follow_up_messages(CancelFollowUp::CleanupSession(CancelledBrowserSessionKind::Registration)),
        (None, None)
    );
    let k = CancelledBrowserSessionKind::AccountBrowser;
    assert_eq!(k.job_name(), "account-browser-session-cancel-cleanup");
    assert_eq!(k.queued_message(), "账号浏览器会话正在清理");
    let k = CancelledBrowserSessionKind::Registration;
    assert_eq!(k.job_name(), "registration-session-cancel-cleanup");
    assert_eq!(k.queued_message(), "注册浏览器会话正在清理");
    assert_eq!(k.cleaned_log_message(), "Registration browser session cleaned after cancel request");
    assert_eq!(k.cancelled_message(), "Registration cancelled and browser session cleaned");
}

#[test]
fn inputs_are_routed_by_kind_and_sessions() {
    assert!(matches!(task_input_route(" ", TaskUserInputKind::EmailCode, None, true, true), TaskInputRoute::MissingTaskId));
    assert!(matches!(
        task_input_route(" t ", TaskUserInputKind::CaptchaCompleted, Some(" i1 "), false, false),
        TaskInputRoute::ItemInput { ref task_id, ref item_id } if task_id == "t" && item_id == "i1"
    ));
    assert!(matches!(task_input_route("t", TaskUserInputKind::EmailCode, Some("i1"), true, true), TaskInputRoute::UnsupportedItemKind));
    assert!(matches!(
        task_input_route("t", TaskUserInputKind::NewRegistrationCredentials, Some("  "), false, true),
        TaskInputRoute::RegistrationSessionMissing { ref task_id } if task_id == "t"
    ));
    assert!(matches!(task_input_route("t", TaskUserInputKind::CaptchaCompleted, None, false, true), TaskInputRoute::Submit { .. }));
    assert!(matches!(
        task_input_route("t", TaskUserInputKind::CaptchaCompleted, None, false, false),
        TaskInputRoute::RegistrationSessionMissing { .. }
    ));
    assert!(matches!(
        task_input_route("t", TaskUserInputKind::NewBrowserCredentials, None, true, false),
        TaskInputRoute::AccountBrowserSessionMissing { ref task_id } if task_id == "t"
    ));
    assert!(matches!(task_input_route("t", TaskUserInputKind::EmailCode, None, false, false), TaskInputRoute::Submit { ref task_id } if task_id == "t"));
    let r = unsupported_item_kind_response();
    assert_eq!(r.status_code, 400);
    assert_eq!(r.body, "{\"error\":\"unsupported batch item input kind\"}");
    let r = registration_session_missing_response("t");
    assert_eq!(r.status_code, 409);
    assert_eq!(r.body, "{\"error\":\"no active registration browser session for task: t\"}");
    let r = account_browser_session_missing_response("t");
    assert_eq!(r.status_code, 409);
    assert_eq!(r.body, "{\"error\":\"no active account browser session for task: t\"}");
}
