use overleaf_service::config::{
    api_capabilities_status, browser_automation_status, cleanup_step_labels, close_policy_label,
    debug_port_start, non_empty_value, service_readiness_policy_spec, task_phase_names, ui_asset,
    BrowserCleanupStep, BrowserLifecyclePolicySpec, ClosePolicy, LocalChromeSettings,
    TaskInputActionSpec,
};
use overleaf_service::routes::service_api_routes;

fn s(x: &str) -> String {
    x.to_string()
}

fn lifecycle() -> BrowserLifecyclePolicySpec {
    BrowserLifecyclePolicySpec {
        temporary_profile_prefixes: vec!["tmp-"],
        user_window_profile_prefix: "user-",
        temporary_task_close_policy: close_policy_label(ClosePolicy::AutoCloseTemp),
        user_window_close_policy: close_policy_label(ClosePolicy::KeepUserWindow),
        task_finished_temporary_steps: Vec::new(),
        task_finished_user_window_steps: Vec::new(),
        user_window_exited_steps: Vec::new(),
        profile_remove_retry_attempts: 3,
        profile_remove_retry_delay_ms: 100,
    }
}

#[test]
fn the_capabilities_describe_the_service() {
    let c = api_capabilities_status(
        vec!["generic"],
        vec!["email_code"],
        vec!["retry"],
        vec![TaskInputActionSpec { action: "submit_email_code", input_kind: "email_code" }],
        vec![ui_asset("/ui/", "text/html; charset=utf-8", "<html>")],
        lifecycle(),
    );
    assert_eq!(c.contract_version, 1);
    assert_eq!(c.service_readiness_policy.path, "/health");
    assert_eq!(c.service_api_routes.len(), 51);
    assert_eq!(c.service_api_routes[0].path, "/health");
    assert_eq!(c.service_api_routes[0].methods, &["GET"]);
    assert_eq!(c.service_api_routes[50].path, "/secrets/account");
    assert_eq!(c.service_api_routes[27].methods, &["GET", "POST"]);
    assert!(c.task_events_sse && c.task_since_cursor && c.task_summary);
    assert_eq!(c.task_replay_safety_modes, vec!["safe", "requires_confirmation"]);
    assert_eq!(c.task_phases, vec!["pending", "running", "waiting_for_user", "completed", "failed", "cancelled"]);
    assert_eq!(c.task_active_phases, vec!["pending", "running", "waiting_for_user"]);
    assert_eq!(c.task_terminal_phases, vec!["completed", "failed", "cancelled"]);
    assert_eq!(c.task_lock_policy.lock_scope, "account_alias_write");
    assert_eq!(c.task_lock_policy.conflict_status, 409);
    assert_eq!(c.task_summary_breakdowns, vec!["waiting_for_input_by_kind", "failed_by_kind", "available_actions_count"]);
    assert_eq!(c.task_result_sensitive_key_rules.len(), 13);
    assert_eq!(c.task_result_sensitive_key_rules[2].matcher, "contains");
    assert_eq!(c.task_result_sensitive_key_rules[2].value, "password");
    assert_eq!(c.task_result_sensitive_key_rules[12].value, "number_or_suffix");
    assert_eq!(c.task_list_actions, vec!["clear-terminal"]);
    assert_eq!(c.account_import_sources, vec!["json_path", "json_text", "manual_cookie"]);
    assert_eq!(c.account_switch_actions, vec!["plan", "preview-projects", "execute"]);
    assert_eq!(c.registration_trial_days, vec![21, 7]);
    assert_eq!(c.registration_card_selection_strategies, vec!["new_then_used_then_failed", "new_only"]);
    assert_eq!(c.task_failure_kinds, vec!["retryable", "needs_user_input", "needs_login", "page_changed", "fatal"]);
    assert_eq!(c.task_recoverable_failure_kinds, vec!["retryable", "needs_user_input", "needs_login", "page_changed"]);
    assert_eq!(c.task_operation_kinds, vec!["generic"]);
    assert_eq!(c.task_user_input_kinds, vec!["email_code"]);
    assert_eq!(c.task_available_actions, vec!["retry"]);
    assert_eq!(c.task_input_action_map.len(), 1);
    assert_eq!(c.embedded_ui_assets[0].methods, &["GET", "HEAD"]);
    assert_eq!(c.desktop_dialog_open_globals, vec!["window.__OVERLEAF_DESKTOP__.openDialog"]);
    assert_eq!(c.browser_lifecycle_policy.temporary_task_close_policy, "auto_close_temporary");
    assert_eq!(c.browser_lifecycle_policy.user_window_close_policy, "keep_user_window");
    assert_eq!(service_api_routes().len(), 51);
}

#[test]
fn readiness_and_phases() {
    let p = service_readiness_policy_spec();
    assert_eq!((p.path, p.method, p.success_status, p.response_field, p.expected_value), ("/health", "GET", 200, "status", "ok"));
    assert!(p.poll_before_showing_ui);
    assert_eq!(task_phase_names().len(), 6);
}

#[test]
fn cleanup_steps_have_labels() {
    let steps = vec![
        BrowserCleanupStep::SendCdpBrowserClose,
        BrowserCleanupStep::WaitForProcessExit,
        BrowserCleanupStep::KillProcessesByDebugPort,
        BrowserCleanupStep::KillProcessesByProfileDir,
        BrowserCleanupStep::WaitForUserWindowExit,
        BrowserCleanupStep::RemoveProfileDirWithRetry,
    ];
    assert_eq!(
        cleanup_step_labels(&steps),
        vec![
            s("cdp_browser_close"),
            s("wait_process_exit"),
            s("scoped_kill_by_debug_port"),
            s("scoped_kill_by_profile_dir"),
            s("wait_user_window_exit"),
            s("remove_profile_dir_with_retry"),
        ]
    );
}

#[test]
fn the_debug_port_reads_like_a_u16() {
    assert_eq!(debug_port_start(&Some(s("9300")), 9222), 9300);
    assert_eq!(debug_port_start(&Some(s("+9300")), 9222), 9300);
    assert_eq!(debug_port_start(&Some(s("65536")), 9222), 9222);
    assert_eq!(debug_port_start(&Some(s("0")), 9222), 0);
    assert_eq!(debug_port_start(&Some(s(" 9300")), 9222), 9222);
    assert_eq!(debug_port_start(&Some(s("abc")), 9222), 9222);
    assert_eq!(debug_port_start(&None, 9222), 9222);
    assert_eq!(non_empty_value(Some(s(" x "))), Some(s(" x ")));
    assert_eq!(non_empty_value(Some(s("   "))), None);
    assert_eq!(non_empty_value(None), None);
}

#[test]
fn the_browser_automation_status_names_its_backend() {
    let local = LocalChromeSettings { chrome_executable: s("/c"), tmp_dir: s("/t"), debug_port_start: 9400, exit_wait_ms: 5 };
    let st = browser_automation_status(Some(local), true, Some(s("/c")), None, Some(s("/d")), s("/x"), 9222, 3000);
    assert_eq!(st.backend, "local_chrome");
    assert!(st.configured);
    assert_eq!(st.chrome_executable.as_deref(), Some("/c"));
    assert_eq!(st.tmp_dir, "/t");
    assert_eq!(st.debug_port_start, 9400);
    assert!(st.chrome_path_env_present);
    assert_eq!(st.unavailable_reason, None);
    let st = browser_automation_status(None, true, None, Some(s("9500")), None, s("/x"), 9222, 3000);
    assert_eq!(st.backend, "injected");
    assert_eq!(st.debug_port_start, 9500);
    assert_eq!(st.exit_wait_ms, 3000);
    assert_eq!(st.chrome_executable, None);
    let st = browser_automation_status(None, false, Some(s("/missing")), None, None, s("/x"), 9222, 3000);
    assert_eq!(st.backend, "none");
    assert!(!st.configured);
    assert_eq!(st.chrome_executable.as_deref(), Some("/missing"));
    assert_eq!(st.unavailable_reason, Some("configured_chrome_path_not_found"));
    let st = browser_automation_status(None, false, None, None, None, s("/x"), 9222, 3000);
    assert_eq!(st.unavailable_reason, Some("chrome_executable_not_found"));
    assert_eq!(st.tmp_dir, "/x");
}
