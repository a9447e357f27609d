//! What the service tells its clients about itself: the readiness check,
//! the routes and task vocabulary, the cleanup and export policies, and the
//! status of the browser automation and the local storage.

use vstd::prelude::*;
use crate::routes::{route_table, route_view, service_api_routes, ServiceApiRouteSpec, HEALTH_PATH};
use crate::task_api::{parse_u64, parse_u64_text};
use crate::text::{is_empty_text, owned, starts_with, trim, trimmed};

verus! {

/// How a client learns that the service is up.
pub struct ServiceReadinessPolicySpec {
    pub path: &'static str,
    pub method: &'static str,
    pub success_status: u16,
    pub response_field: &'static str,
    pub expected_value: &'static str,
    pub poll_before_showing_ui: bool,
}

/// A file of the web interface that the service serves.
pub struct EmbeddedUiAssetSpec {
    pub path: &'static str,
    pub methods: &'static [&'static str],
    pub content_type: &'static str,
    pub body: &'static str,
}

/// How the service treats the browsers it starts.
pub struct BrowserLifecyclePolicySpec {
    pub temporary_profile_prefixes: Vec<&'static str>,
    pub user_window_profile_prefix: &'static str,
    pub temporary_task_close_policy: &'static str,
    pub user_window_close_policy: &'static str,
    pub task_finished_temporary_steps: Vec<String>,
    pub task_finished_user_window_steps: Vec<String>,
    pub user_window_exited_steps: Vec<String>,
    pub profile_remove_retry_attempts: u32,
    pub profile_remove_retry_delay_ms: u64,
}

/// An action on a task and the input it answers.
pub struct TaskInputActionSpec {
    pub action: &'static str,
    pub input_kind: &'static str,
}

/// A rule that marks a task result key as sensitive.
pub struct TaskResultSensitiveKeyRuleSpec {
    pub matcher: &'static str,
    pub value: &'static str,
}

/// How tasks lock account aliases.
pub struct TaskLockPolicySpec {
    pub lock_scope: &'static str,
    pub snapshot_field: &'static str,
    pub summary_field: &'static str,
    pub conflict_status: u16,
    pub duplicate_aliases_deduped: bool,
    pub release_on_terminal: bool,
    pub release_on_clear_terminal: bool,
}

/// What the local storage holds.
pub struct RuntimeStorageStatus {
    pub data_dir_exists: bool,
    pub tmp_dir_exists: bool,
    pub export_dir_exists: bool,
    pub export_file_count: usize,
    pub export_total_bytes: u64,
    pub accounts_file_bytes: Option<u64>,
    pub cards_file_bytes: Option<u64>,
    pub addresses_file_bytes: Option<u64>,
    pub owned_temp_profile_count: usize,
    pub owned_temp_profile_bytes: u64,
    pub user_window_profile_count: usize,
    pub user_window_profile_bytes: u64,
}

/// How the browser automation is set up.
pub struct BrowserAutomationStatus {
    pub configured: bool,
    pub backend: &'static str,
    pub chrome_executable: Option<String>,
    pub detected_chrome_executable: Option<String>,
    pub tmp_dir: String,
    pub debug_port_start: u16,
    pub exit_wait_ms: u64,
    pub chrome_path_env_present: bool,
    pub cdp_port_start_env: Option<String>,
    pub unavailable_reason: Option<&'static str>,
}

/// Everything the service can do, for its clients.
pub struct ApiCapabilityStatus {
    pub contract_version: u32,
    pub service_readiness_policy: ServiceReadinessPolicySpec,
    pub service_api_routes: Vec<ServiceApiRouteSpec>,
    pub task_events_sse: bool,
    pub task_since_cursor: bool,
    pub task_summary: bool,
    pub explicit_task_waiting_input: bool,
    pub task_retry_descriptor: bool,
    pub task_retry_endpoint: bool,
    pub task_replay_safety_modes: Vec<&'static str>,
    pub task_phases: Vec<&'static str>,
    pub task_active_phases: Vec<&'static str>,
    pub task_terminal_phases: Vec<&'static str>,
    pub task_lock_policy: TaskLockPolicySpec,
    pub task_summary_breakdowns: Vec<&'static str>,
    pub task_result_sections: Vec<&'static str>,
    pub task_result_summary_sources: Vec<&'static str>,
    pub task_result_sensitive_key_rules: Vec<TaskResultSensitiveKeyRuleSpec>,
    pub task_result_sensitive_value_markers: Vec<&'static str>,
    pub task_list_actions: Vec<&'static str>,
    pub runtime_diagnostics: Vec<&'static str>,
    pub runtime_cleanup_actions: Vec<&'static str>,
    pub runtime_cleanup_policy: Vec<&'static str>,
    pub development_cache_policy: Vec<&'static str>,
    pub embedded_ui_assets: Vec<EmbeddedUiAssetSpec>,
    pub browser_lifecycle_policy: BrowserLifecyclePolicySpec,
    pub desktop_dialog_open_globals: Vec<&'static str>,
    pub desktop_dialog_save_globals: Vec<&'static str>,
    pub desktop_file_write_globals: Vec<&'static str>,
    pub desktop_clipboard_write_globals: Vec<&'static str>,
    pub secret_storage_actions: Vec<&'static str>,
    pub browser_profile_actions: Vec<&'static str>,
    pub account_import_sources: Vec<&'static str>,
    pub account_import_post_actions: Vec<&'static str>,
    pub account_export_modes: Vec<&'static str>,
    pub account_export_layout_modes: Vec<&'static str>,
    pub account_export_safety: Vec<&'static str>,
    pub account_row_actions: Vec<&'static str>,
    pub account_bulk_actions: Vec<&'static str>,
    pub account_switch_actions: Vec<&'static str>,
    pub account_removal_actions: Vec<&'static str>,
    pub account_credential_actions: Vec<&'static str>,
    pub account_password_actions: Vec<&'static str>,
    pub account_secret_actions: Vec<&'static str>,
    pub card_collection_actions: Vec<&'static str>,
    pub card_mutation_actions: Vec<&'static str>,
    pub address_collection_actions: Vec<&'static str>,
    pub address_selection_actions: Vec<&'static str>,
    pub registration_actions: Vec<&'static str>,
    pub registration_trial_days: Vec<u32>,
    pub registration_card_selection_strategies: Vec<&'static str>,
    pub task_operation_kinds: Vec<&'static str>,
    pub task_failure_kinds: Vec<&'static str>,
    pub task_recoverable_failure_kinds: Vec<&'static str>,
    pub task_user_input_kinds: Vec<&'static str>,
    pub task_available_actions: Vec<&'static str>,
    pub task_input_action_map: Vec<TaskInputActionSpec>,
}

/// The texts of a list of static strings.
pub open spec fn texts(v: Seq<&'static str>) -> Seq<Seq<char>> {
    v.map_values(|s: &'static str| s@)
}

/// A list of static strings.
fn str_list(items: &[&'static str]) -> (r: Vec<&'static str>)
    ensures
        r@ == items@,
{
    let mut v: Vec<&'static str> = Vec::new();
    let mut i: usize = 0;
    while i < items.len()
        invariant
            i <= items@.len(),
            v@ == items@.subrange(0, i as int),
        decreases items.len() - i,
    {
        v.push(items[i]);
        i = i + 1;
        assert(v@ =~= items@.subrange(0, i as int));
    }
    assert(items@.subrange(0, items@.len() as int) =~= items@);
    v
}

pub open spec fn is_readiness_policy(p: ServiceReadinessPolicySpec) -> bool {
    &&& p.path@ == HEALTH_PATH@
    &&& p.method@ == "GET"@
    &&& p.success_status == 200
    &&& p.response_field@ == "status"@
    &&& p.expected_value@ == "ok"@
    &&& p.poll_before_showing_ui
}

/// The readiness check: `GET /health` answers 200 with `status` `ok`, and
/// clients poll it before they show the interface.
pub fn service_readiness_policy_spec() -> (r: ServiceReadinessPolicySpec)
    ensures
        is_readiness_policy(r),
{
    ServiceReadinessPolicySpec {
        path: HEALTH_PATH,
        method: "GET",
        success_status: 200,
        response_field: "status",
        expected_value: "ok",
        poll_before_showing_ui: true,
    }
}

/// A file of the web interface, served to `GET` and `HEAD`.
pub fn ui_asset(path: &'static str, content_type: &'static str, body: &'static str) -> (r: EmbeddedUiAssetSpec)
    ensures
        r.path == path,
        r.content_type == content_type,
        r.body == body,
        texts(r.methods@) == seq!["GET"@, "HEAD"@],
{
    let r = EmbeddedUiAssetSpec { path, methods: &["GET", "HEAD"], content_type, body };
    assert(texts(r.methods@) =~= seq!["GET"@, "HEAD"@]);
    r
}

/// The names of the task phases, in order.
pub open spec fn task_phase_texts() -> Seq<Seq<char>> {
    seq!["pending"@, "running"@, "waiting_for_user"@, "completed"@, "failed"@, "cancelled"@]
}

pub fn task_phase_names() -> (r: Vec<&'static str>)
    ensures
        texts(r@) == task_phase_texts(),
{
    let r = str_list(&["pending", "running", "waiting_for_user", "completed", "failed", "cancelled"]);
    assert(texts(r@) =~= task_phase_texts());
    r
}

/// The rules that mark a task result key as sensitive, in order.
pub open spec fn sensitive_key_rule_texts() -> Seq<(Seq<char>, Seq<char>)> {
    seq![("equals"@, "cookie"@), ("ends_with"@, "_cookie"@), ("contains"@, "password"@), ("equals"@, "session"@), ("ends_with"@, "_session"@), ("equals"@, "secret"@), ("ends_with"@, "_secret"@), ("equals"@, "token"@), ("ends_with"@, "_token"@), ("equals"@, "cvc"@), ("equals"@, "number"@), ("equals"@, "card_number"@), ("equals"@, "number_or_suffix"@)]
}

pub open spec fn rule_views(v: Seq<TaskResultSensitiveKeyRuleSpec>) -> Seq<(Seq<char>, Seq<char>)> {
    v.map_values(|r: TaskResultSensitiveKeyRuleSpec| (r.matcher@, r.value@))
}

fn sensitive_key_rules() -> (r: Vec<TaskResultSensitiveKeyRuleSpec>)
    ensures
        rule_views(r@) == sensitive_key_rule_texts(),
{
    let mut v: Vec<TaskResultSensitiveKeyRuleSpec> = Vec::new();
    v.push(TaskResultSensitiveKeyRuleSpec { matcher: "equals", value: "cookie" });
    v.push(TaskResultSensitiveKeyRuleSpec { matcher: "ends_with", value: "_cookie" });
    v.push(TaskResultSensitiveKeyRuleSpec { matcher: "contains", value: "password" });
    v.push(TaskResultSensitiveKeyRuleSpec { matcher: "equals", value: "session" });
    v.push(TaskResultSensitiveKeyRuleSpec { matcher: "ends_with", value: "_session" });
    v.push(TaskResultSensitiveKeyRuleSpec { matcher: "equals", value: "secret" });
    v.push(TaskResultSensitiveKeyRuleSpec { matcher: "ends_with", value: "_secret" });
    v.push(TaskResultSensitiveKeyRuleSpec { matcher: "equals", value: "token" });
    v.push(TaskResultSensitiveKeyRuleSpec { matcher: "ends_with", value: "_token" });
    v.push(TaskResultSensitiveKeyRuleSpec { matcher: "equals", value: "cvc" });
    v.push(TaskResultSensitiveKeyRuleSpec { matcher: "equals", value: "number" });
    v.push(TaskResultSensitiveKeyRuleSpec { matcher: "equals", value: "card_number" });
    v.push(TaskResultSensitiveKeyRuleSpec { matcher: "equals", value: "number_or_suffix" });
    assert(rule_views(v@) =~= sensitive_key_rule_texts());
    v
}

/// The capability lists that are fixed, by field.
pub open spec fn task_replay_safety_modes_texts() -> Seq<Seq<char>> {
    seq!["safe"@, "requires_confirmation"@]
}

pub open spec fn task_active_phases_texts() -> Seq<Seq<char>> {
    seq!["pending"@, "running"@, "waiting_for_user"@]
}

pub open spec fn task_terminal_phases_texts() -> Seq<Seq<char>> {
    seq!["completed"@, "failed"@, "cancelled"@]
}

pub open spec fn task_summary_breakdowns_texts() -> Seq<Seq<char>> {
    seq!["waiting_for_input_by_kind"@, "failed_by_kind"@, "available_actions_count"@]
}

pub open spec fn task_result_sections_texts() -> Seq<Seq<char>> {
    seq!["summary_chips"@, "import_decisions"@, "project_migration"@, "top_level_items"@, "nested_items"@, "post_action_errors"@]
}

pub open spec fn task_result_summary_sources_texts() -> Seq<Seq<char>> {
    seq!["root"@, "import"@, "session_refresh"@, "git_token_generation"@, "project_migration"@]
}

pub open spec fn task_result_sensitive_value_markers_texts() -> Seq<Seq<char>> {
    seq!["git_token_prefix"@, "overleaf_session_cookie_assignment"@, "encoded_overleaf_session_prefix"@, "raw_overleaf_session_prefix"@]
}

pub open spec fn task_list_actions_texts() -> Seq<Seq<char>> {
    seq!["clear-terminal"@]
}

pub open spec fn runtime_diagnostics_texts() -> Seq<Seq<char>> {
    seq!["browser_profiles"@, "runtime_artifacts"@, "runtime_temp_profiles"@]
}

pub open spec fn runtime_cleanup_actions_texts() -> Seq<Seq<char>> {
    seq!["runtime_artifacts_cleanup"@, "runtime_temp_profiles_cleanup"@]
}

pub open spec fn runtime_cleanup_policy_texts() -> Seq<Seq<char>> {
    seq!["requires_explicit_confirmation"@, "workspace_artifacts_only"@, "protect_data_backups_and_git"@, "owned_temp_profiles_only"@, "skip_user_window_profiles"@]
}

pub open spec fn development_cache_policy_texts() -> Seq<Seq<char>> {
    seq!["preserve_reusable_docker_and_cargo_cache_during_active_iteration"@, "use_space_reports_and_warning_thresholds_for_routine_monitoring"@, "deep_cache_cleanup_only_for_final_delivery_cache_bloat_low_space_or_explicit_request"@]
}

pub open spec fn desktop_dialog_open_globals_texts() -> Seq<Seq<char>> {
    seq!["window.__OVERLEAF_DESKTOP__.openDialog"@]
}

pub open spec fn desktop_dialog_save_globals_texts() -> Seq<Seq<char>> {
    seq!["window.__OVERLEAF_DESKTOP__.saveDialog"@]
}

pub open spec fn desktop_file_write_globals_texts() -> Seq<Seq<char>> {
    seq!["window.__OVERLEAF_DESKTOP__.writeTextFile"@]
}

pub open spec fn desktop_clipboard_write_globals_texts() -> Seq<Seq<char>> {
    seq!["window.__OVERLEAF_DESKTOP__.writeClipboardText"@]
}

pub open spec fn secret_storage_actions_texts() -> Seq<Seq<char>> {
    seq!["status"@]
}

pub open spec fn browser_profile_actions_texts() -> Seq<Seq<char>> {
    seq!["discover-profiles"@, "detect-current-account"@]
}

pub open spec fn account_import_sources_texts() -> Seq<Seq<char>> {
    seq!["json_path"@, "json_text"@, "manual_cookie"@]
}

pub open spec fn account_import_post_actions_texts() -> Seq<Seq<char>> {
    seq!["refresh_session_metadata"@, "fetch_git_token"@]
}

pub open spec fn account_export_modes_texts() -> Seq<Seq<char>> {
    seq!["single_file"@, "multiple_files"@, "browser_download_json"@]
}

pub open spec fn account_export_layout_modes_texts() -> Seq<Seq<char>> {
    seq!["single_file"@, "multiple_files"@]
}

pub open spec fn account_export_safety_texts() -> Seq<Seq<char>> {
    seq!["main_config_overwrite_block"@, "existing_export_overwrite_confirmation"@, "sensitive_export_warning"@]
}

pub open spec fn account_row_actions_texts() -> Seq<Seq<char>> {
    seq!["refresh-session"@, "refresh-git"@, "generate-git"@, "browser-login"@, "switch-plan"@, "switch-execute"@]
}

pub open spec fn account_bulk_actions_texts() -> Seq<Seq<char>> {
    seq!["refresh-session"@, "refresh-git"@, "generate-git"@, "browser-login"@]
}

pub open spec fn account_switch_actions_texts() -> Seq<Seq<char>> {
    seq!["plan"@, "preview-projects"@, "execute"@]
}

pub open spec fn account_removal_actions_texts() -> Seq<Seq<char>> {
    seq!["preview-remote-cleanup"@, "remove-local"@, "cleanup-remote-and-remove"@]
}

pub open spec fn account_credential_actions_texts() -> Seq<Seq<char>> {
    seq!["add-with-password"@, "refresh-cookie-with-password"@]
}

pub open spec fn account_password_actions_texts() -> Seq<Seq<char>> {
    seq!["update-local-password"@, "change-overleaf-password"@]
}

pub open spec fn account_secret_actions_texts() -> Seq<Seq<char>> {
    seq!["copy-account-secret"@]
}

pub open spec fn card_collection_actions_texts() -> Seq<Seq<char>> {
    seq!["add"@, "export"@]
}

pub open spec fn card_mutation_actions_texts() -> Seq<Seq<char>> {
    seq!["used"@, "failed"@, "remove"@]
}

pub open spec fn address_collection_actions_texts() -> Seq<Seq<char>> {
    seq!["fetch"@]
}

pub open spec fn address_selection_actions_texts() -> Seq<Seq<char>> {
    seq!["select"@, "fallback"@]
}

pub open spec fn registration_actions_texts() -> Seq<Seq<char>> {
    seq!["start"@, "auto-fetch-git-token"@]
}

pub open spec fn registration_card_selection_strategies_texts() -> Seq<Seq<char>> {
    seq!["new_then_used_then_failed"@, "new_only"@]
}

pub open spec fn task_failure_kinds_texts() -> Seq<Seq<char>> {
    seq!["retryable"@, "needs_user_input"@, "needs_login"@, "page_changed"@, "fatal"@]
}

pub open spec fn task_recoverable_failure_kinds_texts() -> Seq<Seq<char>> {
    seq!["retryable"@, "needs_user_input"@, "needs_login"@, "page_changed"@]
}

/// The capabilities of the service. The lists that come from the task
/// store's and the browser layer's own vocabularies are handed in.
pub fn api_capabilities_status(
    task_operation_kinds: Vec<&'static str>,
    task_user_input_kinds: Vec<&'static str>,
    task_available_actions: Vec<&'static str>,
    task_input_action_map: Vec<TaskInputActionSpec>,
    embedded_ui_assets: Vec<EmbeddedUiAssetSpec>,
    browser_lifecycle_policy: BrowserLifecyclePolicySpec,
) -> (r: ApiCapabilityStatus)
    ensures
        r.contract_version == 1,
        is_readiness_policy(r.service_readiness_policy),
        r.service_api_routes@.map_values(|x: ServiceApiRouteSpec| route_view(x)) == route_table(),
        r.task_events_sse && r.task_since_cursor && r.task_summary && r.explicit_task_waiting_input
            && r.task_retry_descriptor && r.task_retry_endpoint,
        texts(r.task_phases@) == task_phase_texts(),
        r.task_lock_policy.lock_scope@ == "account_alias_write"@,
        r.task_lock_policy.snapshot_field@ == "locked_aliases"@,
        r.task_lock_policy.summary_field@ == "locked_alias_count"@,
        r.task_lock_policy.conflict_status == 409,
        r.task_lock_policy.duplicate_aliases_deduped,
        r.task_lock_policy.release_on_terminal,
        r.task_lock_policy.release_on_clear_terminal,
        rule_views(r.task_result_sensitive_key_rules@) == sensitive_key_rule_texts(),
        r.registration_trial_days@ == seq![21u32, 7u32],
        r.task_operation_kinds@ == task_operation_kinds@,
        r.task_user_input_kinds@ == task_user_input_kinds@,
        r.task_available_actions@ == task_available_actions@,
        r.task_input_action_map@ == task_input_action_map@,
        r.embedded_ui_assets@ == embedded_ui_assets@,
        r.browser_lifecycle_policy == browser_lifecycle_policy,
        texts(r.task_replay_safety_modes@) == task_replay_safety_modes_texts(),
        texts(r.task_active_phases@) == task_active_phases_texts(),
        texts(r.task_terminal_phases@) == task_terminal_phases_texts(),
        texts(r.task_summary_breakdowns@) == task_summary_breakdowns_texts(),
        texts(r.task_result_sections@) == task_result_sections_texts(),
        texts(r.task_result_summary_sources@) == task_result_summary_sources_texts(),
        texts(r.task_result_sensitive_value_markers@) == task_result_sensitive_value_markers_texts(),
        texts(r.task_list_actions@) == task_list_actions_texts(),
        texts(r.runtime_diagnostics@) == runtime_diagnostics_texts(),
        texts(r.runtime_cleanup_actions@) == runtime_cleanup_actions_texts(),
        texts(r.runtime_cleanup_policy@) == runtime_cleanup_policy_texts(),
        texts(r.development_cache_policy@) == development_cache_policy_texts(),
        texts(r.desktop_dialog_open_globals@) == desktop_dialog_open_globals_texts(),
        texts(r.desktop_dialog_save_globals@) == desktop_dialog_save_globals_texts(),
        texts(r.desktop_file_write_globals@) == desktop_file_write_globals_texts(),
        texts(r.desktop_clipboard_write_globals@) == desktop_clipboard_write_globals_texts(),
        texts(r.secret_storage_actions@) == secret_storage_actions_texts(),
        texts(r.browser_profile_actions@) == browser_profile_actions_texts(),
        texts(r.account_import_sources@) == account_import_sources_texts(),
        texts(r.account_import_post_actions@) == account_import_post_actions_texts(),
        texts(r.account_export_modes@) == account_export_modes_texts(),
        texts(r.account_export_layout_modes@) == account_export_layout_modes_texts(),
        texts(r.account_export_safety@) == account_export_safety_texts(),
        texts(r.account_row_actions@) == account_row_actions_texts(),
        texts(r.account_bulk_actions@) == account_bulk_actions_texts(),
        texts(r.account_switch_actions@) == account_switch_actions_texts(),
        texts(r.account_removal_actions@) == account_removal_actions_texts(),
        texts(r.account_credential_actions@) == account_credential_actions_texts(),
        texts(r.account_password_actions@) == account_password_actions_texts(),
        texts(r.account_secret_actions@) == account_secret_actions_texts(),
        texts(r.card_collection_actions@) == card_collection_actions_texts(),
        texts(r.card_mutation_actions@) == card_mutation_actions_texts(),
        texts(r.address_collection_actions@) == address_collection_actions_texts(),
        texts(r.address_selection_actions@) == address_selection_actions_texts(),
        texts(r.registration_actions@) == registration_actions_texts(),
        texts(r.registration_card_selection_strategies@) == registration_card_selection_strategies_texts(),
        texts(r.task_failure_kinds@) == task_failure_kinds_texts(),
        texts(r.task_recoverable_failure_kinds@) == task_recoverable_failure_kinds_texts(),
{
    let task_replay_safety_modes = str_list(&["safe", "requires_confirmation"]);
    assert(texts(task_replay_safety_modes@) =~= task_replay_safety_modes_texts());
    let task_active_phases = str_list(&["pending", "running", "waiting_for_user"]);
    assert(texts(task_active_phases@) =~= task_active_phases_texts());
    let task_terminal_phases = str_list(&["completed", "failed", "cancelled"]);
    assert(texts(task_terminal_phases@) =~= task_terminal_phases_texts());
    let task_summary_breakdowns = str_list(&["waiting_for_input_by_kind", "failed_by_kind", "available_actions_count"]);
    assert(texts(task_summary_breakdowns@) =~= task_summary_breakdowns_texts());
    let task_result_sections = str_list(&["summary_chips", "import_decisions", "project_migration", "top_level_items", "nested_items", "post_action_errors"]);
    assert(texts(task_result_sections@) =~= task_result_sections_texts());
    let task_result_summary_sources = str_list(&["root", "import", "session_refresh", "git_token_generation", "project_migration"]);
    assert(texts(task_result_summary_sources@) =~= task_result_summary_sources_texts());
    let task_result_sensitive_value_markers = str_list(&["git_token_prefix", "overleaf_session_cookie_assignment", "encoded_overleaf_session_prefix", "raw_overleaf_session_prefix"]);
    assert(texts(task_result_sensitive_value_markers@) =~= task_result_sensitive_value_markers_texts());
    let task_list_actions = str_list(&["clear-terminal"]);
    assert(texts(task_list_actions@) =~= task_list_actions_texts());
    let runtime_diagnostics = str_list(&["browser_profiles", "runtime_artifacts", "runtime_temp_profiles"]);
    assert(texts(runtime_diagnostics@) =~= runtime_diagnostics_texts());
    let runtime_cleanup_actions = str_list(&["runtime_artifacts_cleanup", "runtime_temp_profiles_cleanup"]);
    assert(texts(runtime_cleanup_actions@) =~= runtime_cleanup_actions_texts());
    let runtime_cleanup_policy = str_list(&["requires_explicit_confirmation", "workspace_artifacts_only", "protect_data_backups_and_git", "owned_temp_profiles_only", "skip_user_window_profiles"]);
    assert(texts(runtime_cleanup_policy@) =~= runtime_cleanup_policy_texts());
    let development_cache_policy = str_list(&["preserve_reusable_docker_and_cargo_cache_during_active_iteration", "use_space_reports_and_warning_thresholds_for_routine_monitoring", "deep_cache_cleanup_only_for_final_delivery_cache_bloat_low_space_or_explicit_request"]);
    assert(texts(development_cache_policy@) =~= development_cache_policy_texts());
    let desktop_dialog_open_globals = str_list(&["window.__OVERLEAF_DESKTOP__.openDialog"]);
    assert(texts(desktop_dialog_open_globals@) =~= desktop_dialog_open_globals_texts());
    let desktop_dialog_save_globals = str_list(&["window.__OVERLEAF_DESKTOP__.saveDialog"]);
    assert(texts(desktop_dialog_save_globals@) =~= desktop_dialog_save_globals_texts());
    let desktop_file_write_globals = str_list(&["window.__OVERLEAF_DESKTOP__.writeTextFile"]);
    assert(texts(desktop_file_write_globals@) =~= desktop_file_write_globals_texts());
    let desktop_clipboard_write_globals = str_list(&["window.__OVERLEAF_DESKTOP__.writeClipboardText"]);
    assert(texts(desktop_clipboard_write_globals@) =~= desktop_clipboard_write_globals_texts());
    let secret_storage_actions = str_list(&["status"]);
    assert(texts(secret_storage_actions@) =~= secret_storage_actions_texts());
    let browser_profile_actions = str_list(&["discover-profiles", "detect-current-account"]);
    assert(texts(browser_profile_actions@) =~= browser_profile_actions_texts());
    let account_import_sources = str_list(&["json_path", "json_text", "manual_cookie"]);
    assert(texts(account_import_sources@) =~= account_import_sources_texts());
    let account_import_post_actions = str_list(&["refresh_session_metadata", "fetch_git_token"]);
    assert(texts(account_import_post_actions@) =~= account_import_post_actions_texts());
    let account_export_modes = str_list(&["single_file", "multiple_files", "browser_download_json"]);
    assert(texts(account_export_modes@) =~= account_export_modes_texts());
    let account_export_layout_modes = str_list(&["single_file", "multiple_files"]);
    assert(texts(account_export_layout_modes@) =~= account_export_layout_modes_texts());
    let account_export_safety = str_list(&["main_config_overwrite_block", "existing_export_overwrite_confirmation", "sensitive_export_warning"]);
    assert(texts(account_export_safety@) =~= account_export_safety_texts());
    let account_row_actions = str_list(&["refresh-session", "refresh-git", "generate-git", "browser-login", "switch-plan", "switch-execute"]);
    assert(texts(account_row_actions@) =~= account_row_actions_texts());
    let account_bulk_actions = str_list(&["refresh-session", "refresh-git", "generate-git", "browser-login"]);
    assert(texts(account_bulk_actions@) =~= account_bulk_actions_texts());
    let account_switch_actions = str_list(&["plan", "preview-projects", "execute"]);
    assert(texts(account_switch_actions@) =~= account_switch_actions_texts());
    let account_removal_actions = str_list(&["preview-remote-cleanup", "remove-local", "cleanup-remote-and-remove"]);
    assert(texts(account_removal_actions@) =~= account_removal_actions_texts());
    let account_credential_actions = str_list(&["add-with-password", "refresh-cookie-with-password"]);
    assert(texts(account_credential_actions@) =~= account_credential_actions_texts());
    let account_password_actions = str_list(&["update-local-password", "change-overleaf-password"]);
    assert(texts(account_password_actions@) =~= account_password_actions_texts());
    let account_secret_actions = str_list(&["copy-account-secret"]);
    assert(texts(account_secret_actions@) =~= account_secret_actions_texts());
    let card_collection_actions = str_list(&["add", "export"]);
    assert(texts(card_collection_actions@) =~= card_collection_actions_texts());
    let card_mutation_actions = str_list(&["used", "failed", "remove"]);
    assert(texts(card_mutation_actions@) =~= card_mutation_actions_texts());
    let address_collection_actions = str_list(&["fetch"]);
    assert(texts(address_collection_actions@) =~= address_collection_actions_texts());
    let address_selection_actions = str_list(&["select", "fallback"]);
    assert(texts(address_selection_actions@) =~= address_selection_actions_texts());
    let registration_actions = str_list(&["start", "auto-fetch-git-token"]);
    assert(texts(registration_actions@) =~= registration_actions_texts());
    let registration_card_selection_strategies = str_list(&["new_then_used_then_failed", "new_only"]);
    assert(texts(registration_card_selection_strategies@) =~= registration_card_selection_strategies_texts());
    let task_failure_kinds = str_list(&["retryable", "needs_user_input", "needs_login", "page_changed", "fatal"]);
    assert(texts(task_failure_kinds@) =~= task_failure_kinds_texts());
    let task_recoverable_failure_kinds = str_list(&["retryable", "needs_user_input", "needs_login", "page_changed"]);
    assert(texts(task_recoverable_failure_kinds@) =~= task_recoverable_failure_kinds_texts());
    let mut trial_days: Vec<u32> = Vec::new();
    trial_days.push(21);
    trial_days.push(7);
    assert(trial_days@ =~= seq![21u32, 7u32]);
    ApiCapabilityStatus {
        contract_version: 1,
        service_readiness_policy: service_readiness_policy_spec(),
        service_api_routes: service_api_routes(),
        task_events_sse: true,
        task_since_cursor: true,
        task_summary: true,
        explicit_task_waiting_input: true,
        task_retry_descriptor: true,
        task_retry_endpoint: true,
        task_replay_safety_modes,
        task_phases: task_phase_names(),
        task_active_phases,
        task_terminal_phases,
        task_lock_policy: TaskLockPolicySpec {
            lock_scope: "account_alias_write",
            snapshot_field: "locked_aliases",
            summary_field: "locked_alias_count",
            conflict_status: 409,
            duplicate_aliases_deduped: true,
            release_on_terminal: true,
            release_on_clear_terminal: true,
        },
        task_summary_breakdowns,
        task_result_sections,
        task_result_summary_sources,
        task_result_sensitive_key_rules: sensitive_key_rules(),
        task_result_sensitive_value_markers,
        task_list_actions,
        runtime_diagnostics,
        runtime_cleanup_actions,
        runtime_cleanup_policy,
        development_cache_policy,
        embedded_ui_assets,
        browser_lifecycle_policy,
        desktop_dialog_open_globals,
        desktop_dialog_save_globals,
        desktop_file_write_globals,
        desktop_clipboard_write_globals,
        secret_storage_actions,
        browser_profile_actions,
        account_import_sources,
        account_import_post_actions,
        account_export_modes,
        account_export_layout_modes,
        account_export_safety,
        account_row_actions,
        account_bulk_actions,
        account_switch_actions,
        account_removal_actions,
        account_credential_actions,
        account_password_actions,
        account_secret_actions,
        card_collection_actions,
        card_mutation_actions,
        address_collection_actions,
        address_selection_actions,
        registration_actions,
        registration_trial_days: trial_days,
        registration_card_selection_strategies,
        task_operation_kinds,
        task_failure_kinds,
        task_recoverable_failure_kinds,
        task_user_input_kinds,
        task_available_actions,
        task_input_action_map,
    }
}

// ---------------------------------------------------------------------------
// The browser automation's status

/// An environment value, when it is not blank.
pub fn non_empty_value(value: Option<String>) -> (r: Option<String>)
    ensures
        match value {
            Some(v) => if trimmed(v@).len() > 0 {
                r == Some(v)
            } else {
                r is None
            },
            None => r is None,
        },
{
    match value {
        Some(v) => {
            let t = trim(v.as_str());
            if is_empty_text(t.as_str()) {
                None
            } else {
                Some(v)
            }
        },
        None => None,
    }
}

/// The first debugging port: the configured value when it reads as a
/// `u16`, else the default.
pub open spec fn debug_port_for(env_value: Option<String>, default_port: u16) -> u16 {
    match env_value {
        Some(v) => match parse_u64(v@) {
            Some(n) => if n <= 0xFFFF {
                n as u16
            } else {
                default_port
            },
            None => default_port,
        },
        None => default_port,
    }
}

pub fn debug_port_start(env_value: &Option<String>, default_port: u16) -> (r: u16)
    ensures
        r == debug_port_for(*env_value, default_port),
{
    match env_value {
        Some(v) => match parse_u64_text(v.as_str()) {
            Some(n) => if n <= 0xFFFF {
                n as u16
            } else {
                default_port
            },
            None => default_port,
        },
        None => default_port,
    }
}

/// The local Chrome automation's settings.
pub struct LocalChromeSettings {
    pub chrome_executable: String,
    pub tmp_dir: String,
    pub debug_port_start: u16,
    pub exit_wait_ms: u64,
}

/// The status of the browser automation: the local Chrome backend with its
/// settings; an injected backend; or none, with why.
pub fn browser_automation_status(
    local_chrome: Option<LocalChromeSettings>,
    automation_configured: bool,
    chrome_path_env: Option<String>,
    cdp_port_start_env: Option<String>,
    detected_chrome_executable: Option<String>,
    tmp_dir: String,
    default_port: u16,
    default_exit_wait_ms: u64,
) -> (r: BrowserAutomationStatus)
    ensures
        r.detected_chrome_executable == detected_chrome_executable,
        r.chrome_path_env_present == chrome_path_env is Some,
        r.cdp_port_start_env == cdp_port_start_env,
        match local_chrome {
            Some(c) => {
                &&& r.configured == automation_configured
                &&& r.backend@ == "local_chrome"@
                &&& r.chrome_executable == Some(c.chrome_executable)
                &&& r.tmp_dir == c.tmp_dir
                &&& r.debug_port_start == c.debug_port_start
                &&& r.exit_wait_ms == c.exit_wait_ms
                &&& r.unavailable_reason is None
            },
            None => {
                &&& r.tmp_dir == tmp_dir
                &&& r.debug_port_start == debug_port_for(cdp_port_start_env, default_port)
                &&& r.exit_wait_ms == default_exit_wait_ms
                &&& if automation_configured {
                    &&& r.configured
                    &&& r.backend@ == "injected"@
                    &&& r.chrome_executable is None
                    &&& r.unavailable_reason is None
                } else {
                    &&& !r.configured
                    &&& r.backend@ == "none"@
                    &&& r.chrome_executable == chrome_path_env
                    &&& r.unavailable_reason matches Some(reason) && reason@ == if chrome_path_env is Some {
                        "configured_chrome_path_not_found"@
                    } else {
                        "chrome_executable_not_found"@
                    }
                }
            },
        },
{
    let env_present = chrome_path_env.is_some();
    match local_chrome {
        Some(c) => BrowserAutomationStatus {
            configured: automation_configured,
            backend: "local_chrome",
            chrome_executable: Some(c.chrome_executable),
            detected_chrome_executable,
            tmp_dir: c.tmp_dir,
            debug_port_start: c.debug_port_start,
            exit_wait_ms: c.exit_wait_ms,
            chrome_path_env_present: env_present,
            cdp_port_start_env,
            unavailable_reason: None,
        },
        None => {
            let port = debug_port_start(&cdp_port_start_env, default_port);
            if automation_configured {
                BrowserAutomationStatus {
                    configured: true,
                    backend: "injected",
                    chrome_executable: None,
                    detected_chrome_executable,
                    tmp_dir,
                    debug_port_start: port,
                    exit_wait_ms: default_exit_wait_ms,
                    chrome_path_env_present: env_present,
                    cdp_port_start_env,
                    unavailable_reason: None,
                }
            } else {
                let reason = if env_present {
                    "configured_chrome_path_not_found"
                } else {
                    "chrome_executable_not_found"
                };
                BrowserAutomationStatus {
                    configured: false,
                    backend: "none",
                    chrome_executable: chrome_path_env,
                    detected_chrome_executable,
                    tmp_dir,
                    debug_port_start: port,
                    exit_wait_ms: default_exit_wait_ms,
                    chrome_path_env_present: env_present,
                    cdp_port_start_env,
                    unavailable_reason: Some(reason),
                }
            }
        },
    }
}

/// The label of a browser close policy.
#[derive(Debug, Clone, Copy, PartialEq, Eq)]
pub enum ClosePolicy {
    AutoCloseTemp,
    KeepUserWindow,
}

pub fn close_policy_label(policy: ClosePolicy) -> (r: &'static str)
    ensures
        r@ == match policy {
            ClosePolicy::AutoCloseTemp => "auto_close_temporary"@,
            ClosePolicy::KeepUserWindow => "keep_user_window"@,
        },
{
    match policy {
        ClosePolicy::AutoCloseTemp => "auto_close_temporary",
        ClosePolicy::KeepUserWindow => "keep_user_window",
    }
}

/// A step of a browser cleanup plan.
#[derive(Debug, Clone, Copy, PartialEq, Eq)]
pub enum BrowserCleanupStep {
    SendCdpBrowserClose,
    WaitForProcessExit,
    KillProcessesByDebugPort,
    KillProcessesByProfileDir,
    WaitForUserWindowExit,
    RemoveProfileDirWithRetry,
}

pub open spec fn cleanup_step_text(step: BrowserCleanupStep) -> Seq<char> {
    match step {
        BrowserCleanupStep::SendCdpBrowserClose => "cdp_browser_close"@,
        BrowserCleanupStep::WaitForProcessExit => "wait_process_exit"@,
        BrowserCleanupStep::KillProcessesByDebugPort => "scoped_kill_by_debug_port"@,
        BrowserCleanupStep::KillProcessesByProfileDir => "scoped_kill_by_profile_dir"@,
        BrowserCleanupStep::WaitForUserWindowExit => "wait_user_window_exit"@,
        BrowserCleanupStep::RemoveProfileDirWithRetry => "remove_profile_dir_with_retry"@,
    }
}

fn cleanup_step_label(step: BrowserCleanupStep) -> (r: &'static str)
    ensures
        r@ == cleanup_step_text(step),
{
    match step {
        BrowserCleanupStep::SendCdpBrowserClose => "cdp_browser_close",
        BrowserCleanupStep::WaitForProcessExit => "wait_process_exit",
        BrowserCleanupStep::KillProcessesByDebugPort => "scoped_kill_by_debug_port",
        BrowserCleanupStep::KillProcessesByProfileDir => "scoped_kill_by_profile_dir",
        BrowserCleanupStep::WaitForUserWindowExit => "wait_user_window_exit",
        BrowserCleanupStep::RemoveProfileDirWithRetry => "remove_profile_dir_with_retry",
    }
}

/// The labels of a cleanup plan's steps, in order.
pub fn cleanup_step_labels(steps: &Vec<BrowserCleanupStep>) -> (r: Vec<String>)
    ensures
        r@.map_values(|s: String| s@) == steps@.map_values(|s: BrowserCleanupStep| cleanup_step_text(s)),
{
    let mut out: Vec<String> = Vec::new();
    let mut i: usize = 0;
    while i < steps.len()
        invariant
            i <= steps@.len(),
            out@.map_values(|s: String| s@) == steps@.subrange(0, i as int).map_values(|s: BrowserCleanupStep| cleanup_step_text(s)),
        decreases steps.len() - i,
    {
        let label = crate::text::owned(cleanup_step_label(steps[i]));
        let ghost before = out@;
        let ghost text = label@;
        out.push(label);
        assert(out@.map_values(|s: String| s@) =~= before.map_values(|s: String| s@).push(text));
        assert(steps@.subrange(0, i + 1).map_values(|s: BrowserCleanupStep| cleanup_step_text(s)) =~= steps@.subrange(0, i as int).map_values(|s: BrowserCleanupStep| cleanup_step_text(s)).push(cleanup_step_text(steps@[i as int])));
        i = i + 1;
        assert(out@.map_values(|s: String| s@) =~= steps@.subrange(0, i as int).map_values(|s: BrowserCleanupStep| cleanup_step_text(s)));
    }
    assert(steps@.subrange(0, steps@.len() as int) =~= steps@);
    out
}

// ---------------------------------------------------------------------------
// The browser proxy

/// How the browser reaches the network.
#[derive(Debug, Clone, Copy, PartialEq, Eq, Structural)]
pub enum ChromeProxyMode {
    Auto,
    InheritSystem,
    Direct,
    Custom,
}

/// The proxy the browser uses: a custom server only in custom mode.
pub struct ChromeProxyPolicy {
    pub mode: ChromeProxyMode,
    pub server: Option<String>,
}

/// A proxy server the service accepts: an http, https, socks4 or socks5
/// URL without white space and without credentials.
pub open spec fn is_supported_proxy_server(s: Seq<char>) -> bool {
    &&& ("http://"@.is_prefix_of(s) || "https://"@.is_prefix_of(s) || "socks4://"@.is_prefix_of(s) || "socks5://"@.is_prefix_of(s))
    &&& forall|i: int| 0 <= i < s.len() ==> !crate::text::is_white_space(#[trigger] s[i])
    &&& !s.contains('@')
}

fn proxy_server_acceptable(server: &str) -> (r: bool)
    ensures
        r == is_supported_proxy_server(server@),
{
    let scheme = starts_with(server, "http://") || starts_with(server, "https://") || starts_with(server, "socks4://")
        || starts_with(server, "socks5://");
    if !scheme {
        return false;
    }
    let v = crate::text::chars_of(server);
    let mut i: usize = 0;
    while i < v.len()
        invariant
            v@ == server@,
            i <= v@.len(),
            forall|k: int| 0 <= k < i ==> !crate::text::is_white_space(#[trigger] server@[k]) && server@[k] != '@',
        decreases v.len() - i,
    {
        if crate::text::char_is_white_space(v[i]) || v[i] == '@' {
            if v[i] == '@' {
                assert(server@[i as int] == '@');
                assert(server@.contains('@'));
            }
            return false;
        }
        i = i + 1;
    }
    true
}

/// The policy a proxy request sets: the automatic, system and direct modes
/// carry no server; custom mode needs a supported server, trimmed.
pub fn normalize_browser_proxy_policy(mode: ChromeProxyMode, server: Option<&str>) -> (r: Result<ChromeProxyPolicy, String>)
    ensures
        !(mode is Custom) ==> (r matches Ok(p) && p.mode == mode && p.server is None),
        mode is Custom ==> match server {
            Some(s) if trimmed(s@).len() > 0 => if is_supported_proxy_server(trimmed(s@)) {
                r matches Ok(p) && p.mode == ChromeProxyMode::Custom && (p.server matches Some(x) && x@ == trimmed(s@))
            } else {
                r matches Err(m) && m@ == "custom proxy server must be an unauthenticated http/https/socks4/socks5 URL"@
            },
            _ => r matches Err(m) && m@ == "custom proxy server is required"@,
        },
{
    match mode {
        ChromeProxyMode::Custom => {
            let s = match server {
                Some(s) => trim(s),
                None => {
                    return Err(owned("custom proxy server is required"));
                },
            };
            if is_empty_text(s.as_str()) {
                return Err(owned("custom proxy server is required"));
            }
            if !proxy_server_acceptable(s.as_str()) {
                return Err(owned("custom proxy server must be an unauthenticated http/https/socks4/socks5 URL"));
            }
            Ok(ChromeProxyPolicy { mode: ChromeProxyMode::Custom, server: Some(s) })
        },
        _ => Ok(ChromeProxyPolicy { mode, server: None }),
    }
}

} // verus!
