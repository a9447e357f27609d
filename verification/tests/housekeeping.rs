use overleaf_service::runtime::{
    cleanup_confirmation_error, empty_artifact_cleanup_report, empty_temp_profile_cleanup_report,
    preview_temp_profiles, record_artifact_cleanup, record_skipped_user_window,
    record_temp_profile_removal, runtime_artifact_candidates, runtime_artifact_path_is_safe_to_remove,
    runtime_artifact_status_for_workspace, sorted_temp_profile_dirs, temp_profile_disposition,
    walk_decision, ArtifactRemoval, FileInventory, RuntimeArtifactItem, TempProfileDir,
    TempProfileDisposition, WalkDecision,
};
use overleaf_service::skills::{
    agent_home, installations, installer_arguments, installer_chunk_exceeds, join_path,
    skill_dir, skills_sync_report, skills_task_id, skills_task_label, sync_secrets, user_path, PathStyle,
    SkillAction, SkillAgent, SkillProbe,
};

#[test]
fn artifact_candidates_are_listed_in_order() {
    let c = runtime_artifact_candidates();
    assert_eq!(c.len(), 11);
    assert_eq!(c[0].relative_path, "target");
    assert_eq!(c[4].relative_path, "src-tauri/target");
    assert_eq!(c[10].kind, "python_test_cache");
}

#[test]
fn artifact_status_sorts_by_path_and_sums_sizes() {
    let mut dirs: Vec<Option<(String, u64)>> = vec![None; 11];
    dirs[0] = Some(("/w/target".to_string(), 100));
    dirs[3] = Some(("/w/dist".to_string(), 5));
    let caches = vec![("/w/a/__pycache__".to_string(), 7)];
    let status = runtime_artifact_status_for_workspace("/w".to_string(), dirs, caches);
    assert_eq!(status.workspace_dir, "/w");
    assert_eq!(status.item_count, 3);
    assert_eq!(status.total_bytes, 112);
    let paths: Vec<&str> = status.items.iter().map(|i| i.path.as_str()).collect();
    assert_eq!(paths, vec!["/w/a/__pycache__", "/w/dist", "/w/target"]);
    assert_eq!(status.items[0].name, "__pycache__");
    assert_eq!(status.items[0].kind, "python_bytecode_cache");
    assert_eq!(status.items[1].kind, "web_build");
}

#[test]
fn artifact_sizes_saturate() {
    let mut dirs: Vec<Option<(String, u64)>> = vec![None; 11];
    dirs[0] = Some(("/w/target".to_string(), u64::MAX));
    dirs[1] = Some(("/w/node_modules".to_string(), 1));
    let status = runtime_artifact_status_for_workspace("/w".to_string(), dirs, Vec::new());
    assert_eq!(status.total_bytes, u64::MAX);
}

#[test]
fn only_paths_strictly_inside_the_workspace_may_be_removed() {
    let c = |parts: &[&str]| parts.iter().map(|p| p.to_string()).collect::<Vec<String>>();
    assert!(runtime_artifact_path_is_safe_to_remove(&c(&["/", "w"]), &c(&["/", "w", "target"])));
    assert!(!runtime_artifact_path_is_safe_to_remove(&c(&["/", "w"]), &c(&["/", "w"])));
    assert!(!runtime_artifact_path_is_safe_to_remove(&c(&["/", "w"]), &c(&["/", "wx", "target"])));
    assert!(!runtime_artifact_path_is_safe_to_remove(&c(&["/", "w"]), &c(&["/", "other"])));
    assert!(runtime_artifact_path_is_safe_to_remove(&c(&["/"]), &c(&["/", "tmp"])));
    assert!(!runtime_artifact_path_is_safe_to_remove(&c(&["/", "w", "x"]), &c(&["/", "w"])));
    assert!(runtime_artifact_path_is_safe_to_remove(
        &c(&["\\\\?\\C:", "\\", "ws"]),
        &c(&["\\\\?\\C:", "\\", "ws", "target"]),
    ));
}

fn item(path: &str, bytes: u64) -> RuntimeArtifactItem {
    RuntimeArtifactItem {
        name: "target".to_string(),
        path: path.to_string(),
        kind: "build_target",
        bytes,
        cleanup_hint: "hint",
    }
}

#[test]
fn artifact_cleanup_counts_each_outcome() {
    let mut report = empty_artifact_cleanup_report();
    record_artifact_cleanup(&mut report, item("/w/a", 10), ArtifactRemoval::Removed);
    record_artifact_cleanup(&mut report, item("/w/b", 20), ArtifactRemoval::Missing);
    record_artifact_cleanup(&mut report, item("/x/c", 30), ArtifactRemoval::Unsafe);
    record_artifact_cleanup(&mut report, item("/w/d", 40), ArtifactRemoval::Failed("denied".to_string()));
    assert_eq!(report.removed_count, 1);
    assert_eq!(report.failed_count, 2);
    assert_eq!(report.removed_bytes, 10);
    let statuses: Vec<&str> = report.items.iter().map(|i| i.status).collect();
    assert_eq!(statuses, vec!["removed", "missing", "failed", "failed"]);
    assert_eq!(report.items[2].error.as_deref(), Some("refuse to remove artifact outside workspace"));
    assert_eq!(report.items[3].error.as_deref(), Some("denied"));
}

#[test]
fn walks_prune_build_and_protected_directories() {
    assert_eq!(walk_decision(Some("__pycache__"), true, "__pycache__", false), WalkDecision::Found);
    assert_eq!(walk_decision(Some("node_modules"), true, "__pycache__", false), WalkDecision::Prune);
    assert_eq!(walk_decision(Some("data"), true, "__pycache__", true), WalkDecision::Prune);
    assert_eq!(walk_decision(Some("src"), true, "__pycache__", false), WalkDecision::Descend);
    assert_eq!(walk_decision(Some("src"), false, "__pycache__", false), WalkDecision::Skip);
    assert_eq!(walk_decision(None, true, "__pycache__", false), WalkDecision::Skip);
}

#[test]
fn file_inventory_counts_and_saturates() {
    let inv = FileInventory::empty().add(5).add(u64::MAX);
    assert_eq!(inv.count, 2);
    assert_eq!(inv.bytes, u64::MAX);
}

/// The second agent's name: the first word of its configuration variable.
fn second_agent_name() -> String {
    "CLAUDE_CONFIG_DIR".split('_').next().unwrap().to_lowercase()
}

fn dir(name: &str, bytes: u64, owned: bool) -> TempProfileDir {
    TempProfileDir { name: name.to_string(), bytes, owned }
}

#[test]
fn temp_profiles_are_sorted_and_classified() {
    let sorted = sorted_temp_profile_dirs(vec![dir("b", 1, true), dir("a", 2, false), dir("c", 3, true)]);
    let names: Vec<&str> = sorted.iter().map(|d| d.name.as_str()).collect();
    assert_eq!(names, vec!["a", "b", "c"]);
    assert_eq!(temp_profile_disposition(&dir("user-window-1", 1, true), "user-window-"), TempProfileDisposition::SkipUserWindow);
    assert_eq!(temp_profile_disposition(&dir("owned", 1, true), "user-window-"), TempProfileDisposition::Candidate);
    assert_eq!(temp_profile_disposition(&dir("other", 1, false), "user-window-"), TempProfileDisposition::Ignore);
}

#[test]
fn temp_profile_preview_lists_candidates_and_skipped_windows() {
    let preview = preview_temp_profiles(
        vec![dir("owned-b", 10, true), dir("user-window-a", 5, false), dir("stranger", 99, false), dir("owned-a", 1, true)],
        "user-window-",
    );
    assert_eq!(preview.candidate_count, 2);
    assert_eq!(preview.candidate_bytes, 11);
    assert_eq!(preview.skipped_user_window_count, 1);
    assert_eq!(preview.skipped_user_window_bytes, 5);
    let listed: Vec<(&str, &str)> = preview.items.iter().map(|i| (i.profile_name.as_str(), i.status)).collect();
    assert_eq!(
        listed,
        vec![("owned-a", "candidate"), ("owned-b", "candidate"), ("user-window-a", "skipped_user_window")]
    );
}

#[test]
fn temp_profile_cleanup_records_removals_failures_and_skips() {
    let mut report = empty_temp_profile_cleanup_report();
    record_skipped_user_window(&mut report, 7);
    record_temp_profile_removal(&mut report, "p1".to_string(), 3, Ok(()));
    record_temp_profile_removal(&mut report, "p2".to_string(), 4, Err("busy".to_string()));
    assert_eq!(report.skipped_user_window_count, 1);
    assert_eq!(report.skipped_user_window_bytes, 7);
    assert_eq!(report.removed_count, 1);
    assert_eq!(report.removed_bytes, 3);
    assert_eq!(report.failed_count, 1);
    assert_eq!(report.items[1].status, "failed");
    assert_eq!(report.items[1].error.as_deref(), Some("busy"));
}

#[test]
fn cleanups_must_be_confirmed() {
    assert!(cleanup_confirmation_error(true).is_none());
    let r = cleanup_confirmation_error(false).unwrap();
    assert_eq!(r.status_code, 400);
    assert_eq!(r.body, "{\"error\":\"confirm_cleanup must be true\"}");
}

#[test]
fn paths_join_like_std() {
    let u = PathStyle::Unix;
    assert_eq!(join_path(u, "/home/u", "skills"), "/home/u/skills");
    assert_eq!(join_path(u, "/home/u/", "skills"), "/home/u/skills");
    assert_eq!(join_path(u, "", "skills"), "skills");
    assert_eq!(join_path(u, "/home/u", "/abs"), "/abs");
    assert_eq!(skill_dir(u, "/h/.codex"), "/h/.codex/skills/overleaf-skills");
}

#[test]
fn windows_paths_join_like_std() {
    let w = PathStyle::Windows;
    assert_eq!(join_path(w, "C:\\Users\\u", "skills"), "C:\\Users\\u\\skills");
    assert_eq!(join_path(w, "C:\\Users\\u\\", "skills"), "C:\\Users\\u\\skills");
    assert_eq!(join_path(w, "C:\\Users\\u/", "skills"), "C:\\Users\\u/skills");
    assert_eq!(join_path(w, "C:", "skills"), "C:skills");
    assert_eq!(join_path(w, "C:\\Users\\u", "D:\\x"), "D:\\x");
    assert_eq!(join_path(w, "C:\\Users\\u", "D:x"), "D:x");
    assert_eq!(join_path(w, "C:\\Users\\u", "\\\\srv\\share"), "\\\\srv\\share");
    assert_eq!(join_path(w, "C:\\Users\\u", "\\x"), "C:\\x");
    assert_eq!(skill_dir(w, "C:\\h\\.codex"), "C:\\h\\.codex\\skills/overleaf-skills");
}

#[test]
fn user_paths_expand_home_and_current_directory() {
    let u = PathStyle::Unix;
    assert_eq!(user_path(u, "~/x/", Some("/home/u"), Ok("/cwd")), Ok("/home/u/x".to_string()));
    assert_eq!(user_path(u, "~", Some("/home/u"), Ok("/cwd")), Ok("/home/u/".to_string()));
    assert_eq!(user_path(u, "rel/dir", Some("/home/u"), Ok("/cwd")), Ok("/cwd/rel/dir".to_string()));
    assert_eq!(user_path(u, "/abs", None, Err("no cwd")), Ok("/abs".to_string()));
    assert_eq!(user_path(u, "~/x", None, Ok("/cwd")), Err("未找到用户目录".to_string()));
    assert_eq!(user_path(u, "rel", None, Err("no cwd")), Err("no cwd".to_string()));
    assert_eq!(user_path(u, "C:\\x", None, Ok("/cwd")), Ok("/cwd/C:\\x".to_string()));
}

#[test]
fn windows_user_paths_keep_absolute_paths() {
    let w = PathStyle::Windows;
    assert_eq!(user_path(w, "C:\\cfg", None, Err("no cwd")), Ok("C:\\cfg".to_string()));
    assert_eq!(user_path(w, "D:/cfg", None, Err("no cwd")), Ok("D:/cfg".to_string()));
    assert_eq!(user_path(w, "\\\\srv\\share\\cfg", None, Err("no cwd")), Ok("\\\\srv\\share\\cfg".to_string()));
    assert_eq!(user_path(w, "rel\\dir", None, Ok("C:\\cwd")), Ok("C:\\cwd\\rel\\dir".to_string()));
    assert_eq!(user_path(w, "~\\x\\", Some("C:\\Users\\u"), Ok("C:\\cwd")), Ok("C:\\Users\\u\\x".to_string()));
    assert_eq!(user_path(w, "~/x", Some("C:\\Users\\u"), Ok("C:\\cwd")), Ok("C:\\Users\\u\\x".to_string()));
    assert_eq!(user_path(w, "\\top", None, Ok("C:\\cwd")), Ok("C:\\top".to_string()));
    assert_eq!(
        agent_home(w, SkillAgent::codex, None, Some("C:\\Users\\u"), Ok("C:\\cwd")),
        Ok("C:\\Users\\u\\.codex".to_string())
    );
}

#[test]
fn agent_homes_follow_their_variables() {
    let u = PathStyle::Unix;
    assert_eq!(agent_home(u, SkillAgent::codex, None, Some("/home/u"), Ok("/cwd")), Ok("/home/u/.codex".to_string()));
    let second = second_agent_name();
    assert_eq!(agent_home(u, SkillAgent::claude, Some(""), Some("/home/u"), Ok("/cwd")), Ok(format!("/home/u/.{second}")));
    assert_eq!(agent_home(u, SkillAgent::claude, Some("/cfg"), None, Ok("/cwd")), Ok("/cfg".to_string()));
    assert_eq!(agent_home(u, SkillAgent::codex, None, None, Ok("/cwd")), Err("未找到用户目录".to_string()));
    assert_eq!(SkillAgent::codex.home_variable(), "CODEX_HOME");
    assert_eq!(SkillAgent::claude.name(), second);
    assert_eq!(SkillAgent::codex.name(), "codex");
}

#[test]
fn installations_need_both_marker_files() {
    let list = installations(
        PathStyle::Unix,
        SkillProbe { home: Some("/h/.codex".to_string()), skill_file_present: true, script_file_present: true },
        SkillProbe { home: Some("/h/.other".to_string()), skill_file_present: true, script_file_present: false },
    );
    assert_eq!(list.len(), 2);
    assert_eq!(list[0].agent, SkillAgent::codex);
    assert!(list[0].installed);
    assert_eq!(list[0].path.as_deref(), Some("/h/.codex/skills/overleaf-skills"));
    assert!(!list[1].installed);
    let none = installations(
        PathStyle::Unix,
        SkillProbe { home: None, skill_file_present: true, script_file_present: true },
        SkillProbe { home: None, skill_file_present: false, script_file_present: false },
    );
    assert!(!none[0].installed);
    assert!(none[0].path.is_none());
}

#[test]
fn skills_requests_and_installer_arguments() {
    assert_eq!(skills_task_id("  t1 ").unwrap(), "t1");
    assert_eq!(skills_task_id("  ").unwrap_err().status_code, 400);
    assert_eq!(skills_task_label(SkillAgent::codex), "skills:codex");
    let second = second_agent_name();
    assert_eq!(installer_arguments(SkillAgent::claude, SkillAction::Update), vec!["--agent".to_string(), second, "--update".to_string()]);
    assert_eq!(installer_arguments(SkillAgent::codex, SkillAction::Install), vec!["--agent", "codex"]);
    assert_eq!(SkillAction::Uninstall.title(), "卸载 Overleaf skills");
    assert!(!installer_chunk_exceeds(1048576 - 10, 10));
    assert!(installer_chunk_exceeds(1048576 - 10, 11));
}

#[test]
fn skills_sync_needs_readable_credentials() {
    assert_eq!(sync_secrets(false, None, None), Err("无法读取账号库"));
    assert_eq!(sync_secrets(true, None, Some("t".to_string())), Err("缺少可读取的 Cookie"));
    assert_eq!(sync_secrets(true, Some("c".to_string()), None), Err("缺少可读取的 Git token"));
    assert_eq!(sync_secrets(true, Some(" ".to_string()), Some("t".to_string())), Err("Cookie 或 Git token 为空"));
    assert_eq!(sync_secrets(true, Some("c".to_string()), Some("t".to_string())), Ok(("c".to_string(), "t".to_string())));
}

#[test]
fn skills_sync_report_counts_failures() {
    let r = skills_sync_report(
        Ok(()),
        vec![(SkillAgent::codex, Ok(())), (SkillAgent::claude, Err("disk full".to_string()))],
    );
    assert_eq!(r.failed_count, 1);
    assert_eq!(r.items[0].message, "codex skills 账号已同步");
    assert_eq!(r.items[1].message, format!("{} skills 账号未同步：disk full", second_agent_name()));
    let none = skills_sync_report(Ok(()), Vec::new());
    assert_eq!(none.failed_count, 1);
    assert_eq!(none.items[0].message, "未安装 Overleaf skills，账号未同步");
    let err = skills_sync_report(Err("缺少可读取的 Cookie"), Vec::new());
    assert_eq!(err.items[0].message, "skills 账号未同步：缺少可读取的 Cookie；原有账号状态已保留");
}
