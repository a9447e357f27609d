use overleaf_service::projects::{
    check_project_request, delete_is_confirmed, project_completed_body, project_file_body,
    project_list_body, project_migration_conflict, project_pdf_url, project_target,
    project_task_end, project_task_result, project_zip_path, select_project_alias,
    MigrationTaskView, ProjectAction, ProjectRequest, ProjectSummary, ProjectTaskEnd,
};
use overleaf_service::response::error_response;
use overleaf_service::tasks::ServiceTaskPhase;

const ID: &str = "0123456789abcdefABCDEF01";

fn request(action: ProjectAction, project_id: Option<&str>, task_id: &str) -> ProjectRequest {
    ProjectRequest {
        alias: None,
        action,
        project_id: project_id.map(str::to_string),
        name: None,
        confirm_name: None,
        task_id: task_id.to_string(),
    }
}

#[test]
fn project_requests_are_checked() {
    assert_eq!(check_project_request("GET", &request(ProjectAction::List, None, "t")).unwrap_err().status_code, 405);
    assert_eq!(
        check_project_request("POST", &request(ProjectAction::List, None, " ")).unwrap_err().body,
        "{\"error\":\"任务标识无效\"}"
    );
    let long = "x".repeat(201);
    assert!(check_project_request("POST", &request(ProjectAction::List, None, &long)).is_err());
    let exactly = "账".repeat(66);
    assert!(check_project_request("POST", &request(ProjectAction::List, None, &exactly)).is_ok());
    let too_long = "账".repeat(67);
    assert!(check_project_request("POST", &request(ProjectAction::List, None, &too_long)).is_err());
    assert!(check_project_request("POST", &request(ProjectAction::List, None, "t")).is_ok());
    assert_eq!(
        check_project_request("POST", &request(ProjectAction::Zip, Some("xyz"), "t")).unwrap_err().body,
        "{\"error\":\"项目标识无效\"}"
    );
    assert!(check_project_request("POST", &request(ProjectAction::Zip, Some(ID), "t")).is_ok());
    assert!(check_project_request("POST", &request(ProjectAction::Zip, None, "t")).is_err());
}

#[test]
fn the_account_is_the_named_or_current_one() {
    assert_eq!(select_project_alias(Some(" a "), Some("b")).unwrap(), "a");
    assert_eq!(select_project_alias(None, Some(" b")).unwrap(), "b");
    assert_eq!(select_project_alias(Some("  "), Some("b")).unwrap_err().status_code, 409);
    assert_eq!(select_project_alias(None, None).unwrap_err().body, "{\"error\":\"请先选择当前账号\"}");
}

#[test]
fn running_migrations_block_project_operations() {
    let task = MigrationTaskView {
        is_switch_execution: true,
        phase: ServiceTaskPhase::Running,
        has_retry: true,
        migrate_projects: Some(true),
        source_alias: None,
    };
    let tasks = vec![task];
    assert_eq!(project_migration_conflict(&tasks, Some("cur"), "cur").unwrap().status_code, 409);
    assert!(project_migration_conflict(&tasks, Some("cur"), "other").is_none());
    let done = vec![MigrationTaskView { phase: ServiceTaskPhase::Completed, ..tasks.into_iter().next().unwrap() }];
    assert!(project_migration_conflict(&done, Some("cur"), "cur").is_none());
}

fn project(id: &str, name: &str, owner: bool, trashed: bool) -> ProjectSummary {
    ProjectSummary {
        id: id.to_string(),
        name: name.to_string(),
        owner_email: None,
        owner_name: Some("Ann".to_string()),
        is_owner: owner,
        last_updated: "\"2024-01-01\"".to_string(),
        archived: false,
        trashed,
    }
}

#[test]
fn project_listings_are_json() {
    let body = project_list_body("acct", &vec![project("p1", "Paper", true, false), project("p2", "Notes", false, true)]);
    assert_eq!(
        body,
        "{\"alias\":\"acct\",\"projects\":[{\"archived\":false,\"id\":\"p1\",\"is_owner\":true,\"last_updated\":\"2024-01-01\",\"name\":\"Paper\",\"owner\":\"Ann\",\"trashed\":false},{\"archived\":false,\"id\":\"p2\",\"is_owner\":false,\"last_updated\":\"2024-01-01\",\"name\":\"Notes\",\"owner\":\"Ann\",\"trashed\":true}]}"
    );
    assert_eq!(project_list_body("acct", &Vec::new()), "{\"alias\":\"acct\",\"projects\":[]}");
}

#[test]
fn only_owners_rename_or_delete() {
    let projects = vec![project("p1", "Paper", true, false), project("p2", "Notes", false, true)];
    assert_eq!(project_target(&projects, "p2", ProjectAction::Copy).unwrap(), 1);
    assert_eq!(project_target(&projects, "p2", ProjectAction::Rename).unwrap_err().status_code, 403);
    assert_eq!(project_target(&projects, "p9", ProjectAction::Copy).unwrap_err().status_code, 404);
    assert!(delete_is_confirmed(&projects[1], Some("Notes")).is_ok());
    assert!(delete_is_confirmed(&projects[1], Some("notes")).is_err());
    assert_eq!(delete_is_confirmed(&projects[0], Some("Paper")).unwrap_err().status_code, 409);
}

#[test]
fn project_results_are_json() {
    assert_eq!(project_completed_body(None), "{\"completed\":true}");
    assert_eq!(project_completed_body(Some("n1")), "{\"completed\":true,\"project_id\":\"n1\"}");
    assert_eq!(project_zip_path("p1"), "/project/p1/download/zip");
    assert_eq!(project_task_result("acct"), "{\"alias\":\"acct\",\"completed\":true}");
}

#[test]
fn pdf_addresses_carry_the_compile_server() {
    assert_eq!(
        project_pdf_url(Some("/download/project/p1/output/output.pdf"), Some("clsi-7")).unwrap(),
        "https://www.overleaf.com/download/project/p1/output/output.pdf?clsiserverid=clsi-7"
    );
    assert_eq!(
        project_pdf_url(Some("/out.pdf?clsiserverid=a"), Some("b")).unwrap(),
        "https://www.overleaf.com/out.pdf?clsiserverid=a"
    );
    assert_eq!(project_pdf_url(Some("/out.pdf"), None).unwrap(), "https://www.overleaf.com/out.pdf");
    assert_eq!(project_pdf_url(None, None).unwrap_err().status_code, 409);
    assert_eq!(project_pdf_url(Some("http://[::1"), None).unwrap_err().status_code, 502);
}

#[test]
fn downloaded_files_are_checked_and_encoded() {
    let body = project_file_body("Paper", true, &b"%PDF-1".to_vec()).unwrap();
    assert_eq!(body, "{\"content_type\":\"application/pdf\",\"data\":\"JVBERi0x\",\"filename\":\"Paper.pdf\"}");
    let body = project_file_body("Paper", false, &b"PK\x03".to_vec()).unwrap();
    assert_eq!(body, "{\"content_type\":\"application/zip\",\"data\":\"UEsD\",\"filename\":\"Paper.zip\"}");
    assert_eq!(project_file_body("Paper", true, &b"PK".to_vec()).unwrap_err().status_code, 502);
}

#[test]
fn project_tasks_end_by_their_answer() {
    let ok: Result<_, overleaf_service::response::ApiResponse> = Ok(error_response(200, "x"));
    assert!(matches!(project_task_end(&ok, false), ProjectTaskEnd::Complete));
    let cancelled = Err(error_response(409, "项目操作已取消"));
    assert!(matches!(project_task_end(&cancelled, true), ProjectTaskEnd::Cancel));
    assert!(matches!(project_task_end(&cancelled, false), ProjectTaskEnd::Fail(ref m) if m == "项目操作已取消"));
    let plain = Err(overleaf_service::response::json_text_response(500, "oops".to_string()));
    assert!(matches!(project_task_end(&plain, false), ProjectTaskEnd::Fail(ref m) if m == "项目操作失败"));
}
