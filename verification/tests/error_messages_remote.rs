use overleaf_service::errors::AccountSwitchError;
use overleaf_service::errors_remote::{
    account_credential_error_message, account_credential_error_response,
    account_git_token_error_message, account_git_token_error_response,
    account_registration_error_message, account_registration_error_response,
    account_session_error_message, account_session_error_response,
    account_switch_execution_error_message, account_switch_execution_error_response,
    overleaf_password_change_error_message, project_migration_error_debug,
    project_migration_error_message,
    project_migration_error_response, project_migration_error_status_code, AccountCredentialError,
    AccountGitTokenError, AccountRegistrationError, AccountSessionError,
    AccountSwitchExecutionError, OverleafPasswordChangeError, ProjectMigrationError,
};
use overleaf_service::errors_store::{
    account_io_error_message, account_io_error_response, address_action_error_message,
    address_action_error_response, card_action_error_message, card_action_error_response,
    task_state_error_message, task_state_error_response, AccountIoError, AddressActionError,
    CardActionError, TaskStateError,
};
use overleaf_service::json::json_string;
use overleaf_service::response::{
    escape_json_string, io_error_response, method_not_allowed_response, ApiResponse,
};
use overleaf_service::tasks::ServiceTaskPhase;

fn s(x: &str) -> String {
    x.to_string()
}

fn assert_error(r: ApiResponse, status: u16, message: &str) {
    assert_eq!(r.status_code, status);
    assert_eq!(r.body, format!("{{\"error\":{}}}", json_string(message)));
}

#[test]
fn session_errors() {
    let plain: Vec<(AccountSessionError, u16, &str)> = vec![
        (AccountSessionError::Io { message: s("io") }, 500, "io"),
        (AccountSessionError::Session { message: s("bad") }, 500, "bad"),
        (AccountSessionError::AccountAliasNotFound { alias: s("a") }, 404, "account alias not found: a"),
        (AccountSessionError::MissingCookies { alias: s("a") }, 400, "missing cookies for account alias: a"),
    ];
    for (e, status, message) in plain {
        assert_eq!(account_session_error_message(&e), message);
        assert_error(account_session_error_response(e), status, message);
    }
    let typed: Vec<(AccountSessionError, String)> = vec![
        (
            AccountSessionError::InvalidSessionCookie { alias: s("a") },
            s("Cookie 无效或未登录 Overleaf，请为账号 a 重新粘贴 Cookie 或改用账号密码登录"),
        ),
        (
            AccountSessionError::EmailMismatch { alias: s("a"), stored_email: s("x@y"), fetched_email: s("z@y") },
            s("account email mismatch for a: stored x@y, fetched z@y"),
        ),
        (
            AccountSessionError::EmailBelongsToAnotherAlias { alias: s("a"), email: s("x@y"), existing_alias: s("b") },
            s("account a cookie belongs to x@y, already used by b"),
        ),
    ];
    for (e, message) in typed {
        assert_eq!(account_session_error_message(&e), message);
        let r = account_session_error_response(e);
        assert_eq!(r.status_code, 400);
        assert_eq!(
            r.body,
            format!("{{\"error\":{},\"kind\":\"invalid_session_cookie\"}}", json_string(&message))
        );
    }
}

#[test]
fn project_migration_errors() {
    let cases: Vec<(ProjectMigrationError, u16, &str)> = vec![
        (ProjectMigrationError::Io { message: s("io") }, 500, "io"),
        (ProjectMigrationError::NoCurrentAccount, 400, "no current account selected"),
        (ProjectMigrationError::SourceEqualsTarget { alias: s("a") }, 400, "source account is already target alias: a"),
        (ProjectMigrationError::MissingCookies { alias: s("a") }, 400, "missing overleaf session cookie for account alias: a"),
        (
            ProjectMigrationError::SecretReadFailed { alias: s("a"), category: s("Cookie") },
            500,
            "failed to read stored Cookie secret for account alias: a",
        ),
        (ProjectMigrationError::AccountAliasNotFound { alias: s("a") }, 404, "account alias not found: a"),
        (
            ProjectMigrationError::CsrfTokenFetchFailed { alias: s("a"), message: s("403") },
            503,
            "failed to fetch csrf token for account alias a: 403",
        ),
        (
            ProjectMigrationError::ProjectListFailed { alias: s("a"), message: s("timeout") },
            503,
            "failed to list projects for account alias a: timeout",
        ),
        (
            ProjectMigrationError::AuditIncomplete { failed_count: 2, missing_count: 1 },
            503,
            "project migration audit incomplete: 2 failed, 1 missing",
        ),
        (ProjectMigrationError::Cancelled, 409, "project migration cancelled"),
    ];
    for (e, status, message) in cases {
        assert_eq!(project_migration_error_message(&e), message);
        assert_eq!(project_migration_error_status_code(&e), status);
        assert_error(project_migration_error_response(e), status, message);
    }
}

#[test]
fn switch_execution_errors() {
    let e = AccountSwitchExecutionError::Plan(AccountSwitchError::AccountAliasNotFound { alias: s("a") });
    assert_eq!(account_switch_execution_error_message(&e), "account alias not found: a");
    assert_error(account_switch_execution_error_response(e), 404, "account alias not found: a");
    let e = AccountSwitchExecutionError::Bridge { message: s("offline") };
    assert_error(account_switch_execution_error_response(e), 503, "offline");
    let e = AccountSwitchExecutionError::ProjectMigrationNotConfigured;
    assert_error(account_switch_execution_error_response(e), 503, "project migration executor is not configured");
    let e = AccountSwitchExecutionError::CommandFailed { action: s("set_cookie"), request_id: s("r9"), message: s("no tab") };
    assert_error(account_switch_execution_error_response(e), 503, "extension command set_cookie failed for r9: no tab");
    let e = AccountSwitchExecutionError::Session(AccountSessionError::InvalidSessionCookie { alias: s("a") });
    let r = account_switch_execution_error_response(e);
    assert_eq!(r.status_code, 400);
    assert!(r.body.ends_with(",\"kind\":\"invalid_session_cookie\"}"));
    let r = account_switch_execution_error_response(AccountSwitchExecutionError::ProjectMigration(ProjectMigrationError::Cancelled));
    assert_eq!(r.status_code, 409);
    let r = account_switch_execution_error_response(AccountSwitchExecutionError::ProjectMigration(ProjectMigrationError::NoCurrentAccount));
    assert_eq!(r.status_code, 503);
}

#[test]
fn credential_errors() {
    let cases: Vec<(AccountCredentialError, u16, &str)> = vec![
        (AccountCredentialError::Io { message: s("io") }, 500, "io"),
        (AccountCredentialError::AccountAliasNotFound { alias: s("a") }, 400, "account alias not found: a"),
        (AccountCredentialError::MissingEmail { alias: s("a") }, 400, "missing email for account alias: a"),
        (AccountCredentialError::AliasConflict { alias: s("a") }, 400, "account alias already exists: a"),
        (AccountCredentialError::MissingSessionCookie, 400, "missing overleaf session cookie after login"),
        (AccountCredentialError::InvalidCredentials, 400, "邮箱或密码错误"),
        (AccountCredentialError::ChallengeRequired, 400, "需要完成人机验证"),
        (AccountCredentialError::RobotVerificationBlocked, 503, "机器人验证未通过"),
        (AccountCredentialError::Browser { message: s("crash") }, 503, "crash"),
        (AccountCredentialError::SessionIdentity { message: s("who") }, 500, "who"),
        (
            AccountCredentialError::SecretWriteFailed { alias: s("a"), category: s("password") },
            500,
            "failed to write stored password secret for account alias: a",
        ),
    ];
    for (e, status, message) in cases {
        assert_eq!(account_credential_error_message(&e), message);
        assert_error(account_credential_error_response(e), status, message);
    }
}

#[test]
fn registration_errors() {
    let cases: Vec<(AccountRegistrationError, u16, &str)> = vec![
        (AccountRegistrationError::Io { message: s("io") }, 500, "io"),
        (AccountRegistrationError::MissingEmail, 400, "missing email"),
        (AccountRegistrationError::MissingPassword, 400, "missing password"),
        (AccountRegistrationError::PasswordTooShort { minimum: 8 }, 400, "新密码至少需要 8 位"),
        (AccountRegistrationError::InvalidTrialDays { trial_days: 9 }, 400, "trial_days must be 7 or 21, got 9"),
        (AccountRegistrationError::AliasConflict { alias: s("a") }, 400, "account alias already exists: a"),
        (AccountRegistrationError::AccountAliasNotFound { alias: s("a") }, 404, "account alias not found: a"),
        (AccountRegistrationError::RegisteredEmail { email: s("x@y") }, 400, "email already registered: x@y"),
        (AccountRegistrationError::EmailCodeRequired { email: s("x@y") }, 400, "email verification code required: x@y"),
        (AccountRegistrationError::ChallengeRequired { challenge: s("captcha") }, 400, "manual challenge required: captcha"),
        (
            AccountRegistrationError::SubscriptionMissing { alias: s("a") },
            400,
            "registration did not reach subscription success for account alias: a",
        ),
        (AccountRegistrationError::SessionIdentity { message: s("who") }, 503, "who"),
        (AccountRegistrationError::Browser { message: s("crash") }, 503, "crash"),
        (
            AccountRegistrationError::SecretWriteFailed { alias: s("a"), category: s("Cookie") },
            500,
            "failed to write stored Cookie secret for account alias: a",
        ),
    ];
    for (e, status, message) in cases {
        assert_eq!(account_registration_error_message(&e), message);
        assert_error(account_registration_error_response(e), status, message);
    }
    let e = AccountRegistrationError::IncompleteArtifacts { alias: s("a"), missing: vec![s("cookie"), s("git_token")] };
    let m = "registration finalization is incomplete for account alias a: missing cookie, git_token";
    assert_eq!(account_registration_error_message(&e), m);
    assert_error(account_registration_error_response(e), 503, m);
}

#[test]
fn password_change_errors() {
    let cases: Vec<(OverleafPasswordChangeError, &str)> = vec![
        (OverleafPasswordChangeError::Io { message: s("io") }, "io"),
        (OverleafPasswordChangeError::AccountAliasNotFound { alias: s("a") }, "account alias not found: a"),
        (OverleafPasswordChangeError::MissingEmail { alias: s("a") }, "missing email for account alias: a"),
        (
            OverleafPasswordChangeError::MissingCurrentPassword { alias: s("a") },
            "missing current password for account alias: a",
        ),
        (OverleafPasswordChangeError::MissingNewPassword, "missing new password"),
        (OverleafPasswordChangeError::PasswordTooShort { minimum: 10 }, "新密码至少需要 10 位"),
        (OverleafPasswordChangeError::MissingSessionCookie, "missing overleaf session cookie after login"),
        (OverleafPasswordChangeError::InvalidCredentials, "当前密码错误"),
        (OverleafPasswordChangeError::ChallengeRequired, "需要完成人机验证"),
        (OverleafPasswordChangeError::RobotVerificationBlocked, "机器人验证未通过"),
        (
            OverleafPasswordChangeError::LoginEmailMismatch { expected: s("a@x"), actual: s("b@x") },
            "login email mismatch: expected a@x, got b@x",
        ),
        (
            OverleafPasswordChangeError::SecretReadFailed { alias: s("a"), category: s("password") },
            "failed to read stored password secret for account alias: a",
        ),
        (
            OverleafPasswordChangeError::SecretWriteFailed { alias: s("a"), category: s("password") },
            "failed to write stored password secret for account alias: a",
        ),
        (OverleafPasswordChangeError::Browser { message: s("crash") }, "crash"),
    ];
    for (e, message) in cases {
        assert_eq!(overleaf_password_change_error_message(&e), message);
    }
}

#[test]
fn git_token_errors() {
    let cases: Vec<(AccountGitTokenError, u16, &str)> = vec![
        (AccountGitTokenError::Io { message: s("io") }, 500, "io"),
        (AccountGitTokenError::Session { message: s("s") }, 500, "s"),
        (AccountGitTokenError::Browser { message: s("b") }, 503, "b"),
        (AccountGitTokenError::AccountAliasNotFound { alias: s("a") }, 404, "account alias not found: a"),
        (AccountGitTokenError::MissingCookies { alias: s("a") }, 400, "missing cookies for account alias: a"),
        (
            AccountGitTokenError::TokenNotAvailable { alias: s("a") },
            400,
            "Git token was not available after browser generation: a",
        ),
        (
            AccountGitTokenError::SecretReadFailed { alias: s("a"), category: s("Git token") },
            500,
            "failed to read stored Git token secret for account alias: a",
        ),
        (
            AccountGitTokenError::SecretWriteFailed { alias: s("a"), category: s("Git token") },
            500,
            "failed to write stored Git token secret for account alias: a",
        ),
    ];
    for (e, status, message) in cases {
        assert_eq!(account_git_token_error_message(&e), message);
        assert_error(account_git_token_error_response(e), status, message);
    }
}

#[test]
fn import_export_errors() {
    let cases: Vec<(AccountIoError, u16, &str)> = vec![
        (AccountIoError::Io { message: s("io") }, 500, "io"),
        (AccountIoError::Json { message: s("bad json") }, 400, "bad json"),
        (AccountIoError::UnsupportedImportShape, 400, "unsupported import shape"),
        (AccountIoError::NoAccountsSelected, 400, "no accounts selected"),
        (AccountIoError::EmptyOutputDirectory, 400, "empty output directory"),
        (AccountIoError::AliasNotFound { alias: s("a") }, 404, "account alias not found: a"),
        (
            AccountIoError::RefusesToOverwriteMainConfig { path: s("/x") },
            400,
            "refuses to overwrite the main account configuration",
        ),
        (
            AccountIoError::RefusesToOverwriteExistingExport { path: s("/y") },
            400,
            "export target already exists; enable overwrite to replace it",
        ),
        (
            AccountIoError::SecretReadFailed { alias: s("a"), category: s("Cookie") },
            500,
            "failed to read stored Cookie secret for account alias: a",
        ),
        (
            AccountIoError::SecretWriteFailed { alias: s("a"), category: s("Cookie") },
            500,
            "failed to write stored Cookie secret for account alias: a",
        ),
    ];
    for (e, status, message) in cases {
        assert_eq!(account_io_error_message(&e), message);
        assert_error(account_io_error_response(e), status, message);
    }
}

#[test]
fn card_and_address_errors() {
    let cards: Vec<(CardActionError, u16, &str)> = vec![
        (CardActionError::Io { message: s("io") }, 500, "io"),
        (CardActionError::InvalidFormat { message: s("bad card") }, 400, "bad card"),
        (CardActionError::CardNotFound { number_or_suffix: s("1234") }, 404, "card not found: 1234"),
        (
            CardActionError::AmbiguousCardSuffix { suffix: s("12"), matches: 3 },
            400,
            "ambiguous card suffix: 12 matched 3 cards",
        ),
        (CardActionError::SecretReadFailed { field: s("cvv") }, 500, "failed to read card secret field: cvv"),
        (CardActionError::SecretWriteFailed { field: s("cvv") }, 500, "failed to write card secret field: cvv"),
    ];
    for (e, status, message) in cards {
        assert_eq!(card_action_error_message(&e), message);
        assert_error(card_action_error_response(e), status, message);
    }
    let addresses: Vec<(AddressActionError, u16, &str)> = vec![
        (AddressActionError::Io { message: s("io") }, 500, "io"),
        (AddressActionError::Json { message: s("json") }, 400, "json"),
        (AddressActionError::Network { message: s("net") }, 503, "net"),
        (AddressActionError::InvalidApiResponse, 400, "invalid address api response"),
        (AddressActionError::MissingRequiredFields, 400, "missing required address fields"),
        (AddressActionError::EmptyAddressBook, 400, "empty address book"),
        (
            AddressActionError::AddressIndexOutOfRange { index: 5, len: 2 },
            404,
            "address index out of range: 5 for 2 addresses",
        ),
        (
            AddressActionError::AddressUnavailable { api_message: s("down"), fallback_message: s("empty") },
            400,
            "address API failed: down; fallback failed: empty",
        ),
    ];
    for (e, status, message) in addresses {
        assert_eq!(address_action_error_message(&e), message);
        assert_error(address_action_error_response(e), status, message);
    }
}

#[test]
fn task_store_errors() {
    let cases: Vec<(TaskStateError, u16, &str)> = vec![
        (TaskStateError::TaskAlreadyExists { task_id: s("t") }, 400, "task already exists: t"),
        (TaskStateError::TaskNotFound { task_id: s("t") }, 404, "task not found: t"),
        (TaskStateError::InvalidProgress { current: 3, total: 2 }, 400, "invalid task progress: 3/2"),
        (TaskStateError::InvalidUserInput { message: s("bad input") }, 400, "bad input"),
        (
            TaskStateError::AccountAlreadyLocked { alias: s("a"), task_id: s("t") },
            400,
            "account alias locked by task t: a",
        ),
        (
            TaskStateError::TerminalTask { task_id: s("t"), phase: ServiceTaskPhase::Completed },
            400,
            "task already terminal: t (Completed)",
        ),
    ];
    for (e, status, message) in cases {
        assert_eq!(task_state_error_message(&e), message);
        assert_error(task_state_error_response(e), status, message);
    }
}

#[test]
fn plain_responses() {
    assert_error(method_not_allowed_response(), 405, "method not allowed");
    assert_error(io_error_response("disk full"), 500, "disk full");
    assert_eq!(escape_json_string("a\\b\"c"), "a\\\\b\\\"c");
    assert_eq!(json_string("a\"b\n"), "\"a\\\"b\\n\"");
}

#[test]
fn project_migration_error_debug_texts() {
    let cases: Vec<(ProjectMigrationError, &str)> = vec![
        (ProjectMigrationError::Io { message: s("disk") }, "Io { message: \"disk\" }"),
        (ProjectMigrationError::NoCurrentAccount, "NoCurrentAccount"),
        (ProjectMigrationError::SourceEqualsTarget { alias: s("a") }, "SourceEqualsTarget { alias: \"a\" }"),
        (ProjectMigrationError::MissingCookies { alias: s("a\"b") }, "MissingCookies { alias: \"a\\\"b\" }"),
        (
            ProjectMigrationError::SecretReadFailed { alias: s("a"), category: s("Cookie") },
            "SecretReadFailed { alias: \"a\", category: \"Cookie\" }",
        ),
        (ProjectMigrationError::AccountAliasNotFound { alias: s("a") }, "AccountAliasNotFound { alias: \"a\" }"),
        (
            ProjectMigrationError::CsrfTokenFetchFailed { alias: s("a"), message: s("403") },
            "CsrfTokenFetchFailed { alias: \"a\", message: \"403\" }",
        ),
        (
            ProjectMigrationError::ProjectListFailed { alias: s("a"), message: s("x\ny") },
            "ProjectListFailed { alias: \"a\", message: \"x\\ny\" }",
        ),
        (
            ProjectMigrationError::AuditIncomplete { failed_count: 2, missing_count: 10 },
            "AuditIncomplete { failed_count: 2, missing_count: 10 }",
        ),
        (ProjectMigrationError::Cancelled, "Cancelled"),
    ];
    for (error, expected) in cases {
        assert_eq!(project_migration_error_debug(&error), expected);
        assert_eq!(project_migration_error_debug(&error), format!("{:?}", error));
    }
}

#[test]
fn switch_execution_migration_failure_message_uses_debug_text() {
    let e = AccountSwitchExecutionError::ProjectMigration(ProjectMigrationError::Cancelled);
    assert_eq!(account_switch_execution_error_message(&e), "project migration failed: Cancelled");
    let e = AccountSwitchExecutionError::ProjectMigration(ProjectMigrationError::MissingCookies {
        alias: s("work"),
    });
    assert_eq!(
        account_switch_execution_error_message(&e),
        "project migration failed: MissingCookies { alias: \"work\" }"
    );
}

#[test]
fn quoted_texts_parse_back_as_the_text() {
    for text in ["plain", "a \"quoted\" word", "back\\slash", "账号 \\ \"x\"", ""] {
        let literal = format!("\"{}\"", escape_json_string(text));
        assert_eq!(serde_json::from_str::<String>(&literal).unwrap(), text);
    }
    for text in ["line\nbreak\ttab", "\u{1}\u{1f}", "é\"\\/"] {
        assert_eq!(serde_json::from_str::<String>(&json_string(text)).unwrap(), text);
    }
}
