use overleaf_service::errors::{
    account_action_error_message, account_action_error_response, account_secret_error_response,
    account_secret_store_error_message, account_secret_store_error_response,
    account_switch_error_message, account_switch_error_response, account_switch_error_status_code,
    browser_auto_login_error_message, browser_auto_login_error_response,
    browser_profile_account_error_message, browser_profile_account_error_response,
    password_too_short_message, AccountActionError, AccountSecretError, AccountSecretStoreError,
    AccountSwitchError, BrowserAutoLoginError, BrowserProfileAccountError,
};
use overleaf_service::response::ApiResponse;

fn s(x: &str) -> String {
    x.to_string()
}

fn error_json(message: &str) -> String {
    let mut out = String::from("{\"error\":\"");
    for c in message.chars() {
        match c {
            '"' => out.push_str("\\\""),
            '\\' => out.push_str("\\\\"),
            '\n' => out.push_str("\\n"),
            _ => out.push(c),
        }
    }
    out.push_str("\"}");
    out
}

fn assert_error(r: ApiResponse, status: u16, message: &str) {
    assert_eq!(r.status_code, status);
    assert_eq!(r.body, error_json(message));
}

#[test]
fn secret_copy_errors() {
    assert_error(
        account_secret_error_response(AccountSecretError::AliasNotFound { alias: s("a") }),
        404,
        "account alias not found: a",
    );
    assert_error(
        account_secret_error_response(AccountSecretError::MissingSecret { alias: s("a"), category: s("Cookie") }),
        404,
        "Cookie not available for account alias: a",
    );
    assert_error(
        account_secret_error_response(AccountSecretError::SecretReadFailed { alias: s("a"), category: s("password") }),
        500,
        "failed to read stored password secret for account alias: a",
    );
}

#[test]
fn secret_store_errors() {
    let missing = AccountSecretStoreError::Missing { alias: s("a"), category: s("cookie") };
    assert_eq!(account_secret_store_error_message(&missing), "missing stored cookie secret for account alias: a");
    assert_error(account_secret_store_error_response(missing), 400, "missing stored cookie secret for account alias: a");
    assert_error(
        account_secret_store_error_response(AccountSecretStoreError::ReadFailed { alias: s("b"), category: s("token") }),
        500,
        "failed to read stored token secret for account alias: b",
    );
    assert_error(
        account_secret_store_error_response(AccountSecretStoreError::WriteFailed { alias: s("b"), category: s("token") }),
        500,
        "failed to write stored token secret for account alias: b",
    );
}

#[test]
fn browser_auto_login_errors() {
    let cases: Vec<(BrowserAutoLoginError, u16, &str)> = vec![
        (BrowserAutoLoginError::Io { message: s("disk") }, 500, "disk"),
        (BrowserAutoLoginError::Browser { message: s("crash") }, 503, "crash"),
        (BrowserAutoLoginError::AccountAliasNotFound { alias: s("a") }, 404, "account alias not found: a"),
        (BrowserAutoLoginError::MissingCookie { alias: s("a") }, 404, "account alias missing overleaf_session2 cookie: a"),
        (
            BrowserAutoLoginError::InvalidCookie { alias: s("a") },
            503,
            "saved Cookie is no longer authenticated for account alias: a",
        ),
        (
            BrowserAutoLoginError::MissingPassword { alias: s("a") },
            404,
            "account alias has no saved password for browser login: a",
        ),
        (
            BrowserAutoLoginError::MissingEmail { alias: s("a") },
            404,
            "account alias has no saved email for browser login: a",
        ),
        (
            BrowserAutoLoginError::SecretReadFailed { alias: s("a"), category: s("Cookie") },
            500,
            "failed to read stored Cookie secret for account alias: a",
        ),
    ];
    for (e, status, message) in cases {
        assert_eq!(browser_auto_login_error_message(&e), message);
        assert_error(browser_auto_login_error_response(e), status, message);
    }
}

#[test]
fn browser_profile_errors() {
    let cases: Vec<(BrowserProfileAccountError, u16, &str)> = vec![
        (BrowserProfileAccountError::Io { message: s("io") }, 500, "io"),
        (BrowserProfileAccountError::ExtensionBridgeUnavailable, 503, "extension bridge executor is not configured"),
        (BrowserProfileAccountError::ExtensionBridge { message: s("gone") }, 503, "gone"),
        (
            BrowserProfileAccountError::ExtensionCommandFailed { request_id: s("r1"), message: s("denied") },
            503,
            "extension get_cookie command failed for r1: denied",
        ),
        (BrowserProfileAccountError::MissingSessionCookie, 404, "current browser profile is not logged in to Overleaf"),
        (
            BrowserProfileAccountError::Session { message: s("expired") },
            503,
            "failed to verify current browser account: expired",
        ),
    ];
    for (e, status, message) in cases {
        assert_eq!(browser_profile_account_error_message(&e), message);
        assert_error(browser_profile_account_error_response(e), status, message);
    }
}

#[test]
fn account_action_errors() {
    let cases: Vec<(AccountActionError, u16, &str)> = vec![
        (AccountActionError::Io { message: s("io") }, 500, "io"),
        (AccountActionError::MissingEmail, 400, "missing email"),
        (AccountActionError::MissingPassword, 400, "missing password"),
        (AccountActionError::EmptyValue { field: s("邮箱") }, 400, "empty value: 邮箱"),
        (
            AccountActionError::AliasCountMismatch { aliases: 2, emails: 3 },
            400,
            "alias count mismatch: 2 aliases for 3 emails",
        ),
        (
            AccountActionError::PasswordCountMismatch { passwords: 4, accounts: 1 },
            400,
            "password count mismatch: 4 passwords for 1 accounts",
        ),
        (AccountActionError::PasswordTooShort { minimum: 8 }, 400, "新密码至少需要 8 位"),
        (
            AccountActionError::MultiplePasswordsForSingleAccount { passwords: 2 },
            400,
            "multiple passwords for one account: 2",
        ),
        (AccountActionError::AliasConflict { alias: s("a") }, 400, "account alias already exists: a"),
        (AccountActionError::AliasRepeatedInInput { alias: s("a") }, 400, "account alias repeated in input: a"),
        (AccountActionError::AccountAliasNotFound { alias: s("a") }, 404, "account alias not found: a"),
        (
            AccountActionError::SecretWriteFailed { alias: s("a"), category: s("password") },
            500,
            "failed to write stored password secret for account alias: a",
        ),
    ];
    for (e, status, message) in cases {
        assert_eq!(account_action_error_message(&e), message);
        assert_error(account_action_error_response(e), status, message);
    }
    assert_eq!(password_too_short_message(12), "新密码至少需要 12 位");
}

#[test]
fn account_switch_errors() {
    let cases: Vec<(AccountSwitchError, u16, &str)> = vec![
        (AccountSwitchError::Io { message: s("io") }, 500, "io"),
        (AccountSwitchError::AccountAliasNotFound { alias: s("a") }, 404, "account alias not found: a"),
        (
            AccountSwitchError::MissingSessionCookie { alias: s("a") },
            400,
            "missing overleaf session cookie for account alias: a",
        ),
        (
            AccountSwitchError::SecretReadFailed { alias: s("a"), category: s("Cookie") },
            500,
            "failed to read stored Cookie secret for account alias: a",
        ),
    ];
    for (e, status, message) in cases {
        assert_eq!(account_switch_error_message(&e), message);
        assert_eq!(account_switch_error_status_code(&e), status);
        assert_error(account_switch_error_response(e), status, message);
    }
}

#[test]
fn error_bodies_escape_quotes() {
    assert_error(
        account_action_error_response(AccountActionError::Io { message: s("bad \"path\"\\x") }),
        500,
        "bad \"path\"\\x",
    );
}
