//! The errors of operations that reach Overleaf: session checks, project
//! migration, executing an account switch, password logins, registration,
//! remote password changes and Git tokens, and the API responses they become.

use vstd::prelude::*;
use crate::errors::{
    account_switch_error_message, account_switch_error_status, account_switch_error_status_code,
    account_switch_error_text, alias_not_found_message, alias_not_found_text,
    password_too_short_message, password_too_short_text, secret_read_failed_message,
    secret_read_failed_text, secret_write_failed_message, secret_write_failed_text,
    AccountSwitchError,
};
use crate::response::{
    error_response, is_error_response, is_typed_error_response, typed_error_response, ApiResponse,
};
use crate::text::{
    concat2, concat3, concat4, concat5, concat6, decimal, join, joined, owned, usize_decimal, views,
};

verus! {

// ---------------------------------------------------------------------------
// Session checks

pub enum AccountSessionError {
    Io { message: String },
    Session { message: String },
    AccountAliasNotFound { alias: String },
    MissingCookies { alias: String },
    InvalidSessionCookie { alias: String },
    EmailMismatch { alias: String, stored_email: String, fetched_email: String },
    EmailBelongsToAnotherAlias { alias: String, email: String, existing_alias: String },
}

impl Clone for AccountSessionError {
    fn clone(&self) -> (r: Self)
        ensures
            r == *self,
    {
        match self {
            AccountSessionError::Io { message } => AccountSessionError::Io { message: message.clone() },
            AccountSessionError::Session { message } => AccountSessionError::Session { message: message.clone() },
            AccountSessionError::AccountAliasNotFound { alias } => AccountSessionError::AccountAliasNotFound { alias: alias.clone() },
            AccountSessionError::MissingCookies { alias } => AccountSessionError::MissingCookies { alias: alias.clone() },
            AccountSessionError::InvalidSessionCookie { alias } => AccountSessionError::InvalidSessionCookie { alias: alias.clone() },
            AccountSessionError::EmailMismatch { alias, stored_email, fetched_email } => AccountSessionError::EmailMismatch { alias: alias.clone(), stored_email: stored_email.clone(), fetched_email: fetched_email.clone() },
            AccountSessionError::EmailBelongsToAnotherAlias { alias, email, existing_alias } => AccountSessionError::EmailBelongsToAnotherAlias { alias: alias.clone(), email: email.clone(), existing_alias: existing_alias.clone() },
        }
    }
}

/// Errors that a user answers by pasting a new cookie or logging in again.
pub open spec fn is_invalid_session_cookie_error(e: AccountSessionError) -> bool {
    ||| e is InvalidSessionCookie
    ||| e is EmailMismatch
    ||| e is EmailBelongsToAnotherAlias
}

pub open spec fn account_session_error_status(e: AccountSessionError) -> u16 {
    match e {
        AccountSessionError::Io { .. } => 500,
        AccountSessionError::Session { .. } => 500,
        AccountSessionError::AccountAliasNotFound { .. } => 404,
        _ => 400,
    }
}

pub open spec fn account_session_error_text(e: AccountSessionError) -> Seq<char> {
    match e {
        AccountSessionError::Io { message } => message@,
        AccountSessionError::Session { message } => message@,
        AccountSessionError::AccountAliasNotFound { alias } => alias_not_found_text(alias@),
        AccountSessionError::MissingCookies { alias } => "missing cookies for account alias: "@
            + alias@,
        AccountSessionError::InvalidSessionCookie { alias } => "Cookie 无效或未登录 Overleaf，请为账号 "@
            + alias@ + " 重新粘贴 Cookie 或改用账号密码登录"@,
        AccountSessionError::EmailMismatch { alias, stored_email, fetched_email } =>
            "account email mismatch for "@ + alias@ + ": stored "@ + stored_email@ + ", fetched "@
            + fetched_email@,
        AccountSessionError::EmailBelongsToAnotherAlias { alias, email, existing_alias } =>
            "account "@ + alias@ + " cookie belongs to "@ + email@ + ", already used by "@
            + existing_alias@,
    }
}

/// The response an [`AccountSessionError`] becomes: the cookie errors are
/// typed `invalid_session_cookie` with status 400.
pub open spec fn is_account_session_error_response(r: ApiResponse, e: AccountSessionError) -> bool {
    if is_invalid_session_cookie_error(e) {
        is_typed_error_response(
            r,
            400,
            account_session_error_text(e),
            "invalid_session_cookie"@,
        )
    } else {
        is_error_response(r, account_session_error_status(e), account_session_error_text(e))
    }
}

pub fn account_session_error_message(error: &AccountSessionError) -> (r: String)
    ensures
        r@ == account_session_error_text(*error),
{
    match error {
        AccountSessionError::Io { message } => owned(message.as_str()),
        AccountSessionError::Session { message } => owned(message.as_str()),
        AccountSessionError::AccountAliasNotFound { alias } => alias_not_found_message(
            alias.as_str(),
        ),
        AccountSessionError::MissingCookies { alias } => concat2(
            "missing cookies for account alias: ",
            alias.as_str(),
        ),
        AccountSessionError::InvalidSessionCookie { alias } => concat3(
            "Cookie 无效或未登录 Overleaf，请为账号 ",
            alias.as_str(),
            " 重新粘贴 Cookie 或改用账号密码登录",
        ),
        AccountSessionError::EmailMismatch { alias, stored_email, fetched_email } => concat6(
            "account email mismatch for ",
            alias.as_str(),
            ": stored ",
            stored_email.as_str(),
            ", fetched ",
            fetched_email.as_str(),
        ),
        AccountSessionError::EmailBelongsToAnotherAlias { alias, email, existing_alias } =>
        concat6(
            "account ",
            alias.as_str(),
            " cookie belongs to ",
            email.as_str(),
            ", already used by ",
            existing_alias.as_str(),
        ),
    }
}

pub fn account_session_error_response(error: AccountSessionError) -> (r: ApiResponse)
    ensures
        is_account_session_error_response(r, error),
{
    let message = account_session_error_message(&error);
    match &error {
        AccountSessionError::InvalidSessionCookie { .. }
        | AccountSessionError::EmailMismatch { .. }
        | AccountSessionError::EmailBelongsToAnotherAlias { .. } => {
            typed_error_response(400, message.as_str(), "invalid_session_cookie")
        },
        AccountSessionError::Io { .. } | AccountSessionError::Session { .. } => error_response(
            500,
            message.as_str(),
        ),
        AccountSessionError::AccountAliasNotFound { .. } => error_response(404, message.as_str()),
        AccountSessionError::MissingCookies { .. } => error_response(400, message.as_str()),
    }
}

// ---------------------------------------------------------------------------
// Project migration

#[derive(Debug)]
pub enum ProjectMigrationError {
    Io { message: String },
    NoCurrentAccount,
    SourceEqualsTarget { alias: String },
    MissingCookies { alias: String },
    SecretReadFailed { alias: String, category: String },
    AccountAliasNotFound { alias: String },
    CsrfTokenFetchFailed { alias: String, message: String },
    ProjectListFailed { alias: String, message: String },
    AuditIncomplete { failed_count: usize, missing_count: usize },
    Cancelled,
}

pub open spec fn project_migration_error_status(e: ProjectMigrationError) -> u16 {
    match e {
        ProjectMigrationError::Io { .. } => 500,
        ProjectMigrationError::NoCurrentAccount => 400,
        ProjectMigrationError::SourceEqualsTarget { .. } => 400,
        ProjectMigrationError::MissingCookies { .. } => 400,
        ProjectMigrationError::SecretReadFailed { .. } => 500,
        ProjectMigrationError::AccountAliasNotFound { .. } => 404,
        ProjectMigrationError::Cancelled => 409,
        _ => 503,
    }
}

pub open spec fn project_migration_error_text(e: ProjectMigrationError) -> Seq<char> {
    match e {
        ProjectMigrationError::Io { message } => message@,
        ProjectMigrationError::NoCurrentAccount => "no current account selected"@,
        ProjectMigrationError::SourceEqualsTarget { alias } =>
            "source account is already target alias: "@ + alias@,
        ProjectMigrationError::AccountAliasNotFound { alias } => alias_not_found_text(alias@),
        ProjectMigrationError::MissingCookies { alias } =>
            "missing overleaf session cookie for account alias: "@ + alias@,
        ProjectMigrationError::SecretReadFailed { alias, category } => secret_read_failed_text(
            alias@,
            category@,
        ),
        ProjectMigrationError::CsrfTokenFetchFailed { alias, message } =>
            "failed to fetch csrf token for account alias "@ + alias@ + ": "@ + message@,
        ProjectMigrationError::ProjectListFailed { alias, message } =>
            "failed to list projects for account alias "@ + alias@ + ": "@ + message@,
        ProjectMigrationError::AuditIncomplete { failed_count, missing_count } =>
            "project migration audit incomplete: "@ + decimal(failed_count as nat) + " failed, "@
            + decimal(missing_count as nat) + " missing"@,
        ProjectMigrationError::Cancelled => "project migration cancelled"@,
    }
}

pub fn project_migration_error_status_code(error: &ProjectMigrationError) -> (r: u16)
    ensures
        r == project_migration_error_status(*error),
{
    match error {
        ProjectMigrationError::Io { .. } => 500,
        ProjectMigrationError::NoCurrentAccount => 400,
        ProjectMigrationError::SourceEqualsTarget { .. } => 400,
        ProjectMigrationError::MissingCookies { .. } => 400,
        ProjectMigrationError::SecretReadFailed { .. } => 500,
        ProjectMigrationError::AccountAliasNotFound { .. } => 404,
        ProjectMigrationError::Cancelled => 409,
        _ => 503,
    }
}

pub fn project_migration_error_message(error: &ProjectMigrationError) -> (r: String)
    ensures
        r@ == project_migration_error_text(*error),
{
    match error {
        ProjectMigrationError::Io { message } => owned(message.as_str()),
        ProjectMigrationError::NoCurrentAccount => owned("no current account selected"),
        ProjectMigrationError::SourceEqualsTarget { alias } => concat2(
            "source account is already target alias: ",
            alias.as_str(),
        ),
        ProjectMigrationError::AccountAliasNotFound { alias } => alias_not_found_message(
            alias.as_str(),
        ),
        ProjectMigrationError::MissingCookies { alias } => concat2(
            "missing overleaf session cookie for account alias: ",
            alias.as_str(),
        ),
        ProjectMigrationError::SecretReadFailed { alias, category } => secret_read_failed_message(
            alias.as_str(),
            category.as_str(),
        ),
        ProjectMigrationError::CsrfTokenFetchFailed { alias, message } => concat4(
            "failed to fetch csrf token for account alias ",
            alias.as_str(),
            ": ",
            message.as_str(),
        ),
        ProjectMigrationError::ProjectListFailed { alias, message } => concat4(
            "failed to list projects for account alias ",
            alias.as_str(),
            ": ",
            message.as_str(),
        ),
        ProjectMigrationError::AuditIncomplete { failed_count, missing_count } => {
            let f = usize_decimal(*failed_count);
            let m = usize_decimal(*missing_count);
            concat5(
                "project migration audit incomplete: ",
                f.as_str(),
                " failed, ",
                m.as_str(),
                " missing",
            )
        },
        ProjectMigrationError::Cancelled => owned("project migration cancelled"),
    }
}

pub fn project_migration_error_response(error: ProjectMigrationError) -> (r: ApiResponse)
    ensures
        is_error_response(
            r,
            project_migration_error_status(error),
            project_migration_error_text(error),
        ),
{
    error_response(
        project_migration_error_status_code(&error),
        project_migration_error_message(&error).as_str(),
    )
}

/// How `Debug` writes a string value: the text between double quotes, with
/// the characters that `str::escape_debug` escapes written as escapes.
pub uninterp spec fn rust_debug_str(s: Seq<char>) -> Seq<char>;

/// `format!("{:?}", s)` on a string slice; its result is named by
/// `rust_debug_str` and not otherwise stated (std's escaping rules are not
/// restated here).
#[verifier::external_body]
fn debug_quoted(s: &str) -> (r: String)
    ensures
        r@ == rust_debug_str(s@),
{
    format!("{:?}", s)
}

/// `Name { field: value, ... }`, the form a derived `Debug` gives a variant
/// with named fields; `fields` holds each `field: value` already written.
pub open spec fn debug_struct_text(name: Seq<char>, fields: Seq<Seq<char>>) -> Seq<char> {
    name + " { "@ + joined(fields, ", "@) + " }"@
}

/// A `field: "value"` entry of a string field.
pub open spec fn debug_str_field(field: Seq<char>, value: Seq<char>) -> Seq<char> {
    field + ": "@ + rust_debug_str(value)
}

/// The text the derived `Debug` of a migration error writes: the variant's
/// name and, for a variant with fields, each field's name and value, strings
/// quoted and counts in decimal.
pub open spec fn project_migration_error_debug_text(e: ProjectMigrationError) -> Seq<char> {
    match e {
        ProjectMigrationError::Io { message } => debug_struct_text(
            "Io"@,
            seq![debug_str_field("message"@, message@)],
        ),
        ProjectMigrationError::NoCurrentAccount => "NoCurrentAccount"@,
        ProjectMigrationError::SourceEqualsTarget { alias } => debug_struct_text(
            "SourceEqualsTarget"@,
            seq![debug_str_field("alias"@, alias@)],
        ),
        ProjectMigrationError::MissingCookies { alias } => debug_struct_text(
            "MissingCookies"@,
            seq![debug_str_field("alias"@, alias@)],
        ),
        ProjectMigrationError::SecretReadFailed { alias, category } => debug_struct_text(
            "SecretReadFailed"@,
            seq![debug_str_field("alias"@, alias@), debug_str_field("category"@, category@)],
        ),
        ProjectMigrationError::AccountAliasNotFound { alias } => debug_struct_text(
            "AccountAliasNotFound"@,
            seq![debug_str_field("alias"@, alias@)],
        ),
        ProjectMigrationError::CsrfTokenFetchFailed { alias, message } => debug_struct_text(
            "CsrfTokenFetchFailed"@,
            seq![debug_str_field("alias"@, alias@), debug_str_field("message"@, message@)],
        ),
        ProjectMigrationError::ProjectListFailed { alias, message } => debug_struct_text(
            "ProjectListFailed"@,
            seq![debug_str_field("alias"@, alias@), debug_str_field("message"@, message@)],
        ),
        ProjectMigrationError::AuditIncomplete { failed_count, missing_count } =>
            debug_struct_text(
            "AuditIncomplete"@,
            seq![
                "failed_count: "@ + decimal(failed_count as nat),
                "missing_count: "@ + decimal(missing_count as nat),
            ],
        ),
        ProjectMigrationError::Cancelled => "Cancelled"@,
    }
}

/// `name { a: "x" }` for one string field.
fn debug_one_field(name: &str, field: &str, value: &str) -> (r: String)
    ensures
        r@ == debug_struct_text(name@, seq![debug_str_field(field@, value@)]),
{
    let q = debug_quoted(value);
    let r = concat5(name, " { ", field, ": ", q.as_str());
    let r = concat2(r.as_str(), " }");
    proof {
        let f = debug_str_field(field@, value@);
        assert(joined(seq![f], ", "@) == f) by {
            reveal_with_fuel(joined, 2);
        }
    }
    r
}

/// `name { a: "x", b: "y" }` for two string fields.
fn debug_two_fields(name: &str, field_a: &str, a: &str, field_b: &str, b: &str) -> (r: String)
    ensures
        r@ == debug_struct_text(
            name@,
            seq![debug_str_field(field_a@, a@), debug_str_field(field_b@, b@)],
        ),
{
    let qa = debug_quoted(a);
    let qb = debug_quoted(b);
    let first = concat5(name, " { ", field_a, ": ", qa.as_str());
    let r = concat6(first.as_str(), ", ", field_b, ": ", qb.as_str(), " }");
    proof {
        let fa = debug_str_field(field_a@, a@);
        let fb = debug_str_field(field_b@, b@);
        assert(joined(seq![fa, fb], ", "@) == fa + ", "@ + fb) by {
            reveal_with_fuel(joined, 3);
            assert(seq![fa, fb].drop_last() =~= seq![fa]);
        }
    }
    r
}

/// The `Debug` text of a migration error, written as its derived `Debug`
/// writes it.
pub fn project_migration_error_debug(error: &ProjectMigrationError) -> (r: String)
    ensures
        r@ == project_migration_error_debug_text(*error),
{
    match error {
        ProjectMigrationError::Io { message } => debug_one_field("Io", "message", message.as_str()),
        ProjectMigrationError::NoCurrentAccount => owned("NoCurrentAccount"),
        ProjectMigrationError::SourceEqualsTarget { alias } => debug_one_field(
            "SourceEqualsTarget",
            "alias",
            alias.as_str(),
        ),
        ProjectMigrationError::MissingCookies { alias } => debug_one_field(
            "MissingCookies",
            "alias",
            alias.as_str(),
        ),
        ProjectMigrationError::SecretReadFailed { alias, category } => debug_two_fields(
            "SecretReadFailed",
            "alias",
            alias.as_str(),
            "category",
            category.as_str(),
        ),
        ProjectMigrationError::AccountAliasNotFound { alias } => debug_one_field(
            "AccountAliasNotFound",
            "alias",
            alias.as_str(),
        ),
        ProjectMigrationError::CsrfTokenFetchFailed { alias, message } => debug_two_fields(
            "CsrfTokenFetchFailed",
            "alias",
            alias.as_str(),
            "message",
            message.as_str(),
        ),
        ProjectMigrationError::ProjectListFailed { alias, message } => debug_two_fields(
            "ProjectListFailed",
            "alias",
            alias.as_str(),
            "message",
            message.as_str(),
        ),
        ProjectMigrationError::AuditIncomplete { failed_count, missing_count } => {
            let f = usize_decimal(*failed_count);
            let m = usize_decimal(*missing_count);
            let first = concat5("AuditIncomplete", " { ", "failed_count: ", f.as_str(), ", ");
            let r = concat4(first.as_str(), "missing_count: ", m.as_str(), " }");
            proof {
                let fa = "failed_count: "@ + decimal(*failed_count as nat);
                let fb = "missing_count: "@ + decimal(*missing_count as nat);
                assert(joined(seq![fa, fb], ", "@) == fa + ", "@ + fb) by {
                    reveal_with_fuel(joined, 3);
                    assert(seq![fa, fb].drop_last() =~= seq![fa]);
                }
            }
            r
        },
        ProjectMigrationError::Cancelled => owned("Cancelled"),
    }
}

// ---------------------------------------------------------------------------
// Executing an account switch

pub enum AccountSwitchExecutionError {
    Plan(AccountSwitchError),
    Session(AccountSessionError),
    Bridge { message: String },
    ProjectMigrationNotConfigured,
    ProjectMigration(ProjectMigrationError),
    CommandFailed { action: String, request_id: String, message: String },
}

pub open spec fn account_switch_execution_error_status(e: AccountSwitchExecutionError) -> u16 {
    match e {
        AccountSwitchExecutionError::Plan(p) => account_switch_error_status(p),
        AccountSwitchExecutionError::Session(s) => account_session_error_status(s),
        AccountSwitchExecutionError::ProjectMigration(ProjectMigrationError::Cancelled) => 409,
        _ => 503,
    }
}

pub open spec fn account_switch_execution_error_text(e: AccountSwitchExecutionError) -> Seq<
    char,
> {
    match e {
        AccountSwitchExecutionError::Plan(p) => account_switch_error_text(p),
        AccountSwitchExecutionError::Session(s) => account_session_error_text(s),
        AccountSwitchExecutionError::Bridge { message } => message@,
        AccountSwitchExecutionError::ProjectMigrationNotConfigured =>
            "project migration executor is not configured"@,
        AccountSwitchExecutionError::ProjectMigration(m) => "project migration failed: "@
            + project_migration_error_debug_text(m),
        AccountSwitchExecutionError::CommandFailed { action, request_id, message } =>
            "extension command "@ + action@ + " failed for "@ + request_id@ + ": "@ + message@,
    }
}

/// The response of a failed switch: session errors answer as sessions do.
pub open spec fn is_account_switch_execution_error_response(
    r: ApiResponse,
    e: AccountSwitchExecutionError,
) -> bool {
    match e {
        AccountSwitchExecutionError::Session(s) => is_account_session_error_response(r, s),
        _ => is_error_response(
            r,
            account_switch_execution_error_status(e),
            account_switch_execution_error_text(e),
        ),
    }
}

pub fn account_switch_execution_error_message(error: &AccountSwitchExecutionError) -> (r: String)
    ensures
        r@ == account_switch_execution_error_text(*error),
{
    match error {
        AccountSwitchExecutionError::Plan(p) => account_switch_error_message(p),
        AccountSwitchExecutionError::Session(s) => account_session_error_message(s),
        AccountSwitchExecutionError::Bridge { message } => owned(message.as_str()),
        AccountSwitchExecutionError::ProjectMigrationNotConfigured => owned(
            "project migration executor is not configured",
        ),
        AccountSwitchExecutionError::ProjectMigration(m) => {
            let d = project_migration_error_debug(m);
            concat2("project migration failed: ", d.as_str())
        },
        AccountSwitchExecutionError::CommandFailed { action, request_id, message } => concat6(
            "extension command ",
            action.as_str(),
            " failed for ",
            request_id.as_str(),
            ": ",
            message.as_str(),
        ),
    }
}

pub fn account_switch_execution_error_response(error: AccountSwitchExecutionError) -> (r:
    ApiResponse)
    ensures
        is_account_switch_execution_error_response(r, error),
{
    match error {
        AccountSwitchExecutionError::Session(s) => account_session_error_response(s),
        other => {
            let status: u16 = match &other {
                AccountSwitchExecutionError::Plan(p) => account_switch_error_status_code(p),
                AccountSwitchExecutionError::ProjectMigration(ProjectMigrationError::Cancelled) => {
                    409
                },
                _ => 503,
            };
            error_response(status, account_switch_execution_error_message(&other).as_str())
        },
    }
}

// ---------------------------------------------------------------------------
// Password logins

pub enum AccountCredentialError {
    Io { message: String },
    AccountAliasNotFound { alias: String },
    MissingEmail { alias: String },
    AliasConflict { alias: String },
    MissingSessionCookie,
    InvalidCredentials,
    ChallengeRequired,
    RobotVerificationBlocked,
    Browser { message: String },
    SessionIdentity { message: String },
    SecretWriteFailed { alias: String, category: String },
}

pub open spec fn account_credential_error_status(e: AccountCredentialError) -> u16 {
    match e {
        AccountCredentialError::Io { .. } => 500,
        AccountCredentialError::SessionIdentity { .. } => 500,
        AccountCredentialError::SecretWriteFailed { .. } => 500,
        AccountCredentialError::Browser { .. } => 503,
        AccountCredentialError::RobotVerificationBlocked => 503,
        _ => 400,
    }
}

pub open spec fn account_credential_error_text(e: AccountCredentialError) -> Seq<char> {
    match e {
        AccountCredentialError::Io { message } => message@,
        AccountCredentialError::AccountAliasNotFound { alias } => alias_not_found_text(alias@),
        AccountCredentialError::MissingEmail { alias } => "missing email for account alias: "@
            + alias@,
        AccountCredentialError::AliasConflict { alias } => "account alias already exists: "@
            + alias@,
        AccountCredentialError::MissingSessionCookie =>
            "missing overleaf session cookie after login"@,
        AccountCredentialError::InvalidCredentials => "邮箱或密码错误"@,
        AccountCredentialError::ChallengeRequired => "需要完成人机验证"@,
        AccountCredentialError::RobotVerificationBlocked => "机器人验证未通过"@,
        AccountCredentialError::Browser { message } => message@,
        AccountCredentialError::SessionIdentity { message } => message@,
        AccountCredentialError::SecretWriteFailed { alias, category } => secret_write_failed_text(
            alias@,
            category@,
        ),
    }
}

pub fn account_credential_error_message(error: &AccountCredentialError) -> (r: String)
    ensures
        r@ == account_credential_error_text(*error),
{
    match error {
        AccountCredentialError::Io { message } => owned(message.as_str()),
        AccountCredentialError::AccountAliasNotFound { alias } => alias_not_found_message(
            alias.as_str(),
        ),
        AccountCredentialError::MissingEmail { alias } => concat2(
            "missing email for account alias: ",
            alias.as_str(),
        ),
        AccountCredentialError::AliasConflict { alias } => concat2(
            "account alias already exists: ",
            alias.as_str(),
        ),
        AccountCredentialError::MissingSessionCookie => owned(
            "missing overleaf session cookie after login",
        ),
        AccountCredentialError::InvalidCredentials => owned("邮箱或密码错误"),
        AccountCredentialError::ChallengeRequired => owned("需要完成人机验证"),
        AccountCredentialError::RobotVerificationBlocked => owned("机器人验证未通过"),
        AccountCredentialError::Browser { message } => owned(message.as_str()),
        AccountCredentialError::SessionIdentity { message } => owned(message.as_str()),
        AccountCredentialError::SecretWriteFailed { alias, category } =>
            secret_write_failed_message(alias.as_str(), category.as_str()),
    }
}

pub fn account_credential_error_response(error: AccountCredentialError) -> (r: ApiResponse)
    ensures
        is_error_response(
            r,
            account_credential_error_status(error),
            account_credential_error_text(error),
        ),
{
    let status: u16 = match &error {
        AccountCredentialError::Io { .. } => 500,
        AccountCredentialError::SessionIdentity { .. } => 500,
        AccountCredentialError::SecretWriteFailed { .. } => 500,
        AccountCredentialError::Browser { .. } => 503,
        AccountCredentialError::RobotVerificationBlocked => 503,
        _ => 400,
    };
    error_response(status, account_credential_error_message(&error).as_str())
}

// ---------------------------------------------------------------------------
// Registration

pub enum AccountRegistrationError {
    Io { message: String },
    MissingEmail,
    MissingPassword,
    PasswordTooShort { minimum: usize },
    InvalidTrialDays { trial_days: u32 },
    AliasConflict { alias: String },
    AccountAliasNotFound { alias: String },
    RegisteredEmail { email: String },
    EmailCodeRequired { email: String },
    ChallengeRequired { challenge: String },
    SubscriptionMissing { alias: String },
    IncompleteArtifacts { alias: String, missing: Vec<String> },
    SessionIdentity { message: String },
    Browser { message: String },
    SecretWriteFailed { alias: String, category: String },
}

pub open spec fn account_registration_error_status(e: AccountRegistrationError) -> u16 {
    match e {
        AccountRegistrationError::Io { .. } => 500,
        AccountRegistrationError::SecretWriteFailed { .. } => 500,
        AccountRegistrationError::AccountAliasNotFound { .. } => 404,
        AccountRegistrationError::Browser { .. } => 503,
        AccountRegistrationError::IncompleteArtifacts { .. } => 503,
        AccountRegistrationError::SessionIdentity { .. } => 503,
        _ => 400,
    }
}

pub open spec fn account_registration_error_text(e: AccountRegistrationError) -> Seq<char> {
    match e {
        AccountRegistrationError::Io { message } => message@,
        AccountRegistrationError::MissingEmail => "missing email"@,
        AccountRegistrationError::MissingPassword => "missing password"@,
        AccountRegistrationError::PasswordTooShort { minimum } => password_too_short_text(
            minimum as nat,
        ),
        AccountRegistrationError::InvalidTrialDays { trial_days } =>
            "trial_days must be 7 or 21, got "@ + decimal(trial_days as nat),
        AccountRegistrationError::AliasConflict { alias } => "account alias already exists: "@
            + alias@,
        AccountRegistrationError::AccountAliasNotFound { alias } => alias_not_found_text(alias@),
        AccountRegistrationError::RegisteredEmail { email } => "email already registered: "@
            + email@,
        AccountRegistrationError::EmailCodeRequired { email } =>
            "email verification code required: "@ + email@,
        AccountRegistrationError::ChallengeRequired { challenge } =>
            "manual challenge required: "@ + challenge@,
        AccountRegistrationError::SubscriptionMissing { alias } =>
            "registration did not reach subscription success for account alias: "@ + alias@,
        AccountRegistrationError::IncompleteArtifacts { alias, missing } =>
            "registration finalization is incomplete for account alias "@ + alias@
            + ": missing "@ + joined(views(missing@), ", "@),
        AccountRegistrationError::SessionIdentity { message } => message@,
        AccountRegistrationError::Browser { message } => message@,
        AccountRegistrationError::SecretWriteFailed { alias, category } =>
            secret_write_failed_text(alias@, category@),
    }
}

pub fn account_registration_error_message(error: &AccountRegistrationError) -> (r: String)
    ensures
        r@ == account_registration_error_text(*error),
{
    match error {
        AccountRegistrationError::Io { message } => owned(message.as_str()),
        AccountRegistrationError::MissingEmail => owned("missing email"),
        AccountRegistrationError::MissingPassword => owned("missing password"),
        AccountRegistrationError::PasswordTooShort { minimum } => password_too_short_message(
            *minimum,
        ),
        AccountRegistrationError::InvalidTrialDays { trial_days } => {
            let d = crate::text::decimal_string(*trial_days as u64);
            concat2("trial_days must be 7 or 21, got ", d.as_str())
        },
        AccountRegistrationError::AliasConflict { alias } => concat2(
            "account alias already exists: ",
            alias.as_str(),
        ),
        AccountRegistrationError::AccountAliasNotFound { alias } => alias_not_found_message(
            alias.as_str(),
        ),
        AccountRegistrationError::RegisteredEmail { email } => concat2(
            "email already registered: ",
            email.as_str(),
        ),
        AccountRegistrationError::EmailCodeRequired { email } => concat2(
            "email verification code required: ",
            email.as_str(),
        ),
        AccountRegistrationError::ChallengeRequired { challenge } => concat2(
            "manual challenge required: ",
            challenge.as_str(),
        ),
        AccountRegistrationError::SubscriptionMissing { alias } => concat2(
            "registration did not reach subscription success for account alias: ",
            alias.as_str(),
        ),
        AccountRegistrationError::IncompleteArtifacts { alias, missing } => {
            let m = join(missing, ", ");
            concat4(
                "registration finalization is incomplete for account alias ",
                alias.as_str(),
                ": missing ",
                m.as_str(),
            )
        },
        AccountRegistrationError::SessionIdentity { message } => owned(message.as_str()),
        AccountRegistrationError::Browser { message } => owned(message.as_str()),
        AccountRegistrationError::SecretWriteFailed { alias, category } =>
            secret_write_failed_message(alias.as_str(), category.as_str()),
    }
}

pub fn account_registration_error_response(error: AccountRegistrationError) -> (r: ApiResponse)
    ensures
        is_error_response(
            r,
            account_registration_error_status(error),
            account_registration_error_text(error),
        ),
{
    let status: u16 = match &error {
        AccountRegistrationError::Io { .. } => 500,
        AccountRegistrationError::SecretWriteFailed { .. } => 500,
        AccountRegistrationError::AccountAliasNotFound { .. } => 404,
        AccountRegistrationError::Browser { .. } => 503,
        AccountRegistrationError::IncompleteArtifacts { .. } => 503,
        AccountRegistrationError::SessionIdentity { .. } => 503,
        _ => 400,
    };
    error_response(status, account_registration_error_message(&error).as_str())
}

// ---------------------------------------------------------------------------
// Remote password changes

pub enum OverleafPasswordChangeError {
    Io { message: String },
    AccountAliasNotFound { alias: String },
    MissingEmail { alias: String },
    MissingCurrentPassword { alias: String },
    MissingNewPassword,
    PasswordTooShort { minimum: usize },
    MissingSessionCookie,
    InvalidCredentials,
    ChallengeRequired,
    RobotVerificationBlocked,
    LoginEmailMismatch { expected: String, actual: String },
    SecretReadFailed { alias: String, category: String },
    SecretWriteFailed { alias: String, category: String },
    Browser { message: String },
}

pub open spec fn overleaf_password_change_error_text(e: OverleafPasswordChangeError) -> Seq<char> {
    match e {
        OverleafPasswordChangeError::Io { message } => message@,
        OverleafPasswordChangeError::AccountAliasNotFound { alias } => alias_not_found_text(
            alias@,
        ),
        OverleafPasswordChangeError::MissingEmail { alias } => "missing email for account alias: "@
            + alias@,
        OverleafPasswordChangeError::MissingCurrentPassword { alias } =>
            "missing current password for account alias: "@ + alias@,
        OverleafPasswordChangeError::MissingNewPassword => "missing new password"@,
        OverleafPasswordChangeError::PasswordTooShort { minimum } => password_too_short_text(
            minimum as nat,
        ),
        OverleafPasswordChangeError::MissingSessionCookie =>
            "missing overleaf session cookie after login"@,
        OverleafPasswordChangeError::InvalidCredentials => "当前密码错误"@,
        OverleafPasswordChangeError::ChallengeRequired => "需要完成人机验证"@,
        OverleafPasswordChangeError::RobotVerificationBlocked => "机器人验证未通过"@,
        OverleafPasswordChangeError::LoginEmailMismatch { expected, actual } =>
            "login email mismatch: expected "@ + expected@ + ", got "@ + actual@,
        OverleafPasswordChangeError::SecretReadFailed { alias, category } =>
            secret_read_failed_text(alias@, category@),
        OverleafPasswordChangeError::SecretWriteFailed { alias, category } =>
            secret_write_failed_text(alias@, category@),
        OverleafPasswordChangeError::Browser { message } => message@,
    }
}

pub fn overleaf_password_change_error_message(error: &OverleafPasswordChangeError) -> (r: String)
    ensures
        r@ == overleaf_password_change_error_text(*error),
{
    match error {
        OverleafPasswordChangeError::Io { message } => owned(message.as_str()),
        OverleafPasswordChangeError::AccountAliasNotFound { alias } => alias_not_found_message(
            alias.as_str(),
        ),
        OverleafPasswordChangeError::MissingEmail { alias } => concat2(
            "missing email for account alias: ",
            alias.as_str(),
        ),
        OverleafPasswordChangeError::MissingCurrentPassword { alias } => concat2(
            "missing current password for account alias: ",
            alias.as_str(),
        ),
        OverleafPasswordChangeError::MissingNewPassword => owned("missing new password"),
        OverleafPasswordChangeError::PasswordTooShort { minimum } => password_too_short_message(
            *minimum,
        ),
        OverleafPasswordChangeError::MissingSessionCookie => owned(
            "missing overleaf session cookie after login",
        ),
        OverleafPasswordChangeError::InvalidCredentials => owned("当前密码错误"),
        OverleafPasswordChangeError::ChallengeRequired => owned("需要完成人机验证"),
        OverleafPasswordChangeError::RobotVerificationBlocked => owned("机器人验证未通过"),
        OverleafPasswordChangeError::LoginEmailMismatch { expected, actual } => concat4(
            "login email mismatch: expected ",
            expected.as_str(),
            ", got ",
            actual.as_str(),
        ),
        OverleafPasswordChangeError::SecretReadFailed { alias, category } =>
            secret_read_failed_message(alias.as_str(), category.as_str()),
        OverleafPasswordChangeError::SecretWriteFailed { alias, category } =>
            secret_write_failed_message(alias.as_str(), category.as_str()),
        OverleafPasswordChangeError::Browser { message } => owned(message.as_str()),
    }
}

// ---------------------------------------------------------------------------
// Git tokens

pub enum AccountGitTokenError {
    Io { message: String },
    Session { message: String },
    Browser { message: String },
    AccountAliasNotFound { alias: String },
    MissingCookies { alias: String },
    TokenNotAvailable { alias: String },
    SecretReadFailed { alias: String, category: String },
    SecretWriteFailed { alias: String, category: String },
}

impl Clone for AccountGitTokenError {
    fn clone(&self) -> (r: Self)
        ensures
            r == *self,
    {
        match self {
            AccountGitTokenError::Io { message } => AccountGitTokenError::Io { message: message.clone() },
            AccountGitTokenError::Session { message } => AccountGitTokenError::Session { message: message.clone() },
            AccountGitTokenError::Browser { message } => AccountGitTokenError::Browser { message: message.clone() },
            AccountGitTokenError::AccountAliasNotFound { alias } => AccountGitTokenError::AccountAliasNotFound { alias: alias.clone() },
            AccountGitTokenError::MissingCookies { alias } => AccountGitTokenError::MissingCookies { alias: alias.clone() },
            AccountGitTokenError::TokenNotAvailable { alias } => AccountGitTokenError::TokenNotAvailable { alias: alias.clone() },
            AccountGitTokenError::SecretReadFailed { alias, category } => AccountGitTokenError::SecretReadFailed { alias: alias.clone(), category: category.clone() },
            AccountGitTokenError::SecretWriteFailed { alias, category } => AccountGitTokenError::SecretWriteFailed { alias: alias.clone(), category: category.clone() },
        }
    }
}

pub open spec fn account_git_token_error_status(e: AccountGitTokenError) -> u16 {
    match e {
        AccountGitTokenError::Io { .. } => 500,
        AccountGitTokenError::Session { .. } => 500,
        AccountGitTokenError::Browser { .. } => 503,
        AccountGitTokenError::AccountAliasNotFound { .. } => 404,
        AccountGitTokenError::MissingCookies { .. } => 400,
        AccountGitTokenError::TokenNotAvailable { .. } => 400,
        _ => 500,
    }
}

pub open spec fn account_git_token_error_text(e: AccountGitTokenError) -> Seq<char> {
    match e {
        AccountGitTokenError::Io { message } => message@,
        AccountGitTokenError::Session { message } => message@,
        AccountGitTokenError::Browser { message } => message@,
        AccountGitTokenError::AccountAliasNotFound { alias } => alias_not_found_text(alias@),
        AccountGitTokenError::MissingCookies { alias } => "missing cookies for account alias: "@
            + alias@,
        AccountGitTokenError::TokenNotAvailable { alias } =>
            "Git token was not available after browser generation: "@ + alias@,
        AccountGitTokenError::SecretReadFailed { alias, category } => secret_read_failed_text(
            alias@,
            category@,
        ),
        AccountGitTokenError::SecretWriteFailed { alias, category } => secret_write_failed_text(
            alias@,
            category@,
        ),
    }
}

pub fn account_git_token_error_message(error: &AccountGitTokenError) -> (r: String)
    ensures
        r@ == account_git_token_error_text(*error),
{
    match error {
        AccountGitTokenError::Io { message } => owned(message.as_str()),
        AccountGitTokenError::Session { message } => owned(message.as_str()),
        AccountGitTokenError::Browser { message } => owned(message.as_str()),
        AccountGitTokenError::AccountAliasNotFound { alias } => alias_not_found_message(
            alias.as_str(),
        ),
        AccountGitTokenError::MissingCookies { alias } => concat2(
            "missing cookies for account alias: ",
            alias.as_str(),
        ),
        AccountGitTokenError::TokenNotAvailable { alias } => concat2(
            "Git token was not available after browser generation: ",
            alias.as_str(),
        ),
        AccountGitTokenError::SecretReadFailed { alias, category } => secret_read_failed_message(
            alias.as_str(),
            category.as_str(),
        ),
        AccountGitTokenError::SecretWriteFailed { alias, category } => secret_write_failed_message(
            alias.as_str(),
            category.as_str(),
        ),
    }
}

pub fn account_git_token_error_response(error: AccountGitTokenError) -> (r: ApiResponse)
    ensures
        is_error_response(
            r,
            account_git_token_error_status(error),
            account_git_token_error_text(error),
        ),
{
    let status: u16 = match &error {
        AccountGitTokenError::Io { .. } => 500,
        AccountGitTokenError::Session { .. } => 500,
        AccountGitTokenError::Browser { .. } => 503,
        AccountGitTokenError::AccountAliasNotFound { .. } => 404,
        AccountGitTokenError::MissingCookies { .. } => 400,
        AccountGitTokenError::TokenNotAvailable { .. } => 400,
        _ => 500,
    };
    error_response(status, account_git_token_error_message(&error).as_str())
}

} // verus!
