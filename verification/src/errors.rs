//! The errors of account secrets, browser logins, local account actions,
//! account switching and project migration, and the API responses they
//! become: a status code and a message for each variant.
//!
//! A `category` is the display text of a secret category.

use vstd::prelude::*;
use crate::response::{error_response, is_error_response, is_typed_error_response, ApiResponse};
use crate::text::{concat2, concat3, concat4, concat5, concat6, decimal, owned, usize_decimal};

verus! {

/// "failed to read stored {category} secret for account alias: {alias}"
pub open spec fn secret_read_failed_text(alias: Seq<char>, category: Seq<char>) -> Seq<char> {
    "failed to read stored "@ + category + " secret for account alias: "@ + alias
}

/// "failed to write stored {category} secret for account alias: {alias}"
pub open spec fn secret_write_failed_text(alias: Seq<char>, category: Seq<char>) -> Seq<char> {
    "failed to write stored "@ + category + " secret for account alias: "@ + alias
}

/// "account alias not found: {alias}"
pub open spec fn alias_not_found_text(alias: Seq<char>) -> Seq<char> {
    "account alias not found: "@ + alias
}

pub fn secret_read_failed_message(alias: &str, category: &str) -> (r: String)
    ensures
        r@ == secret_read_failed_text(alias@, category@),
{
    concat4("failed to read stored ", category, " secret for account alias: ", alias)
}

pub fn secret_write_failed_message(alias: &str, category: &str) -> (r: String)
    ensures
        r@ == secret_write_failed_text(alias@, category@),
{
    concat4("failed to write stored ", category, " secret for account alias: ", alias)
}

pub fn alias_not_found_message(alias: &str) -> (r: String)
    ensures
        r@ == alias_not_found_text(alias@),
{
    concat2("account alias not found: ", alias)
}

// ---------------------------------------------------------------------------
// Copying a stored secret

pub enum AccountSecretError {
    AliasNotFound { alias: String },
    MissingSecret { alias: String, category: String },
    SecretReadFailed { alias: String, category: String },
}

pub open spec fn account_secret_error_status(e: AccountSecretError) -> u16 {
    match e {
        AccountSecretError::SecretReadFailed { .. } => 500,
        _ => 404,
    }
}

pub open spec fn account_secret_error_text(e: AccountSecretError) -> Seq<char> {
    match e {
        AccountSecretError::AliasNotFound { alias } => alias_not_found_text(alias@),
        AccountSecretError::MissingSecret { alias, category } => category@
            + " not available for account alias: "@ + alias@,
        AccountSecretError::SecretReadFailed { alias, category } => secret_read_failed_text(
            alias@,
            category@,
        ),
    }
}

/// The response for a secret that could not be copied.
pub fn account_secret_error_response(error: AccountSecretError) -> (r: ApiResponse)
    ensures
        is_error_response(r, account_secret_error_status(error), account_secret_error_text(error)),
{
    match &error {
        AccountSecretError::AliasNotFound { alias } => {
            error_response(404, alias_not_found_message(alias.as_str()).as_str())
        },
        AccountSecretError::MissingSecret { alias, category } => {
            let m = concat3(category.as_str(), " not available for account alias: ", alias.as_str());
            error_response(404, m.as_str())
        },
        AccountSecretError::SecretReadFailed { alias, category } => {
            error_response(
                500,
                secret_read_failed_message(alias.as_str(), category.as_str()).as_str(),
            )
        },
    }
}

// ---------------------------------------------------------------------------
// The secret store

pub enum AccountSecretStoreError {
    Missing { alias: String, category: String },
    ReadFailed { alias: String, category: String },
    WriteFailed { alias: String, category: String },
}

pub open spec fn account_secret_store_error_status(e: AccountSecretStoreError) -> u16 {
    match e {
        AccountSecretStoreError::Missing { .. } => 400,
        _ => 500,
    }
}

pub open spec fn account_secret_store_error_text(e: AccountSecretStoreError) -> Seq<char> {
    match e {
        AccountSecretStoreError::Missing { alias, category } => "missing stored "@ + category@
            + " secret for account alias: "@ + alias@,
        AccountSecretStoreError::ReadFailed { alias, category } => secret_read_failed_text(
            alias@,
            category@,
        ),
        AccountSecretStoreError::WriteFailed { alias, category } => secret_write_failed_text(
            alias@,
            category@,
        ),
    }
}

pub fn account_secret_store_error_message(error: &AccountSecretStoreError) -> (r: String)
    ensures
        r@ == account_secret_store_error_text(*error),
{
    match error {
        AccountSecretStoreError::Missing { alias, category } => concat4(
            "missing stored ",
            category.as_str(),
            " secret for account alias: ",
            alias.as_str(),
        ),
        AccountSecretStoreError::ReadFailed { alias, category } => secret_read_failed_message(
            alias.as_str(),
            category.as_str(),
        ),
        AccountSecretStoreError::WriteFailed { alias, category } => secret_write_failed_message(
            alias.as_str(),
            category.as_str(),
        ),
    }
}

pub fn account_secret_store_error_response(error: AccountSecretStoreError) -> (r: ApiResponse)
    ensures
        is_error_response(
            r,
            account_secret_store_error_status(error),
            account_secret_store_error_text(error),
        ),
{
    let status: u16 = match &error {
        AccountSecretStoreError::Missing { .. } => 400,
        _ => 500,
    };
    error_response(status, account_secret_store_error_message(&error).as_str())
}

// ---------------------------------------------------------------------------
// Opening a logged-in browser window

pub enum BrowserAutoLoginError {
    Io { message: String },
    SecretReadFailed { alias: String, category: String },
    AccountAliasNotFound { alias: String },
    MissingCookie { alias: String },
    MissingPassword { alias: String },
    MissingEmail { alias: String },
    InvalidCookie { alias: String },
    Browser { message: String },
}

impl Clone for BrowserAutoLoginError {
    fn clone(&self) -> (r: Self)
        ensures
            r == *self,
    {
        match self {
            BrowserAutoLoginError::Io { message } => BrowserAutoLoginError::Io { message: message.clone() },
            BrowserAutoLoginError::SecretReadFailed { alias, category } => BrowserAutoLoginError::SecretReadFailed { alias: alias.clone(), category: category.clone() },
            BrowserAutoLoginError::AccountAliasNotFound { alias } => BrowserAutoLoginError::AccountAliasNotFound { alias: alias.clone() },
            BrowserAutoLoginError::MissingCookie { alias } => BrowserAutoLoginError::MissingCookie { alias: alias.clone() },
            BrowserAutoLoginError::MissingPassword { alias } => BrowserAutoLoginError::MissingPassword { alias: alias.clone() },
            BrowserAutoLoginError::MissingEmail { alias } => BrowserAutoLoginError::MissingEmail { alias: alias.clone() },
            BrowserAutoLoginError::InvalidCookie { alias } => BrowserAutoLoginError::InvalidCookie { alias: alias.clone() },
            BrowserAutoLoginError::Browser { message } => BrowserAutoLoginError::Browser { message: message.clone() },
        }
    }
}

pub open spec fn browser_auto_login_error_status(e: BrowserAutoLoginError) -> u16 {
    match e {
        BrowserAutoLoginError::Io { .. } => 500,
        BrowserAutoLoginError::SecretReadFailed { .. } => 500,
        BrowserAutoLoginError::InvalidCookie { .. } => 503,
        BrowserAutoLoginError::Browser { .. } => 503,
        _ => 404,
    }
}

pub open spec fn browser_auto_login_error_text(e: BrowserAutoLoginError) -> Seq<char> {
    match e {
        BrowserAutoLoginError::Io { message } => message@,
        BrowserAutoLoginError::Browser { message } => message@,
        BrowserAutoLoginError::AccountAliasNotFound { alias } => alias_not_found_text(alias@),
        BrowserAutoLoginError::MissingCookie { alias } =>
            "account alias missing overleaf_session2 cookie: "@ + alias@,
        BrowserAutoLoginError::InvalidCookie { alias } =>
            "saved Cookie is no longer authenticated for account alias: "@ + alias@,
        BrowserAutoLoginError::MissingPassword { alias } =>
            "account alias has no saved password for browser login: "@ + alias@,
        BrowserAutoLoginError::MissingEmail { alias } =>
            "account alias has no saved email for browser login: "@ + alias@,
        BrowserAutoLoginError::SecretReadFailed { alias, category } => secret_read_failed_text(
            alias@,
            category@,
        ),
    }
}

pub fn browser_auto_login_error_message(error: &BrowserAutoLoginError) -> (r: String)
    ensures
        r@ == browser_auto_login_error_text(*error),
{
    match error {
        BrowserAutoLoginError::Io { message } => owned(message.as_str()),
        BrowserAutoLoginError::Browser { message } => owned(message.as_str()),
        BrowserAutoLoginError::AccountAliasNotFound { alias } => alias_not_found_message(
            alias.as_str(),
        ),
        BrowserAutoLoginError::MissingCookie { alias } => concat2(
            "account alias missing overleaf_session2 cookie: ",
            alias.as_str(),
        ),
        BrowserAutoLoginError::InvalidCookie { alias } => concat2(
            "saved Cookie is no longer authenticated for account alias: ",
            alias.as_str(),
        ),
        BrowserAutoLoginError::MissingPassword { alias } => concat2(
            "account alias has no saved password for browser login: ",
            alias.as_str(),
        ),
        BrowserAutoLoginError::MissingEmail { alias } => concat2(
            "account alias has no saved email for browser login: ",
            alias.as_str(),
        ),
        BrowserAutoLoginError::SecretReadFailed { alias, category } => secret_read_failed_message(
            alias.as_str(),
            category.as_str(),
        ),
    }
}

pub fn browser_auto_login_error_response(error: BrowserAutoLoginError) -> (r: ApiResponse)
    ensures
        is_error_response(
            r,
            browser_auto_login_error_status(error),
            browser_auto_login_error_text(error),
        ),
{
    let status: u16 = match &error {
        BrowserAutoLoginError::Io { .. } => 500,
        BrowserAutoLoginError::SecretReadFailed { .. } => 500,
        BrowserAutoLoginError::InvalidCookie { .. } => 503,
        BrowserAutoLoginError::Browser { .. } => 503,
        _ => 404,
    };
    error_response(status, browser_auto_login_error_message(&error).as_str())
}

// ---------------------------------------------------------------------------
// Reading the account of the current browser profile

pub enum BrowserProfileAccountError {
    Io { message: String },
    ExtensionBridgeUnavailable,
    ExtensionBridge { message: String },
    ExtensionCommandFailed { request_id: String, message: String },
    MissingSessionCookie,
    Session { message: String },
}

pub open spec fn browser_profile_account_error_status(e: BrowserProfileAccountError) -> u16 {
    match e {
        BrowserProfileAccountError::Io { .. } => 500,
        BrowserProfileAccountError::MissingSessionCookie => 404,
        _ => 503,
    }
}

pub open spec fn browser_profile_account_error_text(e: BrowserProfileAccountError) -> Seq<char> {
    match e {
        BrowserProfileAccountError::Io { message } => message@,
        BrowserProfileAccountError::ExtensionBridgeUnavailable =>
            "extension bridge executor is not configured"@,
        BrowserProfileAccountError::ExtensionBridge { message } => message@,
        BrowserProfileAccountError::ExtensionCommandFailed { request_id, message } =>
            "extension get_cookie command failed for "@ + request_id@ + ": "@ + message@,
        BrowserProfileAccountError::MissingSessionCookie =>
            "current browser profile is not logged in to Overleaf"@,
        BrowserProfileAccountError::Session { message } =>
            "failed to verify current browser account: "@ + message@,
    }
}

pub fn browser_profile_account_error_message(error: &BrowserProfileAccountError) -> (r: String)
    ensures
        r@ == browser_profile_account_error_text(*error),
{
    match error {
        BrowserProfileAccountError::Io { message } => owned(message.as_str()),
        BrowserProfileAccountError::ExtensionBridgeUnavailable => owned(
            "extension bridge executor is not configured",
        ),
        BrowserProfileAccountError::ExtensionBridge { message } => owned(message.as_str()),
        BrowserProfileAccountError::ExtensionCommandFailed { request_id, message } => concat4(
            "extension get_cookie command failed for ",
            request_id.as_str(),
            ": ",
            message.as_str(),
        ),
        BrowserProfileAccountError::MissingSessionCookie => owned(
            "current browser profile is not logged in to Overleaf",
        ),
        BrowserProfileAccountError::Session { message } => concat2(
            "failed to verify current browser account: ",
            message.as_str(),
        ),
    }
}

pub fn browser_profile_account_error_response(error: BrowserProfileAccountError) -> (r:
    ApiResponse)
    ensures
        is_error_response(
            r,
            browser_profile_account_error_status(error),
            browser_profile_account_error_text(error),
        ),
{
    let status: u16 = match &error {
        BrowserProfileAccountError::Io { .. } => 500,
        BrowserProfileAccountError::MissingSessionCookie => 404,
        _ => 503,
    };
    error_response(status, browser_profile_account_error_message(&error).as_str())
}

// ---------------------------------------------------------------------------
// Local account actions

pub enum AccountActionError {
    Io { message: String },
    MissingEmail,
    MissingPassword,
    EmptyValue { field: String },
    AliasCountMismatch { aliases: usize, emails: usize },
    PasswordCountMismatch { passwords: usize, accounts: usize },
    PasswordTooShort { minimum: usize },
    MultiplePasswordsForSingleAccount { passwords: usize },
    AliasConflict { alias: String },
    AliasRepeatedInInput { alias: String },
    AccountAliasNotFound { alias: String },
    SecretWriteFailed { alias: String, category: String },
}

pub open spec fn account_action_error_status(e: AccountActionError) -> u16 {
    match e {
        AccountActionError::Io { .. } => 500,
        AccountActionError::SecretWriteFailed { .. } => 500,
        AccountActionError::AccountAliasNotFound { .. } => 404,
        _ => 400,
    }
}

/// "新密码至少需要 {minimum} 位"
pub open spec fn password_too_short_text(minimum: nat) -> Seq<char> {
    "新密码至少需要 "@ + decimal(minimum) + " 位"@
}

pub fn password_too_short_message(minimum: usize) -> (r: String)
    ensures
        r@ == password_too_short_text(minimum as nat),
{
    let n = usize_decimal(minimum);
    concat3("新密码至少需要 ", n.as_str(), " 位")
}

pub open spec fn account_action_error_text(e: AccountActionError) -> Seq<char> {
    match e {
        AccountActionError::Io { message } => message@,
        AccountActionError::MissingEmail => "missing email"@,
        AccountActionError::MissingPassword => "missing password"@,
        AccountActionError::EmptyValue { field } => "empty value: "@ + field@,
        AccountActionError::AliasCountMismatch { aliases, emails } => "alias count mismatch: "@
            + decimal(aliases as nat) + " aliases for "@ + decimal(emails as nat) + " emails"@,
        AccountActionError::PasswordCountMismatch { passwords, accounts } =>
            "password count mismatch: "@ + decimal(passwords as nat) + " passwords for "@
            + decimal(accounts as nat) + " accounts"@,
        AccountActionError::PasswordTooShort { minimum } => password_too_short_text(
            minimum as nat,
        ),
        AccountActionError::MultiplePasswordsForSingleAccount { passwords } =>
            "multiple passwords for one account: "@ + decimal(passwords as nat),
        AccountActionError::AliasConflict { alias } => "account alias already exists: "@ + alias@,
        AccountActionError::AliasRepeatedInInput { alias } => "account alias repeated in input: "@
            + alias@,
        AccountActionError::AccountAliasNotFound { alias } => alias_not_found_text(alias@),
        AccountActionError::SecretWriteFailed { alias, category } => secret_write_failed_text(
            alias@,
            category@,
        ),
    }
}

pub fn account_action_error_message(error: &AccountActionError) -> (r: String)
    ensures
        r@ == account_action_error_text(*error),
{
    match error {
        AccountActionError::Io { message } => owned(message.as_str()),
        AccountActionError::MissingEmail => owned("missing email"),
        AccountActionError::MissingPassword => owned("missing password"),
        AccountActionError::EmptyValue { field } => concat2("empty value: ", field.as_str()),
        AccountActionError::AliasCountMismatch { aliases, emails } => {
            let a = usize_decimal(*aliases);
            let e = usize_decimal(*emails);
            concat5("alias count mismatch: ", a.as_str(), " aliases for ", e.as_str(), " emails")
        },
        AccountActionError::PasswordCountMismatch { passwords, accounts } => {
            let p = usize_decimal(*passwords);
            let a = usize_decimal(*accounts);
            concat5(
                "password count mismatch: ",
                p.as_str(),
                " passwords for ",
                a.as_str(),
                " accounts",
            )
        },
        AccountActionError::PasswordTooShort { minimum } => password_too_short_message(*minimum),
        AccountActionError::MultiplePasswordsForSingleAccount { passwords } => {
            let p = usize_decimal(*passwords);
            concat2("multiple passwords for one account: ", p.as_str())
        },
        AccountActionError::AliasConflict { alias } => concat2(
            "account alias already exists: ",
            alias.as_str(),
        ),
        AccountActionError::AliasRepeatedInInput { alias } => concat2(
            "account alias repeated in input: ",
            alias.as_str(),
        ),
        AccountActionError::AccountAliasNotFound { alias } => alias_not_found_message(
            alias.as_str(),
        ),
        AccountActionError::SecretWriteFailed { alias, category } => secret_write_failed_message(
            alias.as_str(),
            category.as_str(),
        ),
    }
}

pub fn account_action_error_response(error: AccountActionError) -> (r: ApiResponse)
    ensures
        is_error_response(r, account_action_error_status(error), account_action_error_text(error)),
{
    let status: u16 = match &error {
        AccountActionError::Io { .. } => 500,
        AccountActionError::SecretWriteFailed { .. } => 500,
        AccountActionError::AccountAliasNotFound { .. } => 404,
        _ => 400,
    };
    error_response(status, account_action_error_message(&error).as_str())
}

// ---------------------------------------------------------------------------
// Planning an account switch

pub enum AccountSwitchError {
    Io { message: String },
    AccountAliasNotFound { alias: String },
    MissingSessionCookie { alias: String },
    SecretReadFailed { alias: String, category: String },
}

pub open spec fn account_switch_error_status(e: AccountSwitchError) -> u16 {
    match e {
        AccountSwitchError::Io { .. } => 500,
        AccountSwitchError::AccountAliasNotFound { .. } => 404,
        AccountSwitchError::MissingSessionCookie { .. } => 400,
        AccountSwitchError::SecretReadFailed { .. } => 500,
    }
}

pub open spec fn account_switch_error_text(e: AccountSwitchError) -> Seq<char> {
    match e {
        AccountSwitchError::Io { message } => message@,
        AccountSwitchError::AccountAliasNotFound { alias } => alias_not_found_text(alias@),
        AccountSwitchError::MissingSessionCookie { alias } =>
            "missing overleaf session cookie for account alias: "@ + alias@,
        AccountSwitchError::SecretReadFailed { alias, category } => secret_read_failed_text(
            alias@,
            category@,
        ),
    }
}

pub fn account_switch_error_message(error: &AccountSwitchError) -> (r: String)
    ensures
        r@ == account_switch_error_text(*error),
{
    match error {
        AccountSwitchError::Io { message } => owned(message.as_str()),
        AccountSwitchError::AccountAliasNotFound { alias } => alias_not_found_message(
            alias.as_str(),
        ),
        AccountSwitchError::MissingSessionCookie { alias } => concat2(
            "missing overleaf session cookie for account alias: ",
            alias.as_str(),
        ),
        AccountSwitchError::SecretReadFailed { alias, category } => secret_read_failed_message(
            alias.as_str(),
            category.as_str(),
        ),
    }
}

pub fn account_switch_error_status_code(error: &AccountSwitchError) -> (r: u16)
    ensures
        r == account_switch_error_status(*error),
{
    match error {
        AccountSwitchError::Io { .. } => 500,
        AccountSwitchError::AccountAliasNotFound { .. } => 404,
        AccountSwitchError::MissingSessionCookie { .. } => 400,
        AccountSwitchError::SecretReadFailed { .. } => 500,
    }
}

pub fn account_switch_error_response(error: AccountSwitchError) -> (r: ApiResponse)
    ensures
        is_error_response(r, account_switch_error_status(error), account_switch_error_text(error)),
{
    error_response(
        account_switch_error_status_code(&error),
        account_switch_error_message(&error).as_str(),
    )
}

} // verus!
