//! The errors of account import and export, cards, addresses and the task
//! store, and the API responses they become.

use vstd::prelude::*;
use crate::errors::{
    alias_not_found_message, alias_not_found_text, secret_read_failed_message,
    secret_read_failed_text, secret_write_failed_message, secret_write_failed_text,
};
use crate::response::{error_response, is_error_response, ApiResponse};
use crate::tasks::{phase_debug_name, phase_debug_text, ServiceTaskPhase};
use crate::text::{concat2, concat3, concat4, concat5, decimal, decimal_string, owned, usize_decimal};

verus! {

// ---------------------------------------------------------------------------
// Account import and export

/// Errors of account import and export. The messages of `Io` and `Json`
/// arrive already passed through the task-text sanitizer.
pub enum AccountIoError {
    Io { message: String },
    Json { message: String },
    UnsupportedImportShape,
    NoAccountsSelected,
    EmptyOutputDirectory,
    AliasNotFound { alias: String },
    RefusesToOverwriteMainConfig { path: String },
    RefusesToOverwriteExistingExport { path: String },
    SecretReadFailed { alias: String, category: String },
    SecretWriteFailed { alias: String, category: String },
}

pub open spec fn account_io_error_status(e: AccountIoError) -> u16 {
    match e {
        AccountIoError::Io { .. } => 500,
        AccountIoError::SecretReadFailed { .. } => 500,
        AccountIoError::SecretWriteFailed { .. } => 500,
        AccountIoError::AliasNotFound { .. } => 404,
        _ => 400,
    }
}

pub open spec fn account_io_error_text(e: AccountIoError) -> Seq<char> {
    match e {
        AccountIoError::Io { message } => message@,
        AccountIoError::Json { message } => message@,
        AccountIoError::UnsupportedImportShape => "unsupported import shape"@,
        AccountIoError::NoAccountsSelected => "no accounts selected"@,
        AccountIoError::EmptyOutputDirectory => "empty output directory"@,
        AccountIoError::AliasNotFound { alias } => alias_not_found_text(alias@),
        AccountIoError::RefusesToOverwriteMainConfig { .. } =>
            "refuses to overwrite the main account configuration"@,
        AccountIoError::RefusesToOverwriteExistingExport { .. } =>
            "export target already exists; enable overwrite to replace it"@,
        AccountIoError::SecretReadFailed { alias, category } => secret_read_failed_text(
            alias@,
            category@,
        ),
        AccountIoError::SecretWriteFailed { alias, category } => secret_write_failed_text(
            alias@,
            category@,
        ),
    }
}

pub fn account_io_error_message(error: &AccountIoError) -> (r: String)
    ensures
        r@ == account_io_error_text(*error),
{
    match error {
        AccountIoError::Io { message } => owned(message.as_str()),
        AccountIoError::Json { message } => owned(message.as_str()),
        AccountIoError::UnsupportedImportShape => owned("unsupported import shape"),
        AccountIoError::NoAccountsSelected => owned("no accounts selected"),
        AccountIoError::EmptyOutputDirectory => owned("empty output directory"),
        AccountIoError::AliasNotFound { alias } => alias_not_found_message(alias.as_str()),
        AccountIoError::RefusesToOverwriteMainConfig { .. } => owned(
            "refuses to overwrite the main account configuration",
        ),
        AccountIoError::RefusesToOverwriteExistingExport { .. } => owned(
            "export target already exists; enable overwrite to replace it",
        ),
        AccountIoError::SecretReadFailed { alias, category } => secret_read_failed_message(
            alias.as_str(),
            category.as_str(),
        ),
        AccountIoError::SecretWriteFailed { alias, category } => secret_write_failed_message(
            alias.as_str(),
            category.as_str(),
        ),
    }
}

pub fn account_io_error_response(error: AccountIoError) -> (r: ApiResponse)
    ensures
        is_error_response(r, account_io_error_status(error), account_io_error_text(error)),
{
    let status: u16 = match &error {
        AccountIoError::Io { .. } => 500,
        AccountIoError::SecretReadFailed { .. } => 500,
        AccountIoError::SecretWriteFailed { .. } => 500,
        AccountIoError::AliasNotFound { .. } => 404,
        _ => 400,
    };
    error_response(status, account_io_error_message(&error).as_str())
}

// ---------------------------------------------------------------------------
// Cards

pub enum CardActionError {
    Io { message: String },
    InvalidFormat { message: String },
    CardNotFound { number_or_suffix: String },
    AmbiguousCardSuffix { suffix: String, matches: usize },
    SecretReadFailed { field: String },
    SecretWriteFailed { field: String },
}

pub open spec fn card_action_error_status(e: CardActionError) -> u16 {
    match e {
        CardActionError::Io { .. } => 500,
        CardActionError::SecretReadFailed { .. } => 500,
        CardActionError::SecretWriteFailed { .. } => 500,
        CardActionError::CardNotFound { .. } => 404,
        _ => 400,
    }
}

pub open spec fn card_action_error_text(e: CardActionError) -> Seq<char> {
    match e {
        CardActionError::Io { message } => message@,
        CardActionError::InvalidFormat { message } => message@,
        CardActionError::CardNotFound { number_or_suffix } => "card not found: "@
            + number_or_suffix@,
        CardActionError::AmbiguousCardSuffix { suffix, matches } => "ambiguous card suffix: "@
            + suffix@ + " matched "@ + decimal(matches as nat) + " cards"@,
        CardActionError::SecretReadFailed { field } => "failed to read card secret field: "@
            + field@,
        CardActionError::SecretWriteFailed { field } => "failed to write card secret field: "@
            + field@,
    }
}

pub fn card_action_error_message(error: &CardActionError) -> (r: String)
    ensures
        r@ == card_action_error_text(*error),
{
    match error {
        CardActionError::Io { message } => owned(message.as_str()),
        CardActionError::InvalidFormat { message } => owned(message.as_str()),
        CardActionError::CardNotFound { number_or_suffix } => concat2(
            "card not found: ",
            number_or_suffix.as_str(),
        ),
        CardActionError::AmbiguousCardSuffix { suffix, matches } => {
            let m = usize_decimal(*matches);
            concat5("ambiguous card suffix: ", suffix.as_str(), " matched ", m.as_str(), " cards")
        },
        CardActionError::SecretReadFailed { field } => concat2(
            "failed to read card secret field: ",
            field.as_str(),
        ),
        CardActionError::SecretWriteFailed { field } => concat2(
            "failed to write card secret field: ",
            field.as_str(),
        ),
    }
}

pub fn card_action_error_response(error: CardActionError) -> (r: ApiResponse)
    ensures
        is_error_response(r, card_action_error_status(error), card_action_error_text(error)),
{
    let status: u16 = match &error {
        CardActionError::Io { .. } => 500,
        CardActionError::SecretReadFailed { .. } => 500,
        CardActionError::SecretWriteFailed { .. } => 500,
        CardActionError::CardNotFound { .. } => 404,
        _ => 400,
    };
    error_response(status, card_action_error_message(&error).as_str())
}

// ---------------------------------------------------------------------------
// Addresses

pub enum AddressActionError {
    Io { message: String },
    Json { message: String },
    Network { message: String },
    InvalidApiResponse,
    MissingRequiredFields,
    EmptyAddressBook,
    AddressIndexOutOfRange { index: usize, len: usize },
    AddressUnavailable { api_message: String, fallback_message: String },
}

pub open spec fn address_action_error_status(e: AddressActionError) -> u16 {
    match e {
        AddressActionError::Io { .. } => 500,
        AddressActionError::Network { .. } => 503,
        AddressActionError::AddressIndexOutOfRange { .. } => 404,
        _ => 400,
    }
}

pub open spec fn address_action_error_text(e: AddressActionError) -> Seq<char> {
    match e {
        AddressActionError::Io { message } => message@,
        AddressActionError::Json { message } => message@,
        AddressActionError::Network { message } => message@,
        AddressActionError::InvalidApiResponse => "invalid address api response"@,
        AddressActionError::MissingRequiredFields => "missing required address fields"@,
        AddressActionError::EmptyAddressBook => "empty address book"@,
        AddressActionError::AddressIndexOutOfRange { index, len } =>
            "address index out of range: "@ + decimal(index as nat) + " for "@ + decimal(
                len as nat,
            ) + " addresses"@,
        AddressActionError::AddressUnavailable { api_message, fallback_message } =>
            "address API failed: "@ + api_message@ + "; fallback failed: "@ + fallback_message@,
    }
}

pub fn address_action_error_message(error: &AddressActionError) -> (r: String)
    ensures
        r@ == address_action_error_text(*error),
{
    match error {
        AddressActionError::Io { message } => owned(message.as_str()),
        AddressActionError::Json { message } => owned(message.as_str()),
        AddressActionError::Network { message } => owned(message.as_str()),
        AddressActionError::InvalidApiResponse => owned("invalid address api response"),
        AddressActionError::MissingRequiredFields => owned("missing required address fields"),
        AddressActionError::EmptyAddressBook => owned("empty address book"),
        AddressActionError::AddressIndexOutOfRange { index, len } => {
            let i = usize_decimal(*index);
            let l = usize_decimal(*len);
            concat5("address index out of range: ", i.as_str(), " for ", l.as_str(), " addresses")
        },
        AddressActionError::AddressUnavailable { api_message, fallback_message } => concat4(
            "address API failed: ",
            api_message.as_str(),
            "; fallback failed: ",
            fallback_message.as_str(),
        ),
    }
}

pub fn address_action_error_response(error: AddressActionError) -> (r: ApiResponse)
    ensures
        is_error_response(r, address_action_error_status(error), address_action_error_text(error)),
{
    let status: u16 = match &error {
        AddressActionError::Io { .. } => 500,
        AddressActionError::Network { .. } => 503,
        AddressActionError::AddressIndexOutOfRange { .. } => 404,
        _ => 400,
    };
    error_response(status, address_action_error_message(&error).as_str())
}

// ---------------------------------------------------------------------------
// The task store

pub enum TaskStateError {
    TaskAlreadyExists { task_id: String },
    TaskNotFound { task_id: String },
    InvalidProgress { current: u32, total: u32 },
    InvalidUserInput { message: String },
    AccountAlreadyLocked { alias: String, task_id: String },
    TerminalTask { task_id: String, phase: ServiceTaskPhase },
}

pub open spec fn task_state_error_status(e: TaskStateError) -> u16 {
    match e {
        TaskStateError::TaskNotFound { .. } => 404,
        _ => 400,
    }
}

pub open spec fn task_state_error_text(e: TaskStateError) -> Seq<char> {
    match e {
        TaskStateError::TaskAlreadyExists { task_id } => "task already exists: "@ + task_id@,
        TaskStateError::TaskNotFound { task_id } => "task not found: "@ + task_id@,
        TaskStateError::InvalidProgress { current, total } => "invalid task progress: "@
            + decimal(current as nat) + "/"@ + decimal(total as nat),
        TaskStateError::InvalidUserInput { message } => message@,
        TaskStateError::AccountAlreadyLocked { alias, task_id } =>
            "account alias locked by task "@ + task_id@ + ": "@ + alias@,
        TaskStateError::TerminalTask { task_id, phase } => "task already terminal: "@ + task_id@
            + " ("@ + phase_debug_text(phase) + ")"@,
    }
}

pub fn task_state_error_message(error: &TaskStateError) -> (r: String)
    ensures
        r@ == task_state_error_text(*error),
{
    match error {
        TaskStateError::TaskAlreadyExists { task_id } => concat2(
            "task already exists: ",
            task_id.as_str(),
        ),
        TaskStateError::TaskNotFound { task_id } => concat2("task not found: ", task_id.as_str()),
        TaskStateError::InvalidProgress { current, total } => {
            let c = decimal_string(*current as u64);
            let t = decimal_string(*total as u64);
            concat4("invalid task progress: ", c.as_str(), "/", t.as_str())
        },
        TaskStateError::InvalidUserInput { message } => owned(message.as_str()),
        TaskStateError::AccountAlreadyLocked { alias, task_id } => concat4(
            "account alias locked by task ",
            task_id.as_str(),
            ": ",
            alias.as_str(),
        ),
        TaskStateError::TerminalTask { task_id, phase } => concat5(
            "task already terminal: ",
            task_id.as_str(),
            " (",
            phase_debug_name(*phase),
            ")",
        ),
    }
}

/// The answer to a refused task operation: 404 for an unknown task and 400
/// for every other refusal, a lock held by another task included (the
/// advertised `conflict_status` of 409 is not what this mapping answers).
pub fn task_state_error_response(error: TaskStateError) -> (r: ApiResponse)
    ensures
        is_error_response(r, task_state_error_status(error), task_state_error_text(error)),
{
    let status: u16 = match &error {
        TaskStateError::TaskNotFound { .. } => 404,
        _ => 400,
    };
    error_response(status, task_state_error_message(&error).as_str())
}

} // verus!
