//! How tracked tasks end: batches complete when no account failed and fail
//! with a count otherwise, and registration errors that the user can answer
//! leave the task waiting instead of failing it.

use vstd::prelude::*;
use crate::credential::{
    git_token_batch_failure_prefix_text, git_token_batch_success_text, CredentialBrowserOperation,
};
use crate::errors_remote::{
    account_registration_error_message, account_registration_error_response,
    account_registration_error_status, account_registration_error_text, AccountRegistrationError,
};
use crate::response::{is_error_response, ApiResponse};
use crate::text::{concat2, concat3, decimal, owned, usize_decimal};

verus! {

/// How a batch task ends.
pub enum BatchTaskEnd {
    Complete(String),
    /// Fail the task, keeping the report as its result.
    Fail(String),
}

pub open spec fn end_view(e: BatchTaskEnd) -> (bool, Seq<char>) {
    match e {
        BatchTaskEnd::Complete(m) => (true, m@),
        BatchTaskEnd::Fail(m) => (false, m@),
    }
}

/// A credential batch of `operation`: `<operation>完成`, or
/// `<operation>未完全完成：<n> 个账号失败`.
pub fn credential_batch_task_end(operation: &str, failed_count: usize) -> (r: BatchTaskEnd)
    ensures
        end_view(r) == if failed_count == 0 {
            (true, operation@ + "完成"@)
        } else {
            (false, operation@ + "未完全完成："@ + decimal(failed_count as nat) + " 个账号失败"@)
        },
{
    if failed_count == 0 {
        BatchTaskEnd::Complete(concat2(operation, "完成"))
    } else {
        let head = concat3(operation, "未完全完成：", usize_decimal(failed_count).as_str());
        BatchTaskEnd::Fail(concat2(head.as_str(), " 个账号失败"))
    }
}

/// A remote password change batch.
pub fn password_change_batch_task_end(failed_count: usize) -> (r: BatchTaskEnd)
    ensures
        end_view(r) == if failed_count == 0 {
            (true, "Overleaf 密码修改流程完成"@)
        } else {
            (false, "Overleaf 密码修改未完全完成："@ + decimal(failed_count as nat) + " 个账号失败"@)
        },
{
    if failed_count == 0 {
        BatchTaskEnd::Complete(owned("Overleaf 密码修改流程完成"))
    } else {
        BatchTaskEnd::Fail(concat3("Overleaf 密码修改未完全完成：", usize_decimal(failed_count).as_str(), " 个账号失败"))
    }
}

/// A Git token batch of `operation`.
pub fn git_token_batch_task_end(operation: CredentialBrowserOperation, failed_count: usize) -> (r: BatchTaskEnd)
    ensures
        end_view(r) == if failed_count == 0 {
            (true, git_token_batch_success_text(operation))
        } else {
            (false, git_token_batch_failure_prefix_text(operation) + "："@ + decimal(failed_count as nat) + " 个账号失败"@)
        },
{
    if failed_count == 0 {
        BatchTaskEnd::Complete(owned(operation.git_token_batch_success_message()))
    } else {
        let head = concat3(operation.git_token_batch_failure_prefix(), "：", usize_decimal(failed_count).as_str());
        BatchTaskEnd::Fail(concat2(head.as_str(), " 个账号失败"))
    }
}

/// The progress total a finished task is set to: the total it has, or 1,
/// and never 0.
pub fn completion_progress_total(progress_total: Option<u32>) -> (r: u32)
    ensures
        r == match progress_total {
            Some(t) => if t == 0 { 1 } else { t },
            None => 1,
        },
{
    match progress_total {
        Some(t) => if t == 0 { 1 } else { t },
        None => 1,
    }
}

/// What a registration error does to the task.
pub enum RegistrationErrorAction {
    /// The address is registered already: wait for other credentials.
    WaitNewCredentials { email: String, log: String },
    /// Wait for the e-mail code.
    WaitEmailCode { email: String, log: String },
    /// Wait for the captcha.
    WaitCaptcha { log: String },
    /// Fail the task with the error's text.
    Fail { message: String },
}

/// The action a registration error asks for, and the answer the request
/// gets in every case.
pub fn registration_error_action(error: AccountRegistrationError) -> (r: (RegistrationErrorAction, ApiResponse))
    ensures
        is_error_response(r.1, account_registration_error_status(error), account_registration_error_text(error)),
        match error {
            AccountRegistrationError::RegisteredEmail { email } => r.0 matches RegistrationErrorAction::WaitNewCredentials { email: e, log }
                && e@ == email@ && log@ == "邮箱已注册: "@ + email@,
            AccountRegistrationError::EmailCodeRequired { email } => r.0 matches RegistrationErrorAction::WaitEmailCode { email: e, log }
                && e@ == email@ && log@ == "等待邮箱验证码: "@ + email@,
            AccountRegistrationError::ChallengeRequired { .. } => r.0 matches RegistrationErrorAction::WaitCaptcha { log }
                && log@ == "等待用户完成 reCAPTCHA"@,
            _ => r.0 matches RegistrationErrorAction::Fail { message } && message@ == account_registration_error_text(error),
        },
{
    let action = match &error {
        AccountRegistrationError::RegisteredEmail { email } => RegistrationErrorAction::WaitNewCredentials {
            email: owned(email.as_str()),
            log: concat2("邮箱已注册: ", email.as_str()),
        },
        AccountRegistrationError::EmailCodeRequired { email } => RegistrationErrorAction::WaitEmailCode {
            email: owned(email.as_str()),
            log: concat2("等待邮箱验证码: ", email.as_str()),
        },
        AccountRegistrationError::ChallengeRequired { .. } => RegistrationErrorAction::WaitCaptcha {
            log: owned("等待用户完成 reCAPTCHA"),
        },
        _ => RegistrationErrorAction::Fail { message: account_registration_error_message(&error) },
    };
    let response = account_registration_error_response(error);
    (action, response)
}

} // verus!
