//! The end of a registration once the payment went through: checking an
//! accepted extra trial, reading the trial's expiry from the last page,
//! choosing how the account is saved and which expiry it keeps, and the
//! message its task completes with.

use vstd::prelude::*;
use crate::credential_job::StageLog;
use crate::text::{concat2, concat3, i64_decimal, owned, signed_decimal};

verus! {

/// Seconds in the fourteen days by which an extra trial extends the expiry.
pub const EXTRA_TRIAL_EXTENSION_SECS: i64 = 1209600;

/// How long an accepted extra trial is waited for, in seconds.
pub const EXTRA_TRIAL_CONFIRM_TIMEOUT_SECS: u64 = 20;

/// Whether an expiry read after accepting the extra trial shows it: at
/// least fourteen days after the expiry read before.
pub open spec fn extra_trial_shown(before: int, after: Option<i64>) -> bool {
    after matches Some(a) && a >= before + EXTRA_TRIAL_EXTENSION_SECS
}

/// The text of a failed expiry read.
pub open spec fn expiry_read_failed_text(detail: Seq<char>) -> Seq<char> {
    "读取试用延期结果失败: "@ + detail
}

/// The expiry before the extra trial is accepted, read from the account;
/// without one the extra trial cannot be checked.
pub fn extra_trial_baseline(read: Result<Option<i64>, String>) -> (r: Result<i64, String>)
    ensures
        read matches Ok(Some(b)) ==> r == Ok::<i64, String>(b),
        read matches Ok(None) ==> (r matches Err(m) && m@ == "未能读取延期前的到期时间，无法验证额外试用"@),
        read matches Err(e) ==> (r matches Err(m) && m@ == expiry_read_failed_text(e@)),
{
    match read {
        Ok(Some(b)) => Ok(b),
        Ok(None) => Err(owned("未能读取延期前的到期时间，无法验证额外试用")),
        Err(e) => Err(concat2("读取试用延期结果失败: ", e.as_str())),
    }
}

/// What one check of an accepted extra trial decides.
pub enum ExtraTrialPoll {
    /// The expiry moved by fourteen days: the extra trial is there.
    Confirmed,
    /// Not yet: read again in a while.
    KeepPolling,
    /// Confirming failed with the message.
    Failed(String),
}

/// One check of an accepted extra trial: `elapsed_secs` since the checks
/// began, and what reading the expiry gave (read only while time is left).
pub fn extra_trial_poll(before: i64, elapsed_secs: u64, read: Result<Option<i64>, String>) -> (r: ExtraTrialPoll)
    requires
        before <= i64::MAX - EXTRA_TRIAL_EXTENSION_SECS,
    ensures
        elapsed_secs >= EXTRA_TRIAL_CONFIRM_TIMEOUT_SECS ==> (r matches ExtraTrialPoll::Failed(m)
            && m@ == "未确认试用到期时间延长 14 天，额外试用未完成"@),
        elapsed_secs < EXTRA_TRIAL_CONFIRM_TIMEOUT_SECS ==> match read {
            Err(e) => r matches ExtraTrialPoll::Failed(m) && m@ == expiry_read_failed_text(e@),
            Ok(after) => (r is Confirmed) == extra_trial_shown(before as int, after) && (r is Confirmed
                || r is KeepPolling),
        },
{
    if elapsed_secs >= EXTRA_TRIAL_CONFIRM_TIMEOUT_SECS {
        return ExtraTrialPoll::Failed(owned("未确认试用到期时间延长 14 天，额外试用未完成"));
    }
    match read {
        Err(e) => ExtraTrialPoll::Failed(concat2("读取试用延期结果失败: ", e.as_str())),
        Ok(Some(after)) => {
            if after >= before + EXTRA_TRIAL_EXTENSION_SECS {
                ExtraTrialPoll::Confirmed
            } else {
                ExtraTrialPoll::KeepPolling
            }
        },
        Ok(None) => ExtraTrialPoll::KeepPolling,
    }
}

/// The log line after the extra trial was tried: `Err` holds how its
/// failure prints; the registration goes on either way.
pub fn extra_trial_log(result: Result<(), String>) -> (r: StageLog)
    ensures
        result is Ok ==> !r.warning && r.text@ == "已确认试用到期时间延长 14 天，正在重新加载订阅管理页"@,
        result matches Err(d) ==> r.warning && r.text@ == "额外试用未确认: "@ + d@
            + "；继续取消自动续费并按实际到期时间保存账号"@,
{
    match result {
        Ok(()) => StageLog { warning: false, text: owned("已确认试用到期时间延长 14 天，正在重新加载订阅管理页") },
        Err(d) => StageLog {
            warning: true,
            text: concat3("额外试用未确认: ", d.as_str(), "；继续取消自动续费并按实际到期时间保存账号"),
        },
    }
}

/// The warning when the subscription page could not be reopened for the
/// final reading: `detail` is how the failure prints.
pub fn reopen_management_failed_log(detail: &str) -> (r: StageLog)
    ensures
        r.warning,
        r.text@ == "重新打开订阅管理页失败，将尝试从当前页面解析到期时间: "@ + detail@,
{
    StageLog { warning: true, text: concat2("重新打开订阅管理页失败，将尝试从当前页面解析到期时间: ", detail) }
}

/// What reading the last subscription page gives: the expiry parsed from
/// its text (`Ok(None)` where none was found), or the read's error; and
/// the line logged about it.
pub fn final_expiry_reading(page: Result<Option<i64>, String>) -> (r: (Option<i64>, StageLog))
    ensures
        page matches Ok(Some(x)) ==> r.0 == Some(x) && !r.1.warning && r.1.text@ == "已解析试用/订阅到期时间: "@
            + signed_decimal(x as int),
        page matches Ok(None) ==> r.0 is None && r.1.warning && r.1.text@ == "未从最终订阅页面解析到试用/订阅到期时间"@,
        page matches Err(e) ==> r.0 is None && r.1.warning && r.1.text@ == "读取最终订阅页面状态失败，跳过到期时间解析: "@
            + e@,
{
    match page {
        Ok(Some(x)) => {
            let d = i64_decimal(x);
            (Some(x), StageLog { warning: false, text: concat2("已解析试用/订阅到期时间: ", d.as_str()) })
        },
        Ok(None) => (None, StageLog { warning: true, text: owned("未从最终订阅页面解析到试用/订阅到期时间") }),
        Err(e) => (None, StageLog {
            warning: true,
            text: concat2("读取最终订阅页面状态失败，跳过到期时间解析: ", e.as_str()),
        }),
    }
}

/// The line logged once the project page was reached and the artifacts
/// taken.
pub fn artifacts_extracted_log(auto_fetch_git_token: bool) -> (r: &'static str)
    ensures
        auto_fetch_git_token ==> r@ == "已返回项目页并提取 Cookie 与 Git Integration token"@,
        !auto_fetch_git_token ==> r@ == "已返回项目页并提取 Cookie"@,
{
    if auto_fetch_git_token {
        "已返回项目页并提取 Cookie 与 Git Integration token"
    } else {
        "已返回项目页并提取 Cookie"
    }
}

/// The trial expiry of a finished registration: the one the browser
/// reported, else the one parsed from the last page.
pub fn registration_trial_expiry(reported: Option<i64>, parsed: Option<i64>) -> (r: Option<i64>)
    ensures
        reported is Some ==> r == reported,
        reported is None ==> r == parsed,
{
    match reported {
        Some(x) => Some(x),
        None => parsed,
    }
}

/// How a finished registration is saved.
#[derive(Debug, PartialEq, Eq)]
pub enum RegistrationSaveTarget {
    /// Into the existing account with this alias.
    Existing(String),
    /// As a new account, with the password the registration used.
    NewWithPassword,
    /// As a new account without a password (a cookie login).
    NewWithoutPassword,
}

/// A trial on an existing account is saved into it; a new account keeps
/// its password where the registration had one.
pub fn registration_save_target(existing_alias: Option<String>, has_password: bool) -> (r: RegistrationSaveTarget)
    ensures
        existing_alias matches Some(a) ==> (r matches RegistrationSaveTarget::Existing(x) && x@ == a@),
        existing_alias is None && has_password ==> r is NewWithPassword,
        existing_alias is None && !has_password ==> r is NewWithoutPassword,
{
    match existing_alias {
        Some(a) => RegistrationSaveTarget::Existing(a),
        None => if has_password {
            RegistrationSaveTarget::NewWithPassword
        } else {
            RegistrationSaveTarget::NewWithoutPassword
        },
    }
}

/// After the account's metadata was refreshed: the expiry kept (the
/// refreshed one, else the saved one), and whether the saved expiry is
/// written back into the record because the refresh found none.
pub fn expiry_after_metadata(refreshed: Option<i64>, saved: Option<i64>) -> (r: (Option<i64>, bool))
    ensures
        refreshed is Some ==> r.0 == refreshed && !r.1,
        refreshed is None ==> r.0 == saved && r.1,
{
    match refreshed {
        Some(x) => (Some(x), false),
        None => (saved, true),
    }
}

/// The line logged after the metadata refresh: `Err` holds how its
/// failure prints.
pub fn metadata_refresh_log(result: Result<(), String>) -> (r: StageLog)
    ensures
        result is Ok ==> !r.warning && r.text@ == "已验证账号身份并刷新订阅/试用元数据"@,
        result matches Err(d) ==> r.warning && r.text@ == "账号身份已验证，但订阅元数据刷新失败，保留已解析结果: "@
            + d@,
{
    match result {
        Ok(()) => StageLog { warning: false, text: owned("已验证账号身份并刷新订阅/试用元数据") },
        Err(d) => StageLog {
            warning: true,
            text: concat2("账号身份已验证，但订阅元数据刷新失败，保留已解析结果: ", d.as_str()),
        },
    }
}

/// The message a finished registration's task completes with: a trial
/// shorter than the days chosen is said so.
pub fn registration_finished_message(report_trial_days: u32, chosen_trial_days: u32) -> (r: &'static str)
    ensures
        report_trial_days < chosen_trial_days ==> r@ == "账号已保存并取消续费，实际试用期限未达到所选天数"@,
        report_trial_days >= chosen_trial_days ==> r@ == "自动注册账号完成"@,
{
    if report_trial_days < chosen_trial_days {
        "账号已保存并取消续费，实际试用期限未达到所选天数"
    } else {
        "自动注册账号完成"
    }
}

} // verus!
