//! Tracked tasks as the API sees them: phases, waiting inputs, failure kinds,
//! operation kinds and the names the API gives them.

use vstd::prelude::*;
use crate::text::text_eq;

verus! {

/// The phase of a tracked task.
#[derive(Debug, Clone, Copy, PartialEq, Eq)]
pub enum ServiceTaskPhase {
    Pending,
    Running,
    WaitingForUser,
    Completed,
    Failed,
    Cancelled,
}

/// The input a waiting task asks the user for.
#[derive(Debug, Clone, Copy, PartialEq, Eq)]
pub enum TaskUserInputKind {
    EmailCode,
    NewRegistrationCredentials,
    NewBrowserCredentials,
    CaptchaCompleted,
}

/// Why a task failed.
#[derive(Debug, Clone, Copy, PartialEq, Eq)]
pub enum TaskFailureKind {
    Retryable,
    NeedsUserInput,
    NeedsLogin,
    PageChanged,
    Fatal,
}

/// Whether replaying a failed task needs the user's confirmation.
#[derive(Debug, Clone, Copy, PartialEq, Eq)]
pub enum TaskReplaySafety {
    Safe,
    RequiresConfirmation,
}

/// The kind of operation a task runs.
#[derive(Debug, Clone, Copy, PartialEq, Eq)]
pub enum TaskOperationKind {
    BrowserCurrentAccount,
    AccountImport,
    AccountManualCookieImport,
    AccountExport,
    AccountCredentialsAdd,
    AccountCredentialsRefresh,
    AccountGitTokenRefresh,
    AccountGitTokenGenerate,
    BrowserLogin,
    AccountSwitchPlan,
    AccountSwitchProjectPreview,
    AccountSwitchExecute,
    RemoteProjectCleanupPreview,
    AccountRemove,
    LocalPasswordUpdate,
    OverleafPasswordChange,
    AccountRegistration,
    Generic,
}

/// Pending, running and waiting tasks hold their account locks.
pub open spec fn phase_is_active(p: ServiceTaskPhase) -> bool {
    p == ServiceTaskPhase::Pending || p == ServiceTaskPhase::Running || p
        == ServiceTaskPhase::WaitingForUser
}

/// Completed, failed and cancelled tasks are finished.
pub open spec fn phase_is_terminal(p: ServiceTaskPhase) -> bool {
    p == ServiceTaskPhase::Completed || p == ServiceTaskPhase::Failed || p
        == ServiceTaskPhase::Cancelled
}

pub fn is_terminal_phase(p: ServiceTaskPhase) -> (r: bool)
    ensures
        r == phase_is_terminal(p),
{
    match p {
        ServiceTaskPhase::Completed | ServiceTaskPhase::Failed | ServiceTaskPhase::Cancelled => true,
        _ => false,
    }
}

pub fn is_active_phase(p: ServiceTaskPhase) -> (r: bool)
    ensures
        r == phase_is_active(p),
{
    match p {
        ServiceTaskPhase::Pending | ServiceTaskPhase::Running | ServiceTaskPhase::WaitingForUser => {
            true
        },
        _ => false,
    }
}

/// The name of a phase, as its derived `Debug` writes it.
pub open spec fn phase_debug_text(p: ServiceTaskPhase) -> Seq<char> {
    match p {
        ServiceTaskPhase::Pending => "Pending"@,
        ServiceTaskPhase::Running => "Running"@,
        ServiceTaskPhase::WaitingForUser => "WaitingForUser"@,
        ServiceTaskPhase::Completed => "Completed"@,
        ServiceTaskPhase::Failed => "Failed"@,
        ServiceTaskPhase::Cancelled => "Cancelled"@,
    }
}

pub fn phase_debug_name(p: ServiceTaskPhase) -> (r: &'static str)
    ensures
        r@ == phase_debug_text(p),
{
    match p {
        ServiceTaskPhase::Pending => "Pending",
        ServiceTaskPhase::Running => "Running",
        ServiceTaskPhase::WaitingForUser => "WaitingForUser",
        ServiceTaskPhase::Completed => "Completed",
        ServiceTaskPhase::Failed => "Failed",
        ServiceTaskPhase::Cancelled => "Cancelled",
    }
}

/// The API name of a failure kind.
pub open spec fn failure_kind_text(kind: TaskFailureKind) -> Seq<char> {
    match kind {
        TaskFailureKind::Retryable => "retryable"@,
        TaskFailureKind::NeedsUserInput => "needs_user_input"@,
        TaskFailureKind::NeedsLogin => "needs_login"@,
        TaskFailureKind::PageChanged => "page_changed"@,
        TaskFailureKind::Fatal => "fatal"@,
    }
}

pub fn task_failure_kind_name(kind: TaskFailureKind) -> (r: &'static str)
    ensures
        r@ == failure_kind_text(kind),
{
    match kind {
        TaskFailureKind::Retryable => "retryable",
        TaskFailureKind::NeedsUserInput => "needs_user_input",
        TaskFailureKind::NeedsLogin => "needs_login",
        TaskFailureKind::PageChanged => "page_changed",
        TaskFailureKind::Fatal => "fatal",
    }
}

/// The name of an operation kind, as its derived `Debug` writes it.
pub open spec fn operation_kind_debug_text(kind: TaskOperationKind) -> Seq<char> {
    match kind {
        TaskOperationKind::BrowserCurrentAccount => "BrowserCurrentAccount"@,
        TaskOperationKind::AccountImport => "AccountImport"@,
        TaskOperationKind::AccountManualCookieImport => "AccountManualCookieImport"@,
        TaskOperationKind::AccountExport => "AccountExport"@,
        TaskOperationKind::AccountCredentialsAdd => "AccountCredentialsAdd"@,
        TaskOperationKind::AccountCredentialsRefresh => "AccountCredentialsRefresh"@,
        TaskOperationKind::AccountGitTokenRefresh => "AccountGitTokenRefresh"@,
        TaskOperationKind::AccountGitTokenGenerate => "AccountGitTokenGenerate"@,
        TaskOperationKind::BrowserLogin => "BrowserLogin"@,
        TaskOperationKind::AccountSwitchPlan => "AccountSwitchPlan"@,
        TaskOperationKind::AccountSwitchProjectPreview => "AccountSwitchProjectPreview"@,
        TaskOperationKind::AccountSwitchExecute => "AccountSwitchExecute"@,
        TaskOperationKind::RemoteProjectCleanupPreview => "RemoteProjectCleanupPreview"@,
        TaskOperationKind::AccountRemove => "AccountRemove"@,
        TaskOperationKind::LocalPasswordUpdate => "LocalPasswordUpdate"@,
        TaskOperationKind::OverleafPasswordChange => "OverleafPasswordChange"@,
        TaskOperationKind::AccountRegistration => "AccountRegistration"@,
        TaskOperationKind::Generic => "Generic"@,
    }
}

pub fn operation_kind_debug_name(kind: TaskOperationKind) -> (r: &'static str)
    ensures
        r@ == operation_kind_debug_text(kind),
{
    match kind {
        TaskOperationKind::BrowserCurrentAccount => "BrowserCurrentAccount",
        TaskOperationKind::AccountImport => "AccountImport",
        TaskOperationKind::AccountManualCookieImport => "AccountManualCookieImport",
        TaskOperationKind::AccountExport => "AccountExport",
        TaskOperationKind::AccountCredentialsAdd => "AccountCredentialsAdd",
        TaskOperationKind::AccountCredentialsRefresh => "AccountCredentialsRefresh",
        TaskOperationKind::AccountGitTokenRefresh => "AccountGitTokenRefresh",
        TaskOperationKind::AccountGitTokenGenerate => "AccountGitTokenGenerate",
        TaskOperationKind::BrowserLogin => "BrowserLogin",
        TaskOperationKind::AccountSwitchPlan => "AccountSwitchPlan",
        TaskOperationKind::AccountSwitchProjectPreview => "AccountSwitchProjectPreview",
        TaskOperationKind::AccountSwitchExecute => "AccountSwitchExecute",
        TaskOperationKind::RemoteProjectCleanupPreview => "RemoteProjectCleanupPreview",
        TaskOperationKind::AccountRemove => "AccountRemove",
        TaskOperationKind::LocalPasswordUpdate => "LocalPasswordUpdate",
        TaskOperationKind::OverleafPasswordChange => "OverleafPasswordChange",
        TaskOperationKind::AccountRegistration => "AccountRegistration",
        TaskOperationKind::Generic => "Generic",
    }
}

/// The operation kind a task started under `name` runs.
pub open spec fn operation_kind_for_name(name: Seq<char>) -> TaskOperationKind {
    if name == "读取当前浏览器账号"@ {
        TaskOperationKind::BrowserCurrentAccount
    } else if name == "账号导入"@ || name == "导入账号"@ {
        TaskOperationKind::AccountImport
    } else if name == "手动 Cookie 导入账号"@ || name == "手动导入 Cookie 账号"@ {
        TaskOperationKind::AccountManualCookieImport
    } else if name == "导出账号"@ {
        TaskOperationKind::AccountExport
    } else if name == "账号密码添加账号"@ {
        TaskOperationKind::AccountCredentialsAdd
    } else if name == "账号密码刷新 Cookie"@ {
        TaskOperationKind::AccountCredentialsRefresh
    } else if name == "刷新 Git Integration token 状态"@ {
        TaskOperationKind::AccountGitTokenRefresh
    } else if name == "获取 Git Integration token"@ {
        TaskOperationKind::AccountGitTokenGenerate
    } else if name == "浏览器自动登录"@ {
        TaskOperationKind::BrowserLogin
    } else if name == "规划无感换号扩展命令"@ {
        TaskOperationKind::AccountSwitchPlan
    } else if name == "预览项目迁移"@ {
        TaskOperationKind::AccountSwitchProjectPreview
    } else if name == "执行无感换号扩展命令"@ {
        TaskOperationKind::AccountSwitchExecute
    } else if name == "预览远端项目清理"@ {
        TaskOperationKind::RemoteProjectCleanupPreview
    } else if name == "清理远端项目后移除账号"@ || name == "清理远端项目并移除账号"@ || name
        == "移除本地账号"@ {
        TaskOperationKind::AccountRemove
    } else if name == "更新本地账号密码"@ {
        TaskOperationKind::LocalPasswordUpdate
    } else if name == "修改 Overleaf 密码"@ {
        TaskOperationKind::OverleafPasswordChange
    } else {
        TaskOperationKind::Generic
    }
}

/// The operation kind recorded for a task started under `name`.
pub fn task_operation_kind_for_task_name(name: &str) -> (r: TaskOperationKind)
    ensures
        r == operation_kind_for_name(name@),
{
    if text_eq(name, "读取当前浏览器账号") {
        TaskOperationKind::BrowserCurrentAccount
    } else if text_eq(name, "账号导入") || text_eq(name, "导入账号") {
        TaskOperationKind::AccountImport
    } else if text_eq(name, "手动 Cookie 导入账号") || text_eq(name, "手动导入 Cookie 账号") {
        TaskOperationKind::AccountManualCookieImport
    } else if text_eq(name, "导出账号") {
        TaskOperationKind::AccountExport
    } else if text_eq(name, "账号密码添加账号") {
        TaskOperationKind::AccountCredentialsAdd
    } else if text_eq(name, "账号密码刷新 Cookie") {
        TaskOperationKind::AccountCredentialsRefresh
    } else if text_eq(name, "刷新 Git Integration token 状态") {
        TaskOperationKind::AccountGitTokenRefresh
    } else if text_eq(name, "获取 Git Integration token") {
        TaskOperationKind::AccountGitTokenGenerate
    } else if text_eq(name, "浏览器自动登录") {
        TaskOperationKind::BrowserLogin
    } else if text_eq(name, "规划无感换号扩展命令") {
        TaskOperationKind::AccountSwitchPlan
    } else if text_eq(name, "预览项目迁移") {
        TaskOperationKind::AccountSwitchProjectPreview
    } else if text_eq(name, "执行无感换号扩展命令") {
        TaskOperationKind::AccountSwitchExecute
    } else if text_eq(name, "预览远端项目清理") {
        TaskOperationKind::RemoteProjectCleanupPreview
    } else if text_eq(name, "清理远端项目后移除账号") || text_eq(name, "清理远端项目并移除账号")
        || text_eq(name, "移除本地账号") {
        TaskOperationKind::AccountRemove
    } else if text_eq(name, "更新本地账号密码") {
        TaskOperationKind::LocalPasswordUpdate
    } else if text_eq(name, "修改 Overleaf 密码") {
        TaskOperationKind::OverleafPasswordChange
    } else {
        TaskOperationKind::Generic
    }
}

/// The progress total for `unit_count` units: at least one, at most `u32::MAX`.
pub open spec fn progress_total(unit_count: nat) -> u32 {
    if unit_count == 0 {
        1
    } else if unit_count > u32::MAX {
        u32::MAX
    } else {
        unit_count as u32
    }
}

pub fn task_progress_total(unit_count: usize) -> (r: u32)
    ensures
        r == progress_total(unit_count as nat),
{
    let capped: u32 = if unit_count > 0xFFFF_FFFF {
        0xFFFF_FFFF
    } else {
        unit_count as u32
    };
    if capped < 1 {
        1
    } else {
        capped
    }
}

/// The value a progress record stores for `current` out of `total`: capped
/// at the total, whose own floor is one.
pub fn capped_progress_current(current: usize, total: usize) -> (r: (u32, u32))
    ensures
        r.1 == progress_total(total as nat),
        r.0 as nat == if current as nat <= r.1 as nat {
            current as nat
        } else {
            r.1 as nat
        },
{
    let t = task_progress_total(total);
    let c: u32 = if current as u64 <= t as u64 {
        current as u32
    } else {
        t
    };
    (c, t)
}

/// The inputs that only a live registration browser session can take.
pub open spec fn needs_registration_session(kind: TaskUserInputKind) -> bool {
    kind == TaskUserInputKind::NewRegistrationCredentials || kind
        == TaskUserInputKind::CaptchaCompleted
}

pub fn registration_session_required(kind: TaskUserInputKind) -> (r: bool)
    ensures
        r == needs_registration_session(kind),
{
    match kind {
        TaskUserInputKind::NewRegistrationCredentials | TaskUserInputKind::CaptchaCompleted => true,
        _ => false,
    }
}

} // verus!
