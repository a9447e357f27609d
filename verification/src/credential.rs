//! Browser batches that log accounts in with their credentials: the
//! operations, their messages, the per-account plans and the items a batch
//! reports.

use vstd::prelude::*;
use crate::errors::BrowserAutoLoginError;
use crate::errors_remote::AccountGitTokenError;
use crate::sessions::AccountSessionRefreshReport;
use crate::text::{concat2, concat3, concat5, decimal, is_empty_text, owned, trim, trimmed, usize_decimal};

verus! {

/// What a credential browser batch does for each of its accounts.
#[derive(Debug, Clone, Copy, PartialEq, Eq)]
pub enum CredentialBrowserOperation {
    Add,
    Refresh,
    PasswordChange,
    GitTokenRefresh,
    GitToken,
    BrowserLogin,
}

/// The task name a batch of this operation is tracked under.
pub open spec fn task_label_text(op: CredentialBrowserOperation) -> Seq<char> {
    match op {
        CredentialBrowserOperation::Add => "账号密码添加账号"@,
        CredentialBrowserOperation::Refresh => "账号密码刷新 Cookie"@,
        CredentialBrowserOperation::PasswordChange => "修改 Overleaf 密码"@,
        CredentialBrowserOperation::GitTokenRefresh => "刷新 Git Integration token 状态"@,
        CredentialBrowserOperation::GitToken => "获取 Git Integration token"@,
        CredentialBrowserOperation::BrowserLogin => "浏览器登录"@,
    }
}

/// The name of the background job that runs a batch.
pub open spec fn job_name_text(op: CredentialBrowserOperation) -> Seq<char> {
    match op {
        CredentialBrowserOperation::Add => "credential-add-batch"@,
        CredentialBrowserOperation::Refresh => "credential-refresh-batch"@,
        CredentialBrowserOperation::PasswordChange => "overleaf-password-change-batch"@,
        CredentialBrowserOperation::GitTokenRefresh => "git-token-refresh-batch"@,
        CredentialBrowserOperation::GitToken => "git-token-generate-batch"@,
        CredentialBrowserOperation::BrowserLogin => "browser-login-credential-batch"@,
    }
}

/// The name of the worker that handles one account of a batch.
pub open spec fn worker_name_text(op: CredentialBrowserOperation) -> Seq<char> {
    match op {
        CredentialBrowserOperation::Add => "overleaf-credential-add-item"@,
        CredentialBrowserOperation::Refresh => "overleaf-credential-refresh-item"@,
        CredentialBrowserOperation::PasswordChange => "overleaf-password-change-item"@,
        CredentialBrowserOperation::GitTokenRefresh => "overleaf-git-token-refresh-item"@,
        CredentialBrowserOperation::GitToken => "overleaf-git-token-item"@,
        CredentialBrowserOperation::BrowserLogin => "overleaf-browser-login-item"@,
    }
}

/// The stage logged while one account is being handled.
pub open spec fn running_message_text(op: CredentialBrowserOperation) -> Seq<char> {
    match op {
        CredentialBrowserOperation::Add => "登录并添加账号"@,
        CredentialBrowserOperation::Refresh => "刷新 Cookie"@,
        CredentialBrowserOperation::PasswordChange => "登录并修改远端密码"@,
        CredentialBrowserOperation::GitTokenRefresh => "刷新 Git token 状态"@,
        CredentialBrowserOperation::GitToken => "检查 Cookie 并获取 Git token"@,
        CredentialBrowserOperation::BrowserLogin => "打开浏览器并登录"@,
    }
}

/// The prompt shown when the stored credentials were refused.
pub open spec fn invalid_credentials_message_text(op: CredentialBrowserOperation) -> Seq<char> {
    match op {
        CredentialBrowserOperation::Add => "邮箱或密码错误，请重新输入"@,
        CredentialBrowserOperation::Refresh => "密码错误，请重新输入"@,
        CredentialBrowserOperation::PasswordChange => "当前密码错误，请重新输入"@,
        CredentialBrowserOperation::GitTokenRefresh => "密码错误，请重新输入后继续刷新 Git token 状态"@,
        CredentialBrowserOperation::GitToken => "密码错误，请重新输入后继续获取 Git token"@,
        CredentialBrowserOperation::BrowserLogin => "没有可用登录态，请重新输入密码"@,
    }
}

/// The message of an account whose handling finished.
pub open spec fn terminal_item_message_text(op: CredentialBrowserOperation) -> Seq<char> {
    match op {
        CredentialBrowserOperation::Add => "账号添加完成"@,
        CredentialBrowserOperation::Refresh => "Cookie 刷新完成"@,
        CredentialBrowserOperation::PasswordChange => "远端密码修改完成"@,
        CredentialBrowserOperation::GitTokenRefresh => "Git token 状态刷新完成"@,
        CredentialBrowserOperation::GitToken => "Git token 获取完成"@,
        CredentialBrowserOperation::BrowserLogin => "浏览器登录完成"@,
    }
}

/// The prompt shown when re-entered credentials do not parse.
pub open spec fn invalid_input_message_text(op: CredentialBrowserOperation) -> Seq<char> {
    match op {
        CredentialBrowserOperation::Add => "重新输入格式无效，请检查邮箱和密码"@,
        CredentialBrowserOperation::Refresh => "重新输入格式无效，请检查密码"@,
        CredentialBrowserOperation::PasswordChange => "重新输入格式无效，请检查当前密码"@,
        CredentialBrowserOperation::GitTokenRefresh => "重新输入格式无效，请检查账号密码"@,
        CredentialBrowserOperation::GitToken => "重新输入格式无效，请检查账号密码"@,
        CredentialBrowserOperation::BrowserLogin => "重新输入格式无效，请检查密码"@,
    }
}

/// The queued-batch message before the concurrency limit.
pub open spec fn queue_prefix_text(op: CredentialBrowserOperation) -> Seq<char> {
    match op {
        CredentialBrowserOperation::Add => "账号添加批次已进入独立后台队列，并发上限 "@,
        CredentialBrowserOperation::Refresh => "Cookie 刷新批次已进入独立后台队列，并发上限 "@,
        CredentialBrowserOperation::PasswordChange => "远端改密批次已进入独立后台队列，并发上限 "@,
        CredentialBrowserOperation::GitTokenRefresh => "Git token 状态刷新批次已进入独立后台队列，并发上限 "@,
        CredentialBrowserOperation::GitToken => "Git token 批次已进入独立后台队列，并发上限 "@,
        CredentialBrowserOperation::BrowserLogin => "浏览器登录批次已进入独立后台队列，并发上限 "@,
    }
}

/// The success message before the alias.
pub open spec fn success_prefix_text(op: CredentialBrowserOperation) -> Seq<char> {
    match op {
        CredentialBrowserOperation::Add => "登录并保存完成: "@,
        CredentialBrowserOperation::Refresh => "Cookie 刷新完成: "@,
        CredentialBrowserOperation::PasswordChange => "Overleaf 远端密码修改完成: "@,
        CredentialBrowserOperation::GitTokenRefresh => "Git token 状态刷新完成: "@,
        CredentialBrowserOperation::GitToken => "Git token 获取完成: "@,
        CredentialBrowserOperation::BrowserLogin => "浏览器登录完成: "@,
    }
}

/// The failure message before the alias.
pub open spec fn failure_prefix_text(op: CredentialBrowserOperation) -> Seq<char> {
    match op {
        CredentialBrowserOperation::Add => "账号未完成: "@,
        CredentialBrowserOperation::Refresh => "Cookie 刷新未完成: "@,
        CredentialBrowserOperation::PasswordChange => "远端密码修改未完成: "@,
        CredentialBrowserOperation::GitTokenRefresh => "Git token 状态刷新未完成: "@,
        CredentialBrowserOperation::GitToken => "Git token 获取未完成: "@,
        CredentialBrowserOperation::BrowserLogin => "浏览器登录未完成: "@,
    }
}
/// The message of a Git token batch that finished without failures.
pub open spec fn git_token_batch_success_text(op: CredentialBrowserOperation) -> Seq<char> {
    match op {
        CredentialBrowserOperation::GitTokenRefresh => "Git Integration token 状态刷新完成"@,
        CredentialBrowserOperation::GitToken => "Git Integration token 获取完成"@,
        _ => "Git Integration token 操作完成"@,
    }
}

/// The start of the message of a Git token batch with failures.
pub open spec fn git_token_batch_failure_prefix_text(op: CredentialBrowserOperation) -> Seq<char> {
    match op {
        CredentialBrowserOperation::GitTokenRefresh => "Git Integration token 状态刷新未完全完成"@,
        CredentialBrowserOperation::GitToken => "Git Integration token 获取未完全完成"@,
        _ => "Git Integration token 操作未完全完成"@,
    }
}

/// The message of a queued batch that runs at most `max_concurrency`
/// accounts at once.
pub open spec fn queue_message_text(op: CredentialBrowserOperation, max_concurrency: nat) -> Seq<
    char,
> {
    queue_prefix_text(op) + decimal(max_concurrency)
}

/// The message of an account that finished.
pub open spec fn success_message_text(op: CredentialBrowserOperation, alias: Seq<char>) -> Seq<char> {
    success_prefix_text(op) + alias
}

/// The message of an account that did not finish, with the reason.
pub open spec fn failure_message_text(
    op: CredentialBrowserOperation,
    alias: Seq<char>,
    message: Seq<char>,
) -> Seq<char> {
    failure_prefix_text(op) + alias + " ("@ + message + ")"@
}

fn queue_prefix(op: CredentialBrowserOperation) -> (r: &'static str)
    ensures
        r@ == queue_prefix_text(op),
{
    match op {
        CredentialBrowserOperation::Add => "账号添加批次已进入独立后台队列，并发上限 ",
        CredentialBrowserOperation::Refresh => "Cookie 刷新批次已进入独立后台队列，并发上限 ",
        CredentialBrowserOperation::PasswordChange => "远端改密批次已进入独立后台队列，并发上限 ",
        CredentialBrowserOperation::GitTokenRefresh => "Git token 状态刷新批次已进入独立后台队列，并发上限 ",
        CredentialBrowserOperation::GitToken => "Git token 批次已进入独立后台队列，并发上限 ",
        CredentialBrowserOperation::BrowserLogin => "浏览器登录批次已进入独立后台队列，并发上限 ",
    }
}

fn success_prefix(op: CredentialBrowserOperation) -> (r: &'static str)
    ensures
        r@ == success_prefix_text(op),
{
    match op {
        CredentialBrowserOperation::Add => "登录并保存完成: ",
        CredentialBrowserOperation::Refresh => "Cookie 刷新完成: ",
        CredentialBrowserOperation::PasswordChange => "Overleaf 远端密码修改完成: ",
        CredentialBrowserOperation::GitTokenRefresh => "Git token 状态刷新完成: ",
        CredentialBrowserOperation::GitToken => "Git token 获取完成: ",
        CredentialBrowserOperation::BrowserLogin => "浏览器登录完成: ",
    }
}

fn failure_prefix(op: CredentialBrowserOperation) -> (r: &'static str)
    ensures
        r@ == failure_prefix_text(op),
{
    match op {
        CredentialBrowserOperation::Add => "账号未完成: ",
        CredentialBrowserOperation::Refresh => "Cookie 刷新未完成: ",
        CredentialBrowserOperation::PasswordChange => "远端密码修改未完成: ",
        CredentialBrowserOperation::GitTokenRefresh => "Git token 状态刷新未完成: ",
        CredentialBrowserOperation::GitToken => "Git token 获取未完成: ",
        CredentialBrowserOperation::BrowserLogin => "浏览器登录未完成: ",
    }
}

impl CredentialBrowserOperation {
    pub fn task_label(self) -> (r: &'static str)
        ensures
            r@ == task_label_text(self),
    {
        match self {
            CredentialBrowserOperation::Add => "账号密码添加账号",
            CredentialBrowserOperation::Refresh => "账号密码刷新 Cookie",
            CredentialBrowserOperation::PasswordChange => "修改 Overleaf 密码",
            CredentialBrowserOperation::GitTokenRefresh => "刷新 Git Integration token 状态",
            CredentialBrowserOperation::GitToken => "获取 Git Integration token",
            CredentialBrowserOperation::BrowserLogin => "浏览器登录",
        }
    }

    pub fn job_name(self) -> (r: &'static str)
        ensures
            r@ == job_name_text(self),
    {
        match self {
            CredentialBrowserOperation::Add => "credential-add-batch",
            CredentialBrowserOperation::Refresh => "credential-refresh-batch",
            CredentialBrowserOperation::PasswordChange => "overleaf-password-change-batch",
            CredentialBrowserOperation::GitTokenRefresh => "git-token-refresh-batch",
            CredentialBrowserOperation::GitToken => "git-token-generate-batch",
            CredentialBrowserOperation::BrowserLogin => "browser-login-credential-batch",
        }
    }

    pub fn worker_name(self) -> (r: &'static str)
        ensures
            r@ == worker_name_text(self),
    {
        match self {
            CredentialBrowserOperation::Add => "overleaf-credential-add-item",
            CredentialBrowserOperation::Refresh => "overleaf-credential-refresh-item",
            CredentialBrowserOperation::PasswordChange => "overleaf-password-change-item",
            CredentialBrowserOperation::GitTokenRefresh => "overleaf-git-token-refresh-item",
            CredentialBrowserOperation::GitToken => "overleaf-git-token-item",
            CredentialBrowserOperation::BrowserLogin => "overleaf-browser-login-item",
        }
    }

    pub fn running_message(self) -> (r: &'static str)
        ensures
            r@ == running_message_text(self),
    {
        match self {
            CredentialBrowserOperation::Add => "登录并添加账号",
            CredentialBrowserOperation::Refresh => "刷新 Cookie",
            CredentialBrowserOperation::PasswordChange => "登录并修改远端密码",
            CredentialBrowserOperation::GitTokenRefresh => "刷新 Git token 状态",
            CredentialBrowserOperation::GitToken => "检查 Cookie 并获取 Git token",
            CredentialBrowserOperation::BrowserLogin => "打开浏览器并登录",
        }
    }

    pub fn invalid_credentials_message(self) -> (r: &'static str)
        ensures
            r@ == invalid_credentials_message_text(self),
    {
        match self {
            CredentialBrowserOperation::Add => "邮箱或密码错误，请重新输入",
            CredentialBrowserOperation::Refresh => "密码错误，请重新输入",
            CredentialBrowserOperation::PasswordChange => "当前密码错误，请重新输入",
            CredentialBrowserOperation::GitTokenRefresh => "密码错误，请重新输入后继续刷新 Git token 状态",
            CredentialBrowserOperation::GitToken => "密码错误，请重新输入后继续获取 Git token",
            CredentialBrowserOperation::BrowserLogin => "没有可用登录态，请重新输入密码",
        }
    }

    pub fn terminal_item_message(self) -> (r: &'static str)
        ensures
            r@ == terminal_item_message_text(self),
    {
        match self {
            CredentialBrowserOperation::Add => "账号添加完成",
            CredentialBrowserOperation::Refresh => "Cookie 刷新完成",
            CredentialBrowserOperation::PasswordChange => "远端密码修改完成",
            CredentialBrowserOperation::GitTokenRefresh => "Git token 状态刷新完成",
            CredentialBrowserOperation::GitToken => "Git token 获取完成",
            CredentialBrowserOperation::BrowserLogin => "浏览器登录完成",
        }
    }

    pub fn invalid_input_message(self) -> (r: &'static str)
        ensures
            r@ == invalid_input_message_text(self),
    {
        match self {
            CredentialBrowserOperation::Add => "重新输入格式无效，请检查邮箱和密码",
            CredentialBrowserOperation::Refresh => "重新输入格式无效，请检查密码",
            CredentialBrowserOperation::PasswordChange => "重新输入格式无效，请检查当前密码",
            CredentialBrowserOperation::GitTokenRefresh => "重新输入格式无效，请检查账号密码",
            CredentialBrowserOperation::GitToken => "重新输入格式无效，请检查账号密码",
            CredentialBrowserOperation::BrowserLogin => "重新输入格式无效，请检查密码",
        }
    }

    pub fn git_token_batch_success_message(self) -> (r: &'static str)
        ensures
            r@ == git_token_batch_success_text(self),
    {
        match self {
            CredentialBrowserOperation::GitTokenRefresh => "Git Integration token 状态刷新完成",
            CredentialBrowserOperation::GitToken => "Git Integration token 获取完成",
            _ => "Git Integration token 操作完成",
        }
    }

    pub fn git_token_batch_failure_prefix(self) -> (r: &'static str)
        ensures
            r@ == git_token_batch_failure_prefix_text(self),
    {
        match self {
            CredentialBrowserOperation::GitTokenRefresh => "Git Integration token 状态刷新未完全完成",
            CredentialBrowserOperation::GitToken => "Git Integration token 获取未完全完成",
            _ => "Git Integration token 操作未完全完成",
        }
    }

    pub fn queue_message(self, max_concurrency: usize) -> (r: String)
        ensures
            r@ == queue_message_text(self, max_concurrency as nat),
    {
        let n = usize_decimal(max_concurrency);
        concat2(queue_prefix(self), n.as_str())
    }

    pub fn success_message(self, alias: &str) -> (r: String)
        ensures
            r@ == success_message_text(self, alias@),
    {
        concat2(success_prefix(self), alias)
    }

    pub fn failure_message(self, alias: &str, message: &str) -> (r: String)
        ensures
            r@ == failure_message_text(self, alias@, message@),
    {
        concat5(failure_prefix(self), alias, " (", message, ")")
    }
}

// ---------------------------------------------------------------------------
// The items a batch reports

/// How a credential login ended for one account.
#[derive(Debug, Clone, Copy, PartialEq, Eq)]
pub enum CredentialLoginStatus {
    Imported,
    SkippedDuplicateEmail,
    UpdatedExisting,
}

/// What a credential login reported for one account.
pub struct CredentialLoginReport {
    pub alias: String,
    pub email: String,
    pub existing_alias: Option<String>,
    pub status: CredentialLoginStatus,
    /// The session metadata fetched after the login, if any.
    pub metadata: Option<AccountSessionRefreshReport>,
}

impl Clone for CredentialLoginReport {
    fn clone(&self) -> (r: Self)
        ensures
            r == *self,
    {
        CredentialLoginReport {
            alias: self.alias.clone(),
            email: self.email.clone(),
            existing_alias: self.existing_alias.clone(),
            status: self.status,
            metadata: match &self.metadata {
                Some(m) => Some(m.clone()),
                None => None,
            },
        }
    }
}

/// The status of one account of a credential add or refresh batch.
#[derive(Debug, Clone, Copy, PartialEq, Eq)]
pub enum CredentialBatchItemStatus {
    Imported,
    Updated,
    SkippedDuplicateEmail,
    Failed,
}

/// One account of a credential add or refresh batch.
pub struct CredentialBatchItem {
    pub alias: String,
    pub email: String,
    pub status: CredentialBatchItemStatus,
    pub existing_alias: Option<String>,
    pub report: Option<CredentialLoginReport>,
    pub error: Option<String>,
}

impl Clone for CredentialBatchItem {
    fn clone(&self) -> (r: Self)
        ensures
            r == *self,
    {
        CredentialBatchItem {
            alias: self.alias.clone(),
            email: self.email.clone(),
            status: self.status,
            existing_alias: self.existing_alias.clone(),
            report: match &self.report {
                Some(x) => Some(x.clone()),
                None => None,
            },
            error: self.error.clone(),
        }
    }
}

/// A credential add or refresh batch: its accounts and a count per status.
pub struct CredentialBatchReport {
    pub imported_count: usize,
    pub updated_count: usize,
    pub skipped_duplicate_email_count: usize,
    pub failed_count: usize,
    pub items: Vec<CredentialBatchItem>,
}

/// One account of a remote password change batch. `report` is the
/// account's change report as JSON text.
pub struct OverleafPasswordChangeBatchItem {
    pub alias: String,
    pub email: Option<String>,
    pub password_updated: bool,
    pub report: Option<String>,
    pub error: Option<String>,
}

impl Clone for OverleafPasswordChangeBatchItem {
    fn clone(&self) -> (r: Self)
        ensures
            r == *self,
    {
        OverleafPasswordChangeBatchItem {
            alias: self.alias.clone(),
            email: self.email.clone(),
            password_updated: self.password_updated,
            report: self.report.clone(),
            error: self.error.clone(),
        }
    }
}

/// A remote password change batch.
pub struct OverleafPasswordChangeBatchReport {
    pub changed_count: usize,
    pub failed_count: usize,
    pub items: Vec<OverleafPasswordChangeBatchItem>,
}

/// One account of a Git token batch. `report` is the account's token report
/// as JSON text.
pub struct AccountGitTokenRefreshBatchItem {
    pub alias: String,
    pub refreshed: bool,
    pub skipped: bool,
    pub report: Option<String>,
    pub error: Option<AccountGitTokenError>,
}

impl Clone for AccountGitTokenRefreshBatchItem {
    fn clone(&self) -> (r: Self)
        ensures
            r == *self,
    {
        AccountGitTokenRefreshBatchItem {
            alias: self.alias.clone(),
            refreshed: self.refreshed,
            skipped: self.skipped,
            report: self.report.clone(),
            error: match &self.error {
                Some(e) => Some(e.clone()),
                None => None,
            },
        }
    }
}

/// A Git token batch.
pub struct AccountGitTokenRefreshBatchReport {
    pub refreshed_count: usize,
    pub skipped_count: usize,
    pub failed_count: usize,
    pub items: Vec<AccountGitTokenRefreshBatchItem>,
}

/// One account of a browser login batch. `report` is the account's login
/// report as JSON text.
pub struct BrowserAutoLoginBatchItem {
    pub alias: String,
    pub opened: bool,
    pub cancelled: bool,
    pub report: Option<String>,
    pub error: Option<BrowserAutoLoginError>,
}

impl Clone for BrowserAutoLoginBatchItem {
    fn clone(&self) -> (r: Self)
        ensures
            r == *self,
    {
        BrowserAutoLoginBatchItem {
            alias: self.alias.clone(),
            opened: self.opened,
            cancelled: self.cancelled,
            report: self.report.clone(),
            error: match &self.error {
                Some(e) => Some(e.clone()),
                None => None,
            },
        }
    }
}

/// A browser login batch.
pub struct BrowserAutoLoginBatchReport {
    pub opened_count: usize,
    pub failed_count: usize,
    pub cancelled_count: usize,
    pub items: Vec<BrowserAutoLoginBatchItem>,
}

/// The result of one account of a credential browser batch.
pub enum CredentialBrowserBatchItem {
    Credential(CredentialBatchItem),
    PasswordChange(OverleafPasswordChangeBatchItem),
    GitToken(AccountGitTokenRefreshBatchItem),
    BrowserLogin(BrowserAutoLoginBatchItem),
}

impl Clone for CredentialBrowserBatchItem {
    fn clone(&self) -> (r: Self)
        ensures
            r == *self,
    {
        match self {
            CredentialBrowserBatchItem::Credential(x) => CredentialBrowserBatchItem::Credential(
                x.clone(),
            ),
            CredentialBrowserBatchItem::PasswordChange(x) =>
                CredentialBrowserBatchItem::PasswordChange(x.clone()),
            CredentialBrowserBatchItem::GitToken(x) => CredentialBrowserBatchItem::GitToken(
                x.clone(),
            ),
            CredentialBrowserBatchItem::BrowserLogin(x) => CredentialBrowserBatchItem::BrowserLogin(
                x.clone(),
            ),
        }
    }
}

// ---------------------------------------------------------------------------
// Batch reports from the items

/// The credential items among `items`, in order.
pub open spec fn credential_items(items: Seq<CredentialBrowserBatchItem>) -> Seq<CredentialBatchItem>
    decreases items.len(),
{
    if items.len() == 0 {
        Seq::empty()
    } else {
        let rest = credential_items(items.drop_last());
        match items.last() {
            CredentialBrowserBatchItem::Credential(x) => rest.push(x),
            _ => rest,
        }
    }
}

/// The password change items among `items`, in order.
pub open spec fn password_change_items(items: Seq<CredentialBrowserBatchItem>) -> Seq<
    OverleafPasswordChangeBatchItem,
>
    decreases items.len(),
{
    if items.len() == 0 {
        Seq::empty()
    } else {
        let rest = password_change_items(items.drop_last());
        match items.last() {
            CredentialBrowserBatchItem::PasswordChange(x) => rest.push(x),
            _ => rest,
        }
    }
}

/// The Git token items among `items`, in order.
pub open spec fn git_token_items(items: Seq<CredentialBrowserBatchItem>) -> Seq<
    AccountGitTokenRefreshBatchItem,
>
    decreases items.len(),
{
    if items.len() == 0 {
        Seq::empty()
    } else {
        let rest = git_token_items(items.drop_last());
        match items.last() {
            CredentialBrowserBatchItem::GitToken(x) => rest.push(x),
            _ => rest,
        }
    }
}

/// The browser login items among `items`, in order.
pub open spec fn browser_login_items(items: Seq<CredentialBrowserBatchItem>) -> Seq<
    BrowserAutoLoginBatchItem,
>
    decreases items.len(),
{
    if items.len() == 0 {
        Seq::empty()
    } else {
        let rest = browser_login_items(items.drop_last());
        match items.last() {
            CredentialBrowserBatchItem::BrowserLogin(x) => rest.push(x),
            _ => rest,
        }
    }
}

/// How many credential items have `status`.
pub open spec fn count_credential_status(
    items: Seq<CredentialBatchItem>,
    status: CredentialBatchItemStatus,
) -> nat
    decreases items.len(),
{
    if items.len() == 0 {
        0
    } else {
        count_credential_status(items.drop_last(), status) + if items.last().status == status {
            1nat
        } else {
            0nat
        }
    }
}

/// How many password change items updated the password.
pub open spec fn count_password_updated(items: Seq<OverleafPasswordChangeBatchItem>) -> nat
    decreases items.len(),
{
    if items.len() == 0 {
        0
    } else {
        count_password_updated(items.drop_last()) + if items.last().password_updated {
            1nat
        } else {
            0nat
        }
    }
}

/// How many Git token items were refreshed, and how many skipped.
pub open spec fn count_git_token(items: Seq<AccountGitTokenRefreshBatchItem>, skipped: bool) -> nat
    decreases items.len(),
{
    if items.len() == 0 {
        0
    } else {
        count_git_token(items.drop_last(), skipped) + if (if skipped {
            items.last().skipped
        } else {
            items.last().refreshed
        }) {
            1nat
        } else {
            0nat
        }
    }
}

/// How many Git token items neither refreshed nor skipped.
pub open spec fn count_git_token_failed(items: Seq<AccountGitTokenRefreshBatchItem>) -> nat
    decreases items.len(),
{
    if items.len() == 0 {
        0
    } else {
        count_git_token_failed(items.drop_last()) + if !items.last().refreshed
            && !items.last().skipped {
            1nat
        } else {
            0nat
        }
    }
}

/// How many browser login items opened a window (`0`), failed (`1`) or were
/// cancelled (`2`).
pub open spec fn count_browser_login(items: Seq<BrowserAutoLoginBatchItem>, which: int) -> nat
    decreases items.len(),
{
    if items.len() == 0 {
        0
    } else {
        let x = items.last();
        let hit = if which == 0 {
            x.opened
        } else if which == 1 {
            !x.opened && !x.cancelled
        } else {
            x.cancelled
        };
        count_browser_login(items.drop_last(), which) + if hit {
            1nat
        } else {
            0nat
        }
    }
}

/// `r` reports the credential items of `items`, with a count per status.
pub open spec fn is_credential_report_of(
    r: CredentialBatchReport,
    items: Seq<CredentialBrowserBatchItem>,
) -> bool {
    &&& r.items@ == credential_items(items)
    &&& r.imported_count == count_credential_status(r.items@, CredentialBatchItemStatus::Imported)
    &&& r.updated_count == count_credential_status(r.items@, CredentialBatchItemStatus::Updated)
    &&& r.skipped_duplicate_email_count == count_credential_status(
        r.items@,
        CredentialBatchItemStatus::SkippedDuplicateEmail,
    )
    &&& r.failed_count == count_credential_status(r.items@, CredentialBatchItemStatus::Failed)
}

/// `r` reports the Git token items of `items`.
pub open spec fn is_git_token_report_of(
    r: AccountGitTokenRefreshBatchReport,
    items: Seq<CredentialBrowserBatchItem>,
) -> bool {
    &&& r.items@ == git_token_items(items)
    &&& r.refreshed_count == count_git_token(r.items@, false)
    &&& r.skipped_count == count_git_token(r.items@, true)
    &&& r.failed_count == count_git_token_failed(r.items@)
}

/// `r` reports the password change items of `items`.
pub open spec fn is_password_change_report_of(
    r: OverleafPasswordChangeBatchReport,
    items: Seq<CredentialBrowserBatchItem>,
) -> bool {
    &&& r.items@ == password_change_items(items)
    &&& r.changed_count == count_password_updated(r.items@)
    &&& r.failed_count == r.items@.len() - count_password_updated(r.items@)
}

/// `r` reports the browser login items of `items`.
pub open spec fn is_browser_login_report_of(
    r: BrowserAutoLoginBatchReport,
    items: Seq<CredentialBrowserBatchItem>,
) -> bool {
    &&& r.items@ == browser_login_items(items)
    &&& r.opened_count == count_browser_login(r.items@, 0)
    &&& r.failed_count == count_browser_login(r.items@, 1)
    &&& r.cancelled_count == count_browser_login(r.items@, 2)
}

/// A credential batch report over the credential items of a browser batch.
pub fn credential_batch_report_from_browser_items(items: Vec<CredentialBrowserBatchItem>) -> (r:
    CredentialBatchReport)
    ensures
        is_credential_report_of(r, items@),
{
    let mut kept: Vec<CredentialBatchItem> = Vec::new();
    let mut imported: usize = 0;
    let mut updated: usize = 0;
    let mut skipped: usize = 0;
    let mut failed: usize = 0;
    let mut i: usize = 0;
    let n = items.len();
    while i < n
        invariant
            n == items@.len(),
            i <= n,
            kept@ == credential_items(items@.subrange(0, i as int)),
            imported == count_credential_status(kept@, CredentialBatchItemStatus::Imported),
            updated == count_credential_status(kept@, CredentialBatchItemStatus::Updated),
            skipped == count_credential_status(
                kept@,
                CredentialBatchItemStatus::SkippedDuplicateEmail,
            ),
            failed == count_credential_status(kept@, CredentialBatchItemStatus::Failed),
            imported + updated + skipped + failed <= kept@.len(),
            kept@.len() <= i,
        decreases n - i,
    {
        assert(items@.subrange(0, i + 1).drop_last() =~= items@.subrange(0, i as int));
        match &items[i] {
            CredentialBrowserBatchItem::Credential(x) => {
                let item = x.clone();
                match item.status {
                    CredentialBatchItemStatus::Imported => imported = imported + 1,
                    CredentialBatchItemStatus::Updated => updated = updated + 1,
                    CredentialBatchItemStatus::SkippedDuplicateEmail => skipped = skipped + 1,
                    CredentialBatchItemStatus::Failed => failed = failed + 1,
                }
                let ghost before = kept@;
                kept.push(item);
                assert(kept@.drop_last() =~= before);
            },
            _ => {},
        }
        i = i + 1;
    }
    assert(items@.subrange(0, n as int) =~= items@);
    CredentialBatchReport {
        imported_count: imported,
        updated_count: updated,
        skipped_duplicate_email_count: skipped,
        failed_count: failed,
        items: kept,
    }
}

/// A Git token batch report over the Git token items of a browser batch.
pub fn git_token_batch_report_from_browser_items(items: Vec<CredentialBrowserBatchItem>) -> (r:
    AccountGitTokenRefreshBatchReport)
    ensures
        is_git_token_report_of(r, items@),
{
    let mut kept: Vec<AccountGitTokenRefreshBatchItem> = Vec::new();
    let mut refreshed: usize = 0;
    let mut skipped: usize = 0;
    let mut failed: usize = 0;
    let mut i: usize = 0;
    let n = items.len();
    while i < n
        invariant
            n == items@.len(),
            i <= n,
            kept@ == git_token_items(items@.subrange(0, i as int)),
            refreshed == count_git_token(kept@, false),
            skipped == count_git_token(kept@, true),
            failed == count_git_token_failed(kept@),
            refreshed <= kept@.len(),
            skipped <= kept@.len(),
            failed <= kept@.len(),
            kept@.len() <= i,
        decreases n - i,
    {
        assert(items@.subrange(0, i + 1).drop_last() =~= items@.subrange(0, i as int));
        match &items[i] {
            CredentialBrowserBatchItem::GitToken(x) => {
                let item = x.clone();
                if item.refreshed {
                    refreshed = refreshed + 1;
                }
                if item.skipped {
                    skipped = skipped + 1;
                }
                if !item.refreshed && !item.skipped {
                    failed = failed + 1;
                }
                let ghost before = kept@;
                kept.push(item);
                assert(kept@.drop_last() =~= before);
            },
            _ => {},
        }
        i = i + 1;
    }
    assert(items@.subrange(0, n as int) =~= items@);
    AccountGitTokenRefreshBatchReport {
        refreshed_count: refreshed,
        skipped_count: skipped,
        failed_count: failed,
        items: kept,
    }
}

/// A password change batch report over the password change items of a
/// browser batch.
pub fn password_change_batch_report_from_browser_items(items: Vec<CredentialBrowserBatchItem>) -> (r:
    OverleafPasswordChangeBatchReport)
    ensures
        is_password_change_report_of(r, items@),
{
    let mut kept: Vec<OverleafPasswordChangeBatchItem> = Vec::new();
    let mut changed: usize = 0;
    let mut i: usize = 0;
    let n = items.len();
    while i < n
        invariant
            n == items@.len(),
            i <= n,
            kept@ == password_change_items(items@.subrange(0, i as int)),
            changed == count_password_updated(kept@),
            changed <= kept@.len(),
            kept@.len() <= i,
        decreases n - i,
    {
        assert(items@.subrange(0, i + 1).drop_last() =~= items@.subrange(0, i as int));
        match &items[i] {
            CredentialBrowserBatchItem::PasswordChange(x) => {
                let item = x.clone();
                if item.password_updated {
                    changed = changed + 1;
                }
                let ghost before = kept@;
                kept.push(item);
                assert(kept@.drop_last() =~= before);
            },
            _ => {},
        }
        i = i + 1;
    }
    assert(items@.subrange(0, n as int) =~= items@);
    let failed = kept.len() - changed;
    OverleafPasswordChangeBatchReport { changed_count: changed, failed_count: failed, items: kept }
}

/// A browser login batch report over the browser login items of a browser
/// batch.
pub fn browser_login_batch_report_from_browser_items(items: Vec<CredentialBrowserBatchItem>) -> (r:
    BrowserAutoLoginBatchReport)
    ensures
        is_browser_login_report_of(r, items@),
{
    let mut kept: Vec<BrowserAutoLoginBatchItem> = Vec::new();
    let mut opened: usize = 0;
    let mut failed: usize = 0;
    let mut cancelled: usize = 0;
    let mut i: usize = 0;
    let n = items.len();
    while i < n
        invariant
            n == items@.len(),
            i <= n,
            kept@ == browser_login_items(items@.subrange(0, i as int)),
            opened == count_browser_login(kept@, 0),
            failed == count_browser_login(kept@, 1),
            cancelled == count_browser_login(kept@, 2),
            opened <= kept@.len(),
            failed <= kept@.len(),
            cancelled <= kept@.len(),
            kept@.len() <= i,
        decreases n - i,
    {
        assert(items@.subrange(0, i + 1).drop_last() =~= items@.subrange(0, i as int));
        match &items[i] {
            CredentialBrowserBatchItem::BrowserLogin(x) => {
                let item = x.clone();
                if item.opened {
                    opened = opened + 1;
                }
                if !item.opened && !item.cancelled {
                    failed = failed + 1;
                }
                if item.cancelled {
                    cancelled = cancelled + 1;
                }
                let ghost before = kept@;
                kept.push(item);
                assert(kept@.drop_last() =~= before);
            },
            _ => {},
        }
        i = i + 1;
    }
    assert(items@.subrange(0, n as int) =~= items@);
    BrowserAutoLoginBatchReport {
        opened_count: opened,
        failed_count: failed,
        cancelled_count: cancelled,
        items: kept,
    }
}

// ---------------------------------------------------------------------------
// One account's item from its login report

/// The batch item of a credential login report, given the failure that the
/// report carries (`failure` is `None` for a report without one).
pub open spec fn item_matches_report(
    item: CredentialBatchItem,
    report: CredentialLoginReport,
    failure: Option<String>,
) -> bool {
    &&& item.alias == report.alias
    &&& item.email == report.email
    &&& item.existing_alias == report.existing_alias
    &&& item.report == Some(report)
    &&& item.error == failure
    &&& item.status == match failure {
        Some(_) => CredentialBatchItemStatus::Failed,
        None => match report.status {
            CredentialLoginStatus::Imported => CredentialBatchItemStatus::Imported,
            CredentialLoginStatus::SkippedDuplicateEmail =>
                CredentialBatchItemStatus::SkippedDuplicateEmail,
            CredentialLoginStatus::UpdatedExisting => CredentialBatchItemStatus::Updated,
        },
    }
}

/// The item of one account's login report, whether it completed, and the
/// failure message it carries.
pub fn credential_browser_batch_item_from_report(
    report: CredentialLoginReport,
    failure_message: Option<String>,
) -> (r: (CredentialBatchItem, bool, Option<String>))
    ensures
        item_matches_report(r.0, report, failure_message),
        r.1 == (failure_message is None),
        r.2 == failure_message,
{
    let status = match &failure_message {
        Some(_) => CredentialBatchItemStatus::Failed,
        None => match report.status {
            CredentialLoginStatus::Imported => CredentialBatchItemStatus::Imported,
            CredentialLoginStatus::SkippedDuplicateEmail =>
                CredentialBatchItemStatus::SkippedDuplicateEmail,
            CredentialLoginStatus::UpdatedExisting => CredentialBatchItemStatus::Updated,
        },
    };
    let completed = failure_message.is_none();
    let item = CredentialBatchItem {
        alias: report.alias.clone(),
        email: report.email.clone(),
        status,
        existing_alias: report.existing_alias.clone(),
        report: Some(report),
        error: failure_message.clone(),
    };
    (item, completed, failure_message)
}

/// As `credential_browser_batch_item_from_report`, counting the item's
/// status in `batch`.
pub fn classify_credential_batch_item(
    batch: &mut CredentialBatchReport,
    report: CredentialLoginReport,
    failure_message: Option<String>,
) -> (r: (CredentialBatchItem, bool, Option<String>))
    requires
        old(batch).imported_count < usize::MAX,
        old(batch).updated_count < usize::MAX,
        old(batch).skipped_duplicate_email_count < usize::MAX,
        old(batch).failed_count < usize::MAX,
    ensures
        item_matches_report(r.0, report, failure_message),
        r.1 == (failure_message is None),
        r.2 == failure_message,
        final(batch).items@ == old(batch).items@,
        final(batch).imported_count == old(batch).imported_count + if r.0.status
            == CredentialBatchItemStatus::Imported {
            1int
        } else {
            0int
        },
        final(batch).updated_count == old(batch).updated_count + if r.0.status
            == CredentialBatchItemStatus::Updated {
            1int
        } else {
            0int
        },
        final(batch).skipped_duplicate_email_count == old(batch).skipped_duplicate_email_count
            + if r.0.status == CredentialBatchItemStatus::SkippedDuplicateEmail {
            1int
        } else {
            0int
        },
        final(batch).failed_count == old(batch).failed_count + if r.0.status
            == CredentialBatchItemStatus::Failed {
            1int
        } else {
            0int
        },
{
    let r = credential_browser_batch_item_from_report(report, failure_message);
    match r.0.status {
        CredentialBatchItemStatus::Imported => batch.imported_count = batch.imported_count + 1,
        CredentialBatchItemStatus::Updated => batch.updated_count = batch.updated_count + 1,
        CredentialBatchItemStatus::SkippedDuplicateEmail => batch.skipped_duplicate_email_count =
        batch.skipped_duplicate_email_count + 1,
        CredentialBatchItemStatus::Failed => batch.failed_count = batch.failed_count + 1,
    }
    r
}

// ---------------------------------------------------------------------------
// Per-account plans

/// An account to add with its credentials.
pub struct CredentialAccountPlan {
    pub alias: String,
    pub alias_hint: Option<String>,
    pub email: String,
    pub password: String,
}

/// A saved account and the password to log in with.
pub struct AliasPasswordPlan {
    pub alias: String,
    pub email: Option<String>,
    pub password: String,
}

/// A saved account whose remote password is to change.
pub struct RemotePasswordChangeBrowserPlan {
    pub alias: String,
    pub email: Option<String>,
    pub current_password: String,
    pub new_password: String,
    pub startup_error: Option<String>,
}

/// A saved account whose Git token is to be checked or fetched.
pub struct GitTokenBrowserPlan {
    pub alias: String,
    pub email: Option<String>,
    pub password: String,
    pub startup_error: Option<String>,
    pub recovery_error: Option<String>,
    pub skip_existing_token: bool,
    pub force_credentials_login: bool,
}

/// A saved account to open a logged-in browser window for.
pub struct BrowserLoginBrowserPlan {
    pub alias: String,
    pub email: Option<String>,
    pub password: String,
    pub startup_error: Option<String>,
    pub password_error: Option<String>,
}

/// What a credential browser batch does for one account.
pub enum CredentialBrowserPlan {
    Add(CredentialAccountPlan),
    Refresh(AliasPasswordPlan),
    PasswordChange(RemotePasswordChangeBrowserPlan),
    GitTokenRefresh(GitTokenBrowserPlan),
    GitToken(GitTokenBrowserPlan),
    BrowserLogin(BrowserLoginBrowserPlan),
}

/// Credentials entered again while a login waits.
pub struct BrowserCredentialsTaskInput {
    pub email: Option<String>,
    pub password: String,
}

pub open spec fn plan_alias(p: CredentialBrowserPlan) -> String {
    match p {
        CredentialBrowserPlan::Add(x) => x.alias,
        CredentialBrowserPlan::Refresh(x) => x.alias,
        CredentialBrowserPlan::PasswordChange(x) => x.alias,
        CredentialBrowserPlan::GitTokenRefresh(x) => x.alias,
        CredentialBrowserPlan::GitToken(x) => x.alias,
        CredentialBrowserPlan::BrowserLogin(x) => x.alias,
    }
}

pub open spec fn plan_email(p: CredentialBrowserPlan) -> Option<String> {
    match p {
        CredentialBrowserPlan::Add(x) => Some(x.email),
        CredentialBrowserPlan::Refresh(x) => x.email,
        CredentialBrowserPlan::PasswordChange(x) => x.email,
        CredentialBrowserPlan::GitTokenRefresh(x) => x.email,
        CredentialBrowserPlan::GitToken(x) => x.email,
        CredentialBrowserPlan::BrowserLogin(x) => x.email,
    }
}

/// The password a login of the plan submits (the current one for a change).
pub open spec fn plan_password(p: CredentialBrowserPlan) -> String {
    match p {
        CredentialBrowserPlan::Add(x) => x.password,
        CredentialBrowserPlan::Refresh(x) => x.password,
        CredentialBrowserPlan::PasswordChange(x) => x.current_password,
        CredentialBrowserPlan::GitTokenRefresh(x) => x.password,
        CredentialBrowserPlan::GitToken(x) => x.password,
        CredentialBrowserPlan::BrowserLogin(x) => x.password,
    }
}

pub open spec fn plan_startup_error(p: CredentialBrowserPlan) -> Option<String> {
    match p {
        CredentialBrowserPlan::PasswordChange(x) => x.startup_error,
        CredentialBrowserPlan::GitTokenRefresh(x) => x.startup_error,
        CredentialBrowserPlan::GitToken(x) => x.startup_error,
        CredentialBrowserPlan::BrowserLogin(x) => x.startup_error,
        _ => None,
    }
}

/// Why the plan cannot fall back to a password login, if it cannot.
pub open spec fn plan_recovery_error(p: CredentialBrowserPlan) -> Option<String> {
    match p {
        CredentialBrowserPlan::GitTokenRefresh(x) => x.recovery_error,
        CredentialBrowserPlan::GitToken(x) => x.recovery_error,
        CredentialBrowserPlan::BrowserLogin(x) => x.password_error,
        _ => None,
    }
}

pub open spec fn plan_skips_existing_token(p: CredentialBrowserPlan) -> bool {
    p matches CredentialBrowserPlan::GitToken(x) && x.skip_existing_token
}

/// The e-mail address of re-entered credentials: trimmed, when not blank.
pub open spec fn input_email(input: BrowserCredentialsTaskInput) -> Option<Seq<char>> {
    match input.email {
        Some(e) => if trimmed(e@).len() > 0 {
            Some(trimmed(e@))
        } else {
            None
        },
        None => None,
    }
}

/// `new` is `old` with the re-entered credentials applied; an added account
/// that gets a new e-mail address takes `new_alias` as its alias.
pub open spec fn credentials_applied(
    old: CredentialBrowserPlan,
    new: CredentialBrowserPlan,
    input: BrowserCredentialsTaskInput,
    new_alias: Option<String>,
) -> bool {
    match (old, new) {
        (CredentialBrowserPlan::Add(a), CredentialBrowserPlan::Add(b)) => {
            &&& b.password == input.password
            &&& b.alias_hint == a.alias_hint
            &&& match input_email(input) {
                Some(e) => b.email@ == e && Some(b.alias) == new_alias,
                None => b.email == a.email && b.alias == a.alias,
            }
        },
        (CredentialBrowserPlan::Refresh(a), CredentialBrowserPlan::Refresh(b)) => b == (
        AliasPasswordPlan { password: input.password, ..a }),
        (CredentialBrowserPlan::PasswordChange(a), CredentialBrowserPlan::PasswordChange(b)) => b
            == (RemotePasswordChangeBrowserPlan { current_password: input.password, ..a }),
        (CredentialBrowserPlan::GitTokenRefresh(a), CredentialBrowserPlan::GitTokenRefresh(b)) => b
            == (GitTokenBrowserPlan { password: input.password, ..a }),
        (CredentialBrowserPlan::GitToken(a), CredentialBrowserPlan::GitToken(b)) => b == (
        GitTokenBrowserPlan { password: input.password, ..a }),
        (CredentialBrowserPlan::BrowserLogin(a), CredentialBrowserPlan::BrowserLogin(b)) => {
            &&& b.alias == a.alias
            &&& b.startup_error == a.startup_error
            &&& b.password == input.password
            &&& b.password_error is None
            &&& match input_email(input) {
                Some(e) => b.email matches Some(x) && x@ == e,
                None => b.email == a.email,
            }
        },
        _ => false,
    }
}

/// The trimmed e-mail address of re-entered credentials, when not blank.
pub fn credentials_input_email(input: &BrowserCredentialsTaskInput) -> (r: Option<String>)
    ensures
        r matches Some(e) ==> input_email(*input) == Some(e@),
        r is None ==> input_email(*input) is None,
{
    match &input.email {
        Some(e) => {
            let t = trim(e.as_str());
            if is_empty_text(t.as_str()) {
                None
            } else {
                Some(t)
            }
        },
        None => None,
    }
}

impl CredentialBrowserPlan {
    pub fn alias(&self) -> (r: &str)
        ensures
            r@ == plan_alias(*self)@,
    {
        match self {
            CredentialBrowserPlan::Add(x) => x.alias.as_str(),
            CredentialBrowserPlan::Refresh(x) => x.alias.as_str(),
            CredentialBrowserPlan::PasswordChange(x) => x.alias.as_str(),
            CredentialBrowserPlan::GitTokenRefresh(x) => x.alias.as_str(),
            CredentialBrowserPlan::GitToken(x) => x.alias.as_str(),
            CredentialBrowserPlan::BrowserLogin(x) => x.alias.as_str(),
        }
    }

    pub fn email(&self) -> (r: Option<&str>)
        ensures
            r matches Some(e) ==> plan_email(*self) matches Some(x) && e@ == x@,
            r is None ==> plan_email(*self) is None,
    {
        let e: &Option<String> = match self {
            CredentialBrowserPlan::Add(x) => return Some(x.email.as_str()),
            CredentialBrowserPlan::Refresh(x) => &x.email,
            CredentialBrowserPlan::PasswordChange(x) => &x.email,
            CredentialBrowserPlan::GitTokenRefresh(x) => &x.email,
            CredentialBrowserPlan::GitToken(x) => &x.email,
            CredentialBrowserPlan::BrowserLogin(x) => &x.email,
        };
        match e {
            Some(x) => Some(x.as_str()),
            None => None,
        }
    }

    pub fn email_owned(&self) -> (r: Option<String>)
        ensures
            r matches Some(e) ==> plan_email(*self) matches Some(x) && e@ == x@,
            r is None ==> plan_email(*self) is None,
    {
        match self.email() {
            Some(e) => Some(owned(e)),
            None => None,
        }
    }

    pub fn password(&self) -> (r: &str)
        ensures
            r@ == plan_password(*self)@,
    {
        match self {
            CredentialBrowserPlan::Add(x) => x.password.as_str(),
            CredentialBrowserPlan::Refresh(x) => x.password.as_str(),
            CredentialBrowserPlan::PasswordChange(x) => x.current_password.as_str(),
            CredentialBrowserPlan::GitTokenRefresh(x) => x.password.as_str(),
            CredentialBrowserPlan::GitToken(x) => x.password.as_str(),
            CredentialBrowserPlan::BrowserLogin(x) => x.password.as_str(),
        }
    }

    pub fn startup_error(&self) -> (r: Option<&str>)
        ensures
            r matches Some(e) ==> plan_startup_error(*self) matches Some(x) && e@ == x@,
            r is None ==> plan_startup_error(*self) is None,
    {
        let e: &Option<String> = match self {
            CredentialBrowserPlan::PasswordChange(x) => &x.startup_error,
            CredentialBrowserPlan::GitTokenRefresh(x) => &x.startup_error,
            CredentialBrowserPlan::GitToken(x) => &x.startup_error,
            CredentialBrowserPlan::BrowserLogin(x) => &x.startup_error,
            _ => return None,
        };
        match e {
            Some(x) => Some(x.as_str()),
            None => None,
        }
    }

    pub fn recovery_error(&self) -> (r: Option<&str>)
        ensures
            r matches Some(e) ==> plan_recovery_error(*self) matches Some(x) && e@ == x@,
            r is None ==> plan_recovery_error(*self) is None,
    {
        let e: &Option<String> = match self {
            CredentialBrowserPlan::GitTokenRefresh(x) => &x.recovery_error,
            CredentialBrowserPlan::GitToken(x) => &x.recovery_error,
            CredentialBrowserPlan::BrowserLogin(x) => &x.password_error,
            _ => return None,
        };
        match e {
            Some(x) => Some(x.as_str()),
            None => None,
        }
    }

    pub fn skip_existing_token(&self) -> (r: bool)
        ensures
            r == plan_skips_existing_token(*self),
    {
        match self {
            CredentialBrowserPlan::GitToken(x) => x.skip_existing_token,
            _ => false,
        }
    }

    /// Applies re-entered credentials. `new_alias` is the alias an added
    /// account takes when the input names an e-mail address; the alias is
    /// derived from the address outside this library.
    pub fn apply_credentials(
        &mut self,
        input: BrowserCredentialsTaskInput,
        new_alias: Option<String>,
    )
        requires
            *old(self) is Add && input_email(input) is Some ==> new_alias is Some,
        ensures
            credentials_applied(*old(self), *final(self), input, new_alias),
    {
        let email = credentials_input_email(&input);
        match self {
            CredentialBrowserPlan::Add(plan) => {
                match (email, new_alias) {
                    (Some(e), Some(a)) => {
                        plan.email = e;
                        plan.alias = a;
                    },
                    _ => {},
                }
                plan.password = input.password;
            },
            CredentialBrowserPlan::Refresh(plan) => {
                plan.password = input.password;
            },
            CredentialBrowserPlan::PasswordChange(plan) => {
                plan.current_password = input.password;
            },
            CredentialBrowserPlan::GitTokenRefresh(plan) => {
                plan.password = input.password;
            },
            CredentialBrowserPlan::GitToken(plan) => {
                plan.password = input.password;
            },
            CredentialBrowserPlan::BrowserLogin(plan) => {
                match email {
                    Some(e) => {
                        plan.email = Some(e);
                    },
                    None => {},
                }
                plan.password = input.password;
                plan.password_error = None;
            },
        }
    }
}

// ---------------------------------------------------------------------------
// Items of accounts that did not finish

/// `item` is the failed or cancelled item of `op` for `alias`, with
/// `message` as its reason; `email` is what a credential item shows as the
/// address, `cancelled` whether a browser login item counts as cancelled.
pub open spec fn is_unfinished_item(
    item: CredentialBrowserBatchItem,
    op: CredentialBrowserOperation,
    alias: Seq<char>,
    email: Option<Seq<char>>,
    message: Seq<char>,
    cancelled: bool,
) -> bool {
    match op {
        CredentialBrowserOperation::Add | CredentialBrowserOperation::Refresh => {
            &&& item matches CredentialBrowserBatchItem::Credential(x)
            &&& x.alias@ == alias
            &&& x.email@ == match email {
                Some(e) => e,
                None => Seq::empty(),
            }
            &&& x.status == CredentialBatchItemStatus::Failed
            &&& x.existing_alias is None
            &&& x.report is None
            &&& x.error matches Some(m) && m@ == message
        },
        CredentialBrowserOperation::PasswordChange => {
            &&& item matches CredentialBrowserBatchItem::PasswordChange(x)
            &&& x.alias@ == alias
            &&& match (x.email, email) {
                (Some(a), Some(b)) => a@ == b,
                (None, None) => true,
                _ => false,
            }
            &&& !x.password_updated
            &&& x.report is None
            &&& x.error matches Some(m) && m@ == message
        },
        CredentialBrowserOperation::GitTokenRefresh | CredentialBrowserOperation::GitToken => {
            &&& item matches CredentialBrowserBatchItem::GitToken(x)
            &&& x.alias@ == alias
            &&& !x.refreshed
            &&& !x.skipped
            &&& x.report is None
            &&& x.error matches Some(AccountGitTokenError::Browser { message: m }) && m@ == message
        },
        CredentialBrowserOperation::BrowserLogin => {
            &&& item matches CredentialBrowserBatchItem::BrowserLogin(x)
            &&& x.alias@ == alias
            &&& !x.opened
            &&& x.cancelled == cancelled
            &&& x.report is None
            &&& if cancelled {
                x.error is None
            } else {
                x.error matches Some(BrowserAutoLoginError::Browser { message: m }) && m@
                    == message
            }
        },
    }
}

/// The reason given for an account that returned no browser result.
pub open spec fn missing_result_text(cancelled: bool) -> Seq<char> {
    if cancelled {
        "任务已取消，账号没有返回浏览器结果"@
    } else {
        "账号没有返回浏览器结果，已标记为失败"@
    }
}

fn unfinished_item(
    op: CredentialBrowserOperation,
    alias: &str,
    email: Option<&str>,
    message: &str,
    cancelled: bool,
) -> (r: CredentialBrowserBatchItem)
    ensures
        is_unfinished_item(
            r,
            op,
            alias@,
            match email {
                Some(e) => Some(e@),
                None => None,
            },
            message@,
            cancelled,
        ),
{
    match op {
        CredentialBrowserOperation::Add | CredentialBrowserOperation::Refresh => {
            let e = match email {
                Some(e) => owned(e),
                None => String::new(),
            };
            CredentialBrowserBatchItem::Credential(
                CredentialBatchItem {
                    alias: owned(alias),
                    email: e,
                    status: CredentialBatchItemStatus::Failed,
                    existing_alias: None,
                    report: None,
                    error: Some(owned(message)),
                },
            )
        },
        CredentialBrowserOperation::PasswordChange => {
            CredentialBrowserBatchItem::PasswordChange(
                OverleafPasswordChangeBatchItem {
                    alias: owned(alias),
                    email: match email {
                        Some(e) => Some(owned(e)),
                        None => None,
                    },
                    password_updated: false,
                    report: None,
                    error: Some(owned(message)),
                },
            )
        },
        CredentialBrowserOperation::GitTokenRefresh | CredentialBrowserOperation::GitToken => {
            CredentialBrowserBatchItem::GitToken(
                AccountGitTokenRefreshBatchItem {
                    alias: owned(alias),
                    refreshed: false,
                    skipped: false,
                    report: None,
                    error: Some(AccountGitTokenError::Browser { message: owned(message) }),
                },
            )
        },
        CredentialBrowserOperation::BrowserLogin => {
            CredentialBrowserBatchItem::BrowserLogin(
                BrowserAutoLoginBatchItem {
                    alias: owned(alias),
                    opened: false,
                    cancelled,
                    report: None,
                    error: if cancelled {
                        None
                    } else {
                        Some(BrowserAutoLoginError::Browser { message: owned(message) })
                    },
                },
            )
        },
    }
}

/// The item of an account that returned no browser result: failed, or
/// cancelled when the batch cancelled it.
pub fn missing_credential_browser_batch_item(
    operation: CredentialBrowserOperation,
    alias: &str,
    cancelled: bool,
) -> (r: CredentialBrowserBatchItem)
    ensures
        is_unfinished_item(r, operation, alias@, None, missing_result_text(cancelled), cancelled),
{
    let message = if cancelled {
        "任务已取消，账号没有返回浏览器结果"
    } else {
        "账号没有返回浏览器结果，已标记为失败"
    };
    unfinished_item(operation, alias, None, message, cancelled)
}

// ---------------------------------------------------------------------------
// One account's job

/// The part of a browser job for one account that its decisions read.
pub struct CredentialBrowserItemJob {
    pub task_id: String,
    pub item_id: String,
    pub plan: CredentialBrowserPlan,
    pub operation: CredentialBrowserOperation,
    pub has_proxy_fallback: bool,
    pub now_unix: i64,
}

/// The items of a batch that reached an end, keyed by item id: a later
/// entry for an id stands over an earlier one.
pub open spec fn entry_for(entries: Seq<(String, CredentialBrowserBatchItem)>, id: Seq<char>) -> Option<
    CredentialBrowserBatchItem,
>
    decreases entries.len(),
{
    if entries.len() == 0 {
        None
    } else if entries.last().0@ == id {
        Some(entries.last().1)
    } else {
        entry_for(entries.drop_last(), id)
    }
}

/// What a batch keeps while its accounts run.
pub struct CredentialBrowserBatchAccumulator {
    pub initial_items: Vec<CredentialBrowserBatchItem>,
    pub ordered_item_ids: Vec<String>,
    pub items: Vec<(String, CredentialBrowserBatchItem)>,
    pub finalized: bool,
}

/// The position of the entry that stands for `id`.
fn find_entry(entries: &Vec<(String, CredentialBrowserBatchItem)>, id: &str) -> (r: Option<usize>)
    ensures
        r is None <==> entry_for(entries@, id@) is None,
        r matches Some(k) ==> k < entries@.len() && entry_for(entries@, id@) == Some(
            entries@[k as int].1,
        ),
{
    let mut j: usize = entries.len();
    assert(entries@.subrange(0, j as int) =~= entries@);
    while j > 0
        invariant
            j <= entries@.len(),
            entry_for(entries@, id@) == entry_for(entries@.subrange(0, j as int), id@),
        decreases j,
    {
        let ghost prefix = entries@.subrange(0, j as int);
        assert(prefix.drop_last() =~= entries@.subrange(0, j - 1));
        if crate::text::text_eq(entries[j - 1].0.as_str(), id) {
            return Some(j - 1);
        }
        j = j - 1;
    }
    None
}

impl CredentialBrowserItemJob {
    /// The item of a job cancelled with `message`.
    pub fn cancelled_item(&self, message: String) -> (r: CredentialBrowserBatchItem)
        ensures
            is_unfinished_item(
                r,
                self.operation,
                plan_alias(self.plan)@,
                match plan_email(self.plan) {
                    Some(e) => Some(e@),
                    None => None,
                },
                message@,
                self.operation == CredentialBrowserOperation::BrowserLogin,
            ),
    {
        let cancelled = match self.operation {
            CredentialBrowserOperation::BrowserLogin => true,
            _ => false,
        };
        unfinished_item(
            self.operation,
            self.plan.alias(),
            self.plan.email(),
            message.as_str(),
            cancelled,
        )
    }

    /// The item of a job that failed with `message`.
    pub fn failure_item(&self, message: String) -> (r: CredentialBrowserBatchItem)
        ensures
            is_unfinished_item(
                r,
                self.operation,
                plan_alias(self.plan)@,
                match plan_email(self.plan) {
                    Some(e) => Some(e@),
                    None => None,
                },
                message@,
                false,
            ),
    {
        unfinished_item(self.operation, self.plan.alias(), self.plan.email(), message.as_str(), false)
    }

    /// Keeps `item` as the job's result unless the job already has one: the
    /// first end of an account stands.
    pub fn store_terminal_item(
        &self,
        accumulator: &mut CredentialBrowserBatchAccumulator,
        item: CredentialBrowserBatchItem,
    )
        ensures
            final(accumulator).initial_items@ == old(accumulator).initial_items@,
            final(accumulator).ordered_item_ids@ == old(accumulator).ordered_item_ids@,
            final(accumulator).finalized == old(accumulator).finalized,
            entry_for(old(accumulator).items@, self.item_id@) is Some ==> final(accumulator).items@
                == old(accumulator).items@,
            entry_for(old(accumulator).items@, self.item_id@) is None ==> final(accumulator).items@
                == old(accumulator).items@.push((self.item_id, item)),
    {
        if find_entry(&accumulator.items, self.item_id.as_str()).is_none() {
            accumulator.items.push((self.item_id.clone(), item));
        }
    }

    /// Whether the account already has a Git token that can be reused.
    /// `stored` is what reading the account store gave: the load error's
    /// text, or for the job's account whether its saved token is reusable
    /// (`None` when the account is not saved).
    pub fn current_git_token_is_reusable(&self, stored: Result<Option<bool>, String>) -> (r: Result<
        bool,
        String,
    >)
        ensures
            match stored {
                Ok(v) => r == Ok::<bool, String>(v == Some(true)),
                Err(e) => r matches Err(m) && m@ == "failed to recheck stored Git token: "@ + e@,
            },
    {
        match stored {
            Ok(v) => Ok(
                match v {
                    Some(b) => b,
                    None => false,
                },
            ),
            Err(e) => Err(concat2("failed to recheck stored Git token: ", e.as_str())),
        }
    }
}

// ---------------------------------------------------------------------------
// Assembling a finished batch

/// What the batch coordinator knows of one account.
pub struct BrowserBatchItemSnapshot {
    pub item_id: String,
    pub alias: String,
    /// The account's phase is `Cancelled`.
    pub cancelled: bool,
    /// The account's phase is terminal.
    pub terminal: bool,
}

/// The registered accounts without a stored result, in order.
pub open spec fn missing_snapshots(
    entries: Seq<(String, CredentialBrowserBatchItem)>,
    registered: Seq<BrowserBatchItemSnapshot>,
) -> Seq<BrowserBatchItemSnapshot>
    decreases registered.len(),
{
    if registered.len() == 0 {
        Seq::empty()
    } else {
        let rest = missing_snapshots(entries, registered.drop_last());
        if entry_for(entries, registered.last().item_id@) is None {
            rest.push(registered.last())
        } else {
            rest
        }
    }
}

/// The stored results of `ids`, in the order of `ids`, skipping ids without
/// one.
pub open spec fn ordered_entries(
    entries: Seq<(String, CredentialBrowserBatchItem)>,
    ids: Seq<String>,
) -> Seq<CredentialBrowserBatchItem>
    decreases ids.len(),
{
    if ids.len() == 0 {
        Seq::empty()
    } else {
        let rest = ordered_entries(entries, ids.drop_last());
        match entry_for(entries, ids.last()@) {
            Some(x) => rest.push(x),
            None => rest,
        }
    }
}

/// `after` is `before` with an entry for each registered account that had
/// none: the item of a missing result, failed or cancelled as the
/// coordinator saw the account.
pub open spec fn missing_results_added(
    before: Seq<(String, CredentialBrowserBatchItem)>,
    after: Seq<(String, CredentialBrowserBatchItem)>,
    op: CredentialBrowserOperation,
    registered: Seq<BrowserBatchItemSnapshot>,
) -> bool {
    let missing = missing_snapshots(before, registered);
    let n = before.len();
    &&& after.len() == n + missing.len()
    &&& after.subrange(0, n as int) == before
    &&& forall|k: int|
        0 <= k < missing.len() ==> {
            &&& (#[trigger] after[n + k]).0 == missing[k].item_id
            &&& is_unfinished_item(
                after[n + k].1,
                op,
                missing[k].alias@,
                None,
                missing_result_text(missing[k].cancelled),
                missing[k].cancelled,
            )
        }
}

/// The items of a finished batch: `initial_items`, then the stored result of
/// each id of `ordered_item_ids`. Each registered account without a result
/// first gets the item of a missing result, failed or cancelled as the
/// coordinator saw it; their aliases are returned too.
pub fn assemble_credential_browser_batch_items(
    operation: CredentialBrowserOperation,
    initial_items: &Vec<CredentialBrowserBatchItem>,
    ordered_item_ids: &Vec<String>,
    accumulated: &mut Vec<(String, CredentialBrowserBatchItem)>,
    registered_items: &Vec<BrowserBatchItemSnapshot>,
) -> (r: (Vec<CredentialBrowserBatchItem>, Vec<String>))
    ensures
        missing_results_added(old(accumulated)@, final(accumulated)@, operation, registered_items@),
        r.1@ == missing_snapshots(old(accumulated)@, registered_items@).map_values(
            |m: BrowserBatchItemSnapshot| m.alias,
        ),
        r.0@ == initial_items@ + ordered_entries(final(accumulated)@, ordered_item_ids@),
{
    let ghost initial = accumulated@;
    let mut missing: Vec<usize> = Vec::new();
    let mut aliases: Vec<String> = Vec::new();
    let mut i: usize = 0;
    while i < registered_items.len()
        invariant
            accumulated@ == initial,
            i <= registered_items@.len(),
            missing@.len() == aliases@.len(),
            missing@.map_values(|k: usize| registered_items@[k as int]) == missing_snapshots(
                initial,
                registered_items@.subrange(0, i as int),
            ),
            forall|j: int| 0 <= j < missing@.len() ==> #[trigger] missing@[j] < i,
            aliases@ == missing_snapshots(initial, registered_items@.subrange(0, i as int)).map_values(
                |m: BrowserBatchItemSnapshot| m.alias,
            ),
        decreases registered_items.len() - i,
    {
        let ghost sub = registered_items@.subrange(0, i + 1);
        assert(sub.drop_last() =~= registered_items@.subrange(0, i as int));
        if find_entry(accumulated, registered_items[i].item_id.as_str()).is_none() {
            let ghost before_m = missing@;
            let ghost before_a = aliases@;
            missing.push(i);
            aliases.push(registered_items[i].alias.clone());
            assert(missing@.map_values(|k: usize| registered_items@[k as int]) =~= before_m.map_values(
                |k: usize| registered_items@[k as int],
            ).push(registered_items@[i as int]));
            assert(aliases@ =~= before_a.push(registered_items@[i as int].alias));
        }
        i = i + 1;
        proof {
            let m = missing_snapshots(initial, registered_items@.subrange(0, i as int));
            assert(aliases@ =~= m.map_values(|s: BrowserBatchItemSnapshot| s.alias));
        }
    }
    assert(registered_items@.subrange(0, registered_items@.len() as int) =~= registered_items@);
    let ghost missing_view = missing_snapshots(initial, registered_items@);
    let n = accumulated.len();
    let mut k: usize = 0;
    while k < missing.len()
        invariant
            n == initial.len(),
            k <= missing@.len(),
            missing@.map_values(|j: usize| registered_items@[j as int]) == missing_view,
            forall|j: int| 0 <= j < missing@.len() ==> #[trigger] missing@[j]
                < registered_items@.len(),
            accumulated@.len() == n + k,
            accumulated@.subrange(0, n as int) == initial,
            forall|j: int|
                0 <= j < k ==> {
                    &&& (#[trigger] accumulated@[n + j]).0 == missing_view[j].item_id
                    &&& is_unfinished_item(
                        accumulated@[n + j].1,
                        operation,
                        missing_view[j].alias@,
                        None,
                        missing_result_text(missing_view[j].cancelled),
                        missing_view[j].cancelled,
                    )
                },
        decreases missing@.len() - k,
    {
        let idx = missing[k];
        assert(missing_view[k as int] == registered_items@[idx as int]);
        let snapshot = &registered_items[idx];
        let item = missing_credential_browser_batch_item(
            operation,
            snapshot.alias.as_str(),
            snapshot.cancelled,
        );
        let ghost before = accumulated@;
        accumulated.push((snapshot.item_id.clone(), item));
        assert(accumulated@.subrange(0, n as int) =~= before.subrange(0, n as int));
        k = k + 1;
    }
    let mut items: Vec<CredentialBrowserBatchItem> = Vec::new();
    let mut a: usize = 0;
    while a < initial_items.len()
        invariant
            a <= initial_items@.len(),
            items@ == initial_items@.subrange(0, a as int),
        decreases initial_items.len() - a,
    {
        items.push(initial_items[a].clone());
        a = a + 1;
        assert(items@ =~= initial_items@.subrange(0, a as int));
    }
    assert(initial_items@.subrange(0, initial_items@.len() as int) =~= initial_items@);
    let mut b: usize = 0;
    while b < ordered_item_ids.len()
        invariant
            b <= ordered_item_ids@.len(),
            items@ == initial_items@ + ordered_entries(
                accumulated@,
                ordered_item_ids@.subrange(0, b as int),
            ),
        decreases ordered_item_ids.len() - b,
    {
        let ghost sub = ordered_item_ids@.subrange(0, b + 1);
        assert(sub.drop_last() =~= ordered_item_ids@.subrange(0, b as int));
        match find_entry(accumulated, ordered_item_ids[b].as_str()) {
            Some(pos) => {
                let ghost before = items@;
                items.push(accumulated[pos].1.clone());
                assert(items@ =~= before.push(accumulated@[pos as int].1));
            },
            None => {},
        }
        b = b + 1;
        assert(items@ =~= initial_items@ + ordered_entries(
            accumulated@,
            ordered_item_ids@.subrange(0, b as int),
        ));
    }
    assert(ordered_item_ids@.subrange(0, ordered_item_ids@.len() as int) =~= ordered_item_ids@);
    (items, aliases)
}

// ---------------------------------------------------------------------------
// Finishing a batch

/// What the coordinator knows of a batch.
pub struct BrowserBatchSnapshot {
    /// Every account of the batch reached an end.
    pub terminal: bool,
    pub items: Vec<BrowserBatchItemSnapshot>,
}

/// What the task store knows of a batch's task.
#[derive(Debug, Clone, Copy, PartialEq, Eq)]
pub struct BatchTaskView {
    pub terminal: bool,
    pub cancel_requested: bool,
}

/// What finishing a batch leads to besides its own task.
#[derive(Debug, Clone, Copy, PartialEq, Eq)]
pub enum CredentialBatchCompletionKind {
    Standard,
    ImportPostActions,
    CredentialRefresh,
}

#[allow(inconsistent_fields)]
/// How a batch whose accounts all reached an end is finished. Each variant
/// but `NotReady` follows the removal of the batch from the coordinator;
/// `missing_warning` is the warning to log about accounts without a result.
pub enum CredentialBatchFinish {
    /// The batch is not finished, or was finished before: nothing to do.
    NotReady,
    /// The task already ended.
    TaskAlreadyFinished,
    /// Cancel the task.
    Cancel { missing_warning: Option<String> },
    /// Hand the items to the account import's post actions.
    ImportPostActions { missing_warning: Option<String>, items: Vec<CredentialBrowserBatchItem> },
    /// Hand the credential report to the refresh that waits for it.
    CredentialRefresh { missing_warning: Option<String>, report: CredentialBatchReport },
    /// Finish the task with the credential report.
    CredentialBatch { missing_warning: Option<String>, report: CredentialBatchReport },
    /// Finish the task with the password change report.
    PasswordChange { missing_warning: Option<String>, report: OverleafPasswordChangeBatchReport },
    /// Finish the task with the Git token report.
    GitToken { missing_warning: Option<String>, report: AccountGitTokenRefreshBatchReport },
    /// Complete the task: every browser window opened.
    BrowserLoginOpened { missing_warning: Option<String>, report: BrowserAutoLoginBatchReport },
    /// Fail the task with `message` and the report.
    BrowserLoginIncomplete {
        missing_warning: Option<String>,
        report: BrowserAutoLoginBatchReport,
        message: String,
    },
}

/// "浏览器批次补全 {count} 个无结果账号，已按失败处理"
pub open spec fn missing_results_warning_text(count: nat) -> Seq<char> {
    "浏览器批次补全 "@ + decimal(count) + " 个无结果账号，已按失败处理"@
}

/// "浏览器自动登录未完全完成：{failed} 个失败，{cancelled} 个取消"
pub open spec fn browser_login_incomplete_text(failed: nat, cancelled: nat) -> Seq<char> {
    "浏览器自动登录未完全完成："@ + decimal(failed) + " 个失败，"@ + decimal(cancelled) + " 个取消"@
}

/// Every account the coordinator knows was cancelled.
pub open spec fn all_cancelled(items: Seq<BrowserBatchItemSnapshot>) -> bool {
    forall|i: int| 0 <= i < items.len() ==> (#[trigger] items[i]).cancelled
}

/// The warning of `r`, for the variants that carry one.
pub open spec fn finish_warning(r: CredentialBatchFinish) -> Option<String> {
    match r {
        CredentialBatchFinish::Cancel { missing_warning } => missing_warning,
        CredentialBatchFinish::ImportPostActions { missing_warning, .. } => missing_warning,
        CredentialBatchFinish::CredentialRefresh { missing_warning, .. } => missing_warning,
        CredentialBatchFinish::CredentialBatch { missing_warning, .. } => missing_warning,
        CredentialBatchFinish::PasswordChange { missing_warning, .. } => missing_warning,
        CredentialBatchFinish::GitToken { missing_warning, .. } => missing_warning,
        CredentialBatchFinish::BrowserLoginOpened { missing_warning, .. } => missing_warning,
        CredentialBatchFinish::BrowserLoginIncomplete { missing_warning, .. } => missing_warning,
        _ => None,
    }
}

/// `r` is how a batch of `op` whose items are `items` finishes, after the
/// task was neither finished nor cancelled.
pub open spec fn finish_by_completion(
    r: CredentialBatchFinish,
    op: CredentialBrowserOperation,
    completion: CredentialBatchCompletionKind,
    items: Seq<CredentialBrowserBatchItem>,
) -> bool {
    match completion {
        CredentialBatchCompletionKind::ImportPostActions => r matches CredentialBatchFinish::ImportPostActions {
            items: x,
            ..
        } && x@ == items,
        CredentialBatchCompletionKind::CredentialRefresh => r matches CredentialBatchFinish::CredentialRefresh {
            report,
            ..
        } && is_credential_report_of(report, items),
        CredentialBatchCompletionKind::Standard => match op {
            CredentialBrowserOperation::Add | CredentialBrowserOperation::Refresh => r matches CredentialBatchFinish::CredentialBatch {
                report,
                ..
            } && is_credential_report_of(report, items),
            CredentialBrowserOperation::PasswordChange => r matches CredentialBatchFinish::PasswordChange {
                report,
                ..
            } && is_password_change_report_of(report, items),
            CredentialBrowserOperation::GitTokenRefresh | CredentialBrowserOperation::GitToken =>
                r matches CredentialBatchFinish::GitToken { report, .. } && is_git_token_report_of(
                report,
                items,
            ),
            CredentialBrowserOperation::BrowserLogin => {
                ||| r matches CredentialBatchFinish::BrowserLoginOpened { report, .. }
                    && is_browser_login_report_of(report, items) && report.failed_count == 0
                    && report.cancelled_count == 0
                ||| r matches CredentialBatchFinish::BrowserLoginIncomplete {
                    report,
                    message,
                    ..
                } && is_browser_login_report_of(report, items) && (report.failed_count != 0
                    || report.cancelled_count != 0) && message@ == browser_login_incomplete_text(
                    report.failed_count as nat,
                    report.cancelled_count as nat,
                )
            },
        },
    }
}

/// Finishes a batch whose accounts all reached an end: assembles its items
/// (giving each account without a result a missing-result item), marks the
/// accumulator finalized and decides what becomes of the task.
pub fn finish_credential_browser_batch(
    operation: CredentialBrowserOperation,
    accumulator: &mut CredentialBrowserBatchAccumulator,
    snapshot: &Option<BrowserBatchSnapshot>,
    task: Option<BatchTaskView>,
    completion: CredentialBatchCompletionKind,
) -> (r: CredentialBatchFinish)
    ensures
        (match snapshot {
            Some(s) => !s.terminal,
            None => true,
        } || old(accumulator).finalized) ==> r is NotReady && *final(accumulator) == *old(
            accumulator,
        ),
        (snapshot matches Some(s) && s.terminal && !old(accumulator).finalized) ==> ({
            let s = snapshot->0;
            let missing = missing_snapshots(old(accumulator).items@, s.items@);
            let items = old(accumulator).initial_items@ + ordered_entries(
                final(accumulator).items@,
                old(accumulator).ordered_item_ids@,
            );
            &&& final(accumulator).finalized
            &&& final(accumulator).initial_items@ == old(accumulator).initial_items@
            &&& final(accumulator).ordered_item_ids@ == old(accumulator).ordered_item_ids@
            &&& missing_results_added(
                old(accumulator).items@,
                final(accumulator).items@,
                operation,
                s.items@,
            )
            &&& if task matches Some(t) && t.terminal {
                r is TaskAlreadyFinished
            } else {
                &&& !(r is NotReady) && !(r is TaskAlreadyFinished)
                &&& match finish_warning(r) {
                    Some(w) => missing.len() > 0 && w@ == missing_results_warning_text(
                        missing.len(),
                    ),
                    None => missing.len() == 0,
                }
                &&& if all_cancelled(s.items@) || (task matches Some(t) && t.cancel_requested) {
                    r is Cancel
                } else {
                    finish_by_completion(r, operation, completion, items)
                }
            }
        }),
{
    let s = match snapshot {
        Some(s) => s,
        None => return CredentialBatchFinish::NotReady,
    };
    if !s.terminal || accumulator.finalized {
        return CredentialBatchFinish::NotReady;
    }
    let mut every_cancelled = true;
    let mut i: usize = 0;
    while i < s.items.len()
        invariant
            i <= s.items@.len(),
            every_cancelled == all_cancelled(s.items@.subrange(0, i as int)),
        decreases s.items.len() - i,
    {
        if !s.items[i].cancelled {
            every_cancelled = false;
        }
        i = i + 1;
        assert(every_cancelled == all_cancelled(s.items@.subrange(0, i as int))) by {
            if every_cancelled {
                assert forall|j: int| 0 <= j < i implies (#[trigger] s.items@.subrange(
                    0,
                    i as int,
                )[j]).cancelled by {
                    assert(s.items@.subrange(0, i as int)[j] == s.items@.subrange(
                        0,
                        i - 1,
                    )[j] || j == i - 1);
                }
            } else if s.items@[i - 1].cancelled {
                let k = choose|k: int|
                    0 <= k < i - 1 && !(#[trigger] s.items@.subrange(0, i - 1)[k]).cancelled;
                assert(!s.items@.subrange(0, i as int)[k].cancelled);
            } else {
                assert(!s.items@.subrange(0, i as int)[i - 1].cancelled);
            }
        }
    }
    assert(s.items@.subrange(0, s.items@.len() as int) =~= s.items@);
    accumulator.finalized = true;
    let (items, missing_aliases) = assemble_credential_browser_batch_items(
        operation,
        &accumulator.initial_items,
        &accumulator.ordered_item_ids,
        &mut accumulator.items,
        &s.items,
    );
    let (task_terminal, cancel_requested) = match task {
        Some(t) => (t.terminal, t.cancel_requested),
        None => (false, false),
    };
    if task_terminal {
        return CredentialBatchFinish::TaskAlreadyFinished;
    }
    let missing_warning = if missing_aliases.len() > 0 {
        let n = usize_decimal(missing_aliases.len());
        Some(concat3("浏览器批次补全 ", n.as_str(), " 个无结果账号，已按失败处理"))
    } else {
        None
    };
    if every_cancelled || cancel_requested {
        return CredentialBatchFinish::Cancel { missing_warning };
    }
    match completion {
        CredentialBatchCompletionKind::ImportPostActions => {
            return CredentialBatchFinish::ImportPostActions { missing_warning, items };
        },
        CredentialBatchCompletionKind::CredentialRefresh => {
            let report = credential_batch_report_from_browser_items(items);
            return CredentialBatchFinish::CredentialRefresh { missing_warning, report };
        },
        CredentialBatchCompletionKind::Standard => {},
    }
    match operation {
        CredentialBrowserOperation::Add | CredentialBrowserOperation::Refresh => {
            let report = credential_batch_report_from_browser_items(items);
            CredentialBatchFinish::CredentialBatch { missing_warning, report }
        },
        CredentialBrowserOperation::PasswordChange => {
            let report = password_change_batch_report_from_browser_items(items);
            CredentialBatchFinish::PasswordChange { missing_warning, report }
        },
        CredentialBrowserOperation::GitTokenRefresh | CredentialBrowserOperation::GitToken => {
            let report = git_token_batch_report_from_browser_items(items);
            CredentialBatchFinish::GitToken { missing_warning, report }
        },
        CredentialBrowserOperation::BrowserLogin => {
            let report = browser_login_batch_report_from_browser_items(items);
            if report.failed_count == 0 && report.cancelled_count == 0 {
                CredentialBatchFinish::BrowserLoginOpened { missing_warning, report }
            } else {
                let f = usize_decimal(report.failed_count);
                let c = usize_decimal(report.cancelled_count);
                let message = concat5(
                    "浏览器自动登录未完全完成：",
                    f.as_str(),
                    " 个失败，",
                    c.as_str(),
                    " 个取消",
                );
                CredentialBatchFinish::BrowserLoginIncomplete { missing_warning, report, message }
            }
        },
    }
}

} // verus!
