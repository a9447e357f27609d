//! The post actions of an account import, run in turn: read back the
//! imported accounts, refresh the session metadata of those that need it,
//! then fetch Git tokens for all of them. The caller performs each request
//! and hands back its outcome; the run keeps the report and writes the log.

use vstd::prelude::*;
use crate::credential::AccountGitTokenRefreshBatchReport;
use crate::errors_remote::{account_git_token_error_message, account_git_token_error_text};
use crate::imports::{
    append_failed_git_token_post_action_errors, append_failed_session_refresh_post_action_errors,
    error_views, git_token_failure_errors, imported_account_needs_session_refresh,
    imported_aliases, imported_aliases_from_import_report, log_views, needs_session_refresh,
    session_failure_errors, session_refresh_batch_log_lines, session_refresh_log_text,
    unrepresented_errors, AccountImportPostAction, AccountImportPostActionError,
    AccountImportPostActionOptions, AccountImportReport, AccountImportWithPostActionsReport,
    ImportedAccountRecord,
};
use crate::credential::count_git_token_failed;
use crate::sessions::{refreshed_items, AccountSessionRefreshBatchReport};
use crate::text::{concat2, concat3, concat4, concat5, decimal, owned, usize_decimal};

verus! {

/// The level of a task log line.
#[derive(Debug, Clone, Copy, PartialEq, Eq, Structural)]
pub enum ImportLogLevel {
    Info,
    Warning,
    Error,
}

/// One line of the task log.
pub struct ImportLog {
    pub level: ImportLogLevel,
    pub text: String,
}

pub open spec fn import_logs(logs: Seq<ImportLog>) -> Seq<(ImportLogLevel, Seq<char>)> {
    logs.map_values(|l: ImportLog| (l.level, l.text@))
}

/// Where the post actions stand.
#[derive(Debug, Clone, Copy, PartialEq, Eq, Structural)]
pub enum ImportPostStage {
    LoadingDocument,
    RefreshingSessions,
    FetchingGitTokens,
    Done,
}

/// What the caller does next.
pub enum ImportPostRequest {
    /// Read the account store back.
    LoadDocument,
    /// Refresh the saved sessions of these aliases.
    RefreshSessions(Vec<String>),
    /// Fetch Git tokens for these aliases with the browser.
    FetchGitTokens(Vec<String>),
    /// The report is complete.
    Finish,
}

pub enum ImportPostRequestView {
    LoadDocument,
    RefreshSessions(Seq<Seq<char>>),
    FetchGitTokens(Seq<Seq<char>>),
    Finish,
}

pub open spec fn names(v: Seq<String>) -> Seq<Seq<char>> {
    v.map_values(|s: String| s@)
}

pub open spec fn request_view(r: ImportPostRequest) -> ImportPostRequestView {
    match r {
        ImportPostRequest::LoadDocument => ImportPostRequestView::LoadDocument,
        ImportPostRequest::RefreshSessions(a) => ImportPostRequestView::RefreshSessions(names(a@)),
        ImportPostRequest::FetchGitTokens(a) => ImportPostRequestView::FetchGitTokens(names(a@)),
        ImportPostRequest::Finish => ImportPostRequestView::Finish,
    }
}

/// The post actions of one import.
pub struct ImportPostActionRun {
    pub report: AccountImportWithPostActionsReport,
    pub options: AccountImportPostActionOptions,
    /// The aliases the import saved, in order.
    pub imported: Vec<String>,
    pub stage: ImportPostStage,
}

/// The stage agrees with the requests the run has made.
pub open spec fn run_wf(run: ImportPostActionRun) -> bool {
    &&& run.stage is RefreshingSessions ==> run.options.refresh_session_metadata
    &&& run.stage is FetchingGitTokens ==> run.options.fetch_git_token && run.imported@.len() > 0
}

/// The step to the Git tokens: asked for and with accounts, they are
/// fetched; asked for without accounts, that is logged; else nothing.
pub open spec fn git_step(imported: Seq<Seq<char>>, fetch: bool) -> (Seq<(ImportLogLevel, Seq<char>)>, ImportPostRequestView, ImportPostStage) {
    if imported.len() > 0 && fetch {
        (
            seq![(ImportLogLevel::Info, "开始获取导入账号 Git 令牌："@ + decimal(imported.len()) + " 个账号"@)],
            ImportPostRequestView::FetchGitTokens(imported),
            ImportPostStage::FetchingGitTokens,
        )
    } else if fetch {
        (seq![(ImportLogLevel::Info, "导入后 Git 令牌获取已跳过：没有需要处理的账号"@)], ImportPostRequestView::Finish, ImportPostStage::Done)
    } else {
        (Seq::empty(), ImportPostRequestView::Finish, ImportPostStage::Done)
    }
}

/// The imported aliases whose saved record needs its session refreshed.
pub open spec fn refresh_aliases(imported: Seq<String>, records: Seq<Option<ImportedAccountRecord>>, now_unix: i64) -> Seq<Seq<char>>
    decreases imported.len(),
{
    if imported.len() == 0 || records.len() < imported.len() {
        Seq::empty()
    } else {
        let n = imported.len() - 1;
        let rest = refresh_aliases(imported.drop_last(), records.subrange(0, n), now_unix);
        match records[n] {
            Some(r) => if needs_session_refresh(r, now_unix) {
                rest.push(imported.last()@)
            } else {
                rest
            },
            None => rest,
        }
    }
}

/// The report's other parts are kept.
pub open spec fn keeps(a: AccountImportWithPostActionsReport, b: AccountImportWithPostActionsReport) -> bool {
    &&& a.import == b.import
    &&& a.session_refresh == b.session_refresh
    &&& a.git_token_generation == b.git_token_generation
}

fn info(text: String) -> (r: ImportLog)
    ensures
        r.level == ImportLogLevel::Info && r.text == text,
{
    ImportLog { level: ImportLogLevel::Info, text }
}

fn push_log(logs: &mut Vec<ImportLog>, level: ImportLogLevel, text: String)
    ensures
        import_logs(final(logs)@) == import_logs(old(logs)@).push((level, text@)),
{
    let ghost before = logs@;
    logs.push(ImportLog { level, text });
    assert(import_logs(logs@) =~= import_logs(before).push((level, text@)));
}

fn push_error(errors: &mut Vec<AccountImportPostActionError>, action: AccountImportPostAction, message: String)
    ensures
        error_views(final(errors)@) == error_views(old(errors)@).push((action, message@)),
{
    let ghost before = errors@;
    errors.push(AccountImportPostActionError { action, message });
    assert(error_views(errors@) =~= error_views(before).push((action, message@)));
}

fn clone_names(v: &Vec<String>) -> (r: Vec<String>)
    ensures
        names(r@) == names(v@),
{
    let mut out: Vec<String> = Vec::new();
    let mut i: usize = 0;
    while i < v.len()
        invariant
            i <= v@.len(),
            out@.len() == i,
            forall|k: int| 0 <= k < i ==> #[trigger] out@[k]@ == v@[k]@,
        decreases v.len() - i,
    {
        out.push(owned(v[i].as_str()));
        i = i + 1;
    }
    assert(names(out@) =~= names(v@));
    out
}

impl ImportPostActionRun {
    /// Starts the post actions of `import`: the import's counts are logged
    /// and the account store is read back.
    pub fn start(import: AccountImportReport, options: AccountImportPostActionOptions) -> (r: (
        ImportPostActionRun,
        Vec<ImportLog>,
        ImportPostRequest,
    ))
        ensures
            r.0.report.import == import,
            r.0.report.session_refresh is None,
            r.0.report.git_token_generation is None,
            r.0.report.post_action_errors@.len() == 0,
            r.0.options == options,
            r.0.imported@ == imported_aliases(import.decisions@),
            r.0.stage == ImportPostStage::LoadingDocument,
            import_logs(r.1@) == seq![(
                ImportLogLevel::Info,
                "账号导入写入完成："@ + decimal(import.imported_count as nat) + " 个导入，"@
                    + decimal(import.skipped_duplicate_email_count as nat) + " 个重复邮箱跳过，"@
                    + decimal(import.alias_conflict_count as nat) + " 个别名冲突"@,
            )],
            r.2 is LoadDocument,
            run_wf(r.0),
    {
        let imported = imported_aliases_from_import_report(&import);
        let text = concat2(
            concat5(
                "账号导入写入完成：",
                usize_decimal(import.imported_count).as_str(),
                " 个导入，",
                usize_decimal(import.skipped_duplicate_email_count).as_str(),
                " 个重复邮箱跳过，",
            ).as_str(),
            concat2(usize_decimal(import.alias_conflict_count).as_str(), " 个别名冲突").as_str(),
        );
        let mut logs: Vec<ImportLog> = Vec::new();
        assert(text@ =~= "账号导入写入完成："@ + decimal(import.imported_count as nat) + " 个导入，"@
            + decimal(import.skipped_duplicate_email_count as nat) + " 个重复邮箱跳过，"@
            + decimal(import.alias_conflict_count as nat) + " 个别名冲突"@);
        push_log(&mut logs, ImportLogLevel::Info, text);
        let report = AccountImportWithPostActionsReport {
            import,
            session_refresh: None,
            git_token_generation: None,
            post_action_errors: Vec::new(),
        };
        (ImportPostActionRun { report, options, imported, stage: ImportPostStage::LoadingDocument }, logs, ImportPostRequest::LoadDocument)
    }

    fn git_tokens_next(&mut self, logs: &mut Vec<ImportLog>) -> (r: ImportPostRequest)
        ensures
            ({
                let (l, q, s) = git_step(names(old(self).imported@), old(self).options.fetch_git_token);
                &&& import_logs(final(logs)@) == import_logs(old(logs)@) + l
                &&& request_view(r) == q
                &&& final(self).stage == s
            }),
            final(self).report == old(self).report,
            final(self).options == old(self).options,
            final(self).imported == old(self).imported,
            final(self).stage is FetchingGitTokens ==> final(self).options.fetch_git_token && final(self).imported@.len() > 0,
    {
        let ghost start = import_logs(logs@);
        if self.imported.len() > 0 && self.options.fetch_git_token {
            let text = concat3("开始获取导入账号 Git 令牌：", usize_decimal(self.imported.len()).as_str(), " 个账号");
            push_log(logs, ImportLogLevel::Info, text);
            self.stage = ImportPostStage::FetchingGitTokens;
            proof {
                assert(import_logs(logs@) =~= start + git_step(names(self.imported@), true).0);
            }
            ImportPostRequest::FetchGitTokens(clone_names(&self.imported))
        } else if self.options.fetch_git_token {
            push_log(logs, ImportLogLevel::Info, owned("导入后 Git 令牌获取已跳过：没有需要处理的账号"));
            self.stage = ImportPostStage::Done;
            proof {
                assert(import_logs(logs@) =~= start + git_step(names(self.imported@), true).0);
            }
            ImportPostRequest::Finish
        } else {
            self.stage = ImportPostStage::Done;
            proof {
                assert(import_logs(logs@) =~= start + git_step(names(self.imported@), false).0);
            }
            ImportPostRequest::Finish
        }
    }

    /// The account store was read back: `records` holds each imported
    /// alias's saved record, in order, or the store could not be read and
    /// the error's text fails every post action asked for.
    pub fn document_loaded(&mut self, records: Result<Vec<Option<ImportedAccountRecord>>, String>, now_unix: i64) -> (r: (
        Vec<ImportLog>,
        ImportPostRequest,
    ))
        requires
            old(self).stage == ImportPostStage::LoadingDocument,
            run_wf(*old(self)),
            records matches Ok(v) ==> v@.len() == old(self).imported@.len(),
        ensures
            run_wf(*final(self)),
            final(self).options == old(self).options,
            final(self).imported == old(self).imported,
            keeps(old(self).report, final(self).report),
            records matches Err(e) ==> ({
                &&& import_logs(r.0@) == seq![(ImportLogLevel::Error, "导入后置动作读取账号失败："@ + e@)]
                &&& error_views(final(self).report.post_action_errors@) == error_views(old(self).report.post_action_errors@)
                    + (if old(self).options.refresh_session_metadata {
                        seq![(AccountImportPostAction::RefreshSessionMetadata, e@)]
                    } else {
                        Seq::empty()
                    }) + (if old(self).options.fetch_git_token {
                        seq![(AccountImportPostAction::FetchGitToken, e@)]
                    } else {
                        Seq::empty()
                    })
                &&& r.1 is Finish
                &&& final(self).stage == ImportPostStage::Done
            }),
            records matches Ok(v) ==> ({
                let aliases = refresh_aliases(old(self).imported@, v@, now_unix);
                let refresh = old(self).options.refresh_session_metadata;
                &&& final(self).report.post_action_errors@ == old(self).report.post_action_errors@
                &&& (aliases.len() > 0 && refresh) ==> (import_logs(r.0@) == seq![(
                    ImportLogLevel::Info,
                    "开始刷新导入账号状态元数据："@ + decimal(aliases.len()) + " 个账号"@,
                )] && request_view(r.1) == ImportPostRequestView::RefreshSessions(aliases)
                    && final(self).stage == ImportPostStage::RefreshingSessions)
                &&& !(aliases.len() > 0 && refresh) ==> ({
                    let (l, q, s) = git_step(names(old(self).imported@), old(self).options.fetch_git_token);
                    let skipped: Seq<(ImportLogLevel, Seq<char>)> = if refresh {
                        seq![(ImportLogLevel::Info, "导入后状态刷新已跳过：没有需要更新的账号"@)]
                    } else {
                        Seq::empty()
                    };
                    &&& import_logs(r.0@) == skipped + l
                    &&& request_view(r.1) == q
                    &&& final(self).stage == s
                })
            }),
    {
        let mut logs: Vec<ImportLog> = Vec::new();
        match records {
            Err(e) => {
                push_log(&mut logs, ImportLogLevel::Error, concat2("导入后置动作读取账号失败：", e.as_str()));
                let ghost start = error_views(self.report.post_action_errors@);
                if self.options.refresh_session_metadata {
                    push_error(&mut self.report.post_action_errors, AccountImportPostAction::RefreshSessionMetadata, e.clone());
                }
                let ghost mid = error_views(self.report.post_action_errors@);
                if self.options.fetch_git_token {
                    push_error(&mut self.report.post_action_errors, AccountImportPostAction::FetchGitToken, e.clone());
                }
                proof {
                    assert(import_logs(logs@) =~= seq![(ImportLogLevel::Error, "导入后置动作读取账号失败："@ + e@)]);
                    let a: Seq<(AccountImportPostAction, Seq<char>)> = if self.options.refresh_session_metadata {
                        seq![(AccountImportPostAction::RefreshSessionMetadata, e@)]
                    } else {
                        Seq::empty()
                    };
                    let b: Seq<(AccountImportPostAction, Seq<char>)> = if self.options.fetch_git_token {
                        seq![(AccountImportPostAction::FetchGitToken, e@)]
                    } else {
                        Seq::empty()
                    };
                    assert(mid =~= start + a);
                    assert(error_views(self.report.post_action_errors@) =~= start + a + b);
                }
                self.stage = ImportPostStage::Done;
                (logs, ImportPostRequest::Finish)
            },
            Ok(v) => {
                let mut aliases: Vec<String> = Vec::new();
                let mut i: usize = 0;
                while i < self.imported.len()
                    invariant
                        i <= self.imported@.len(),
                        v@.len() == self.imported@.len(),
                        names(aliases@) == refresh_aliases(self.imported@.subrange(0, i as int), v@.subrange(0, i as int), now_unix),
                    decreases self.imported.len() - i,
                {
                    proof {
                        let a = self.imported@.subrange(0, i + 1);
                        let b = v@.subrange(0, i + 1);
                        assert(a.drop_last() =~= self.imported@.subrange(0, i as int));
                        assert(b.subrange(0, i as int) =~= v@.subrange(0, i as int));
                    }
                    let ghost before = aliases@;
                    match &v[i] {
                        Some(rec) => {
                            if imported_account_needs_session_refresh(rec, now_unix) {
                                aliases.push(self.imported[i].clone());
                                assert(names(aliases@) =~= names(before).push(self.imported@[i as int]@));
                            }
                        },
                        None => {},
                    }
                    i = i + 1;
                }
                proof {
                    assert(self.imported@.subrange(0, self.imported@.len() as int) =~= self.imported@);
                    assert(v@.subrange(0, v@.len() as int) =~= v@);
                }
                let refresh = self.options.refresh_session_metadata;
                if aliases.len() > 0 && refresh {
                    let text = concat3("开始刷新导入账号状态元数据：", usize_decimal(aliases.len()).as_str(), " 个账号");
                    push_log(&mut logs, ImportLogLevel::Info, text);
                    self.stage = ImportPostStage::RefreshingSessions;
                    proof {
                        assert(import_logs(logs@) =~= seq![(
                            ImportLogLevel::Info,
                            "开始刷新导入账号状态元数据："@ + decimal(aliases@.len()) + " 个账号"@,
                        )]);
                    }
                    (logs, ImportPostRequest::RefreshSessions(aliases))
                } else {
                    if refresh {
                        push_log(&mut logs, ImportLogLevel::Info, owned("导入后状态刷新已跳过：没有需要更新的账号"));
                    }
                    let ghost skipped = import_logs(logs@);
                    proof {
                        if refresh {
                            assert(skipped =~= seq![(ImportLogLevel::Info, "导入后状态刷新已跳过：没有需要更新的账号"@)]);
                        } else {
                            assert(skipped =~= Seq::<(ImportLogLevel, Seq<char>)>::empty());
                        }
                    }
                    let q = self.git_tokens_next(&mut logs);
                    (logs, q)
                }
            },
        }
    }
}

/// What the token report of an account says was found.
#[derive(Debug, Clone, Copy, PartialEq, Eq, Structural)]
pub enum GitTokenRefreshStatus {
    VisibleTokenSaved,
    ExistingMaskedTokenOnly,
    TokenActionAvailable,
    NotFound,
}

pub open spec fn git_status_text(s: Option<GitTokenRefreshStatus>) -> Seq<char> {
    match s {
        Some(GitTokenRefreshStatus::VisibleTokenSaved) => "已读取并保存 token"@,
        Some(GitTokenRefreshStatus::ExistingMaskedTokenOnly) => "已确认已有 token"@,
        Some(GitTokenRefreshStatus::TokenActionAvailable) => "未发现已保存 token，可生成"@,
        Some(GitTokenRefreshStatus::NotFound) => "未发现 token 或生成入口"@,
        None => "状态已读取"@,
    }
}

fn git_status_message(s: Option<GitTokenRefreshStatus>) -> (r: &'static str)
    ensures
        r@ == git_status_text(s),
{
    match s {
        Some(GitTokenRefreshStatus::VisibleTokenSaved) => "已读取并保存 token",
        Some(GitTokenRefreshStatus::ExistingMaskedTokenOnly) => "已确认已有 token",
        Some(GitTokenRefreshStatus::TokenActionAvailable) => "未发现已保存 token，可生成",
        Some(GitTokenRefreshStatus::NotFound) => "未发现 token 或生成入口",
        None => "状态已读取",
    }
}

/// The log lines of the accounts of a Git token batch under `label`;
/// `statuses` holds what each account's token report says was found.
pub open spec fn git_token_log_text(
    items: Seq<crate::credential::AccountGitTokenRefreshBatchItem>,
    statuses: Seq<Option<GitTokenRefreshStatus>>,
    label: Seq<char>,
) -> Seq<(ImportLogLevel, Seq<char>)>
    decreases items.len(),
{
    if items.len() == 0 || statuses.len() < items.len() {
        Seq::empty()
    } else {
        let n = items.len() - 1;
        let x = items.last();
        git_token_log_text(items.drop_last(), statuses.subrange(0, n), label).push(
            if x.skipped {
                (ImportLogLevel::Info, label + "："@ + x.alias@ + " 跳过（已有有效 token）"@)
            } else if x.refreshed {
                (ImportLogLevel::Info, label + "："@ + x.alias@ + " 完成（"@ + git_status_text(statuses[n]) + "）"@)
            } else {
                (ImportLogLevel::Warning, label + "："@ + x.alias@ + " 失败："@ + match x.error {
                    Some(e) => account_git_token_error_text(e),
                    None => "未知错误"@,
                })
            },
        )
    }
}

pub open spec fn level_of(warning: bool) -> ImportLogLevel {
    if warning {
        ImportLogLevel::Warning
    } else {
        ImportLogLevel::Info
    }
}

/// The summary line of a batch: a warning when an account failed.
pub open spec fn git_token_summary(r: AccountGitTokenRefreshBatchReport, label: Seq<char>) -> (ImportLogLevel, Seq<char>) {
    (
        level_of(r.failed_count != 0),
        label + "完成：成功 "@ + decimal(r.refreshed_count as nat) + " 个，跳过 "@ + decimal(r.skipped_count as nat)
            + " 个，失败 "@ + decimal(r.failed_count as nat) + " 个"@,
    )
}

/// The log lines of a Git token batch under `label`: one per account, then
/// the summary.
pub fn git_token_batch_log_lines(
    report: &AccountGitTokenRefreshBatchReport,
    statuses: &Vec<Option<GitTokenRefreshStatus>>,
    label: &str,
) -> (r: Vec<ImportLog>)
    requires
        statuses@.len() == report.items@.len(),
    ensures
        import_logs(r@) == git_token_log_text(report.items@, statuses@, label@).push(git_token_summary(*report, label@)),
{
    let mut out: Vec<ImportLog> = Vec::new();
    let mut i: usize = 0;
    assert(import_logs(out@) =~= git_token_log_text(report.items@.subrange(0, 0), statuses@.subrange(0, 0), label@));
    while i < report.items.len()
        invariant
            i <= report.items@.len(),
            statuses@.len() == report.items@.len(),
            import_logs(out@) == git_token_log_text(report.items@.subrange(0, i as int), statuses@.subrange(0, i as int), label@),
        decreases report.items.len() - i,
    {
        proof {
            let a = report.items@.subrange(0, i + 1);
            let b = statuses@.subrange(0, i + 1);
            assert(a.drop_last() =~= report.items@.subrange(0, i as int));
            assert(b.subrange(0, i as int) =~= statuses@.subrange(0, i as int));
        }
        let item = &report.items[i];
        let (level, text) = if item.skipped {
            (ImportLogLevel::Info, concat4(label, "：", item.alias.as_str(), " 跳过（已有有效 token）"))
        } else if item.refreshed {
            let st = git_status_message(statuses[i]);
            let head = concat4(label, "：", item.alias.as_str(), " 完成（");
            (ImportLogLevel::Info, concat3(head.as_str(), st, "）"))
        } else {
            let detail = match &item.error {
                Some(e) => account_git_token_error_message(e),
                None => owned("未知错误"),
            };
            (ImportLogLevel::Warning, concat5(label, "：", item.alias.as_str(), " 失败：", detail.as_str()))
        };
        push_log(&mut out, level, text);
        i = i + 1;
    }
    proof {
        assert(report.items@.subrange(0, report.items@.len() as int) =~= report.items@);
        assert(statuses@.subrange(0, statuses@.len() as int) =~= statuses@);
    }
    let level = if report.failed_count != 0 { ImportLogLevel::Warning } else { ImportLogLevel::Info };
    let head = concat5(label, "完成：成功 ", usize_decimal(report.refreshed_count).as_str(), " 个，跳过 ", usize_decimal(report.skipped_count).as_str());
    let text = concat4(head.as_str(), " 个，失败 ", usize_decimal(report.failed_count).as_str(), " 个");
    assert(text@ =~= git_token_summary(*report, label@).1);
    push_log(&mut out, level, text);
    out
}

/// Lines with a warning flag as lines with a level.
pub open spec fn leveled(lines: Seq<(bool, Seq<char>)>) -> Seq<(ImportLogLevel, Seq<char>)> {
    lines.map_values(|l: (bool, Seq<char>)| (level_of(l.0), l.1))
}

fn leveled_logs(logs: Vec<crate::credential_job::StageLog>) -> (r: Vec<ImportLog>)
    ensures
        import_logs(r@) == leveled(log_views(logs@)),
{
    let mut out: Vec<ImportLog> = Vec::new();
    let mut i: usize = 0;
    while i < logs.len()
        invariant
            i <= logs@.len(),
            out@.len() == i,
            forall|k: int| 0 <= k < i ==> (#[trigger] out@[k]).level == level_of(logs@[k].warning) && out@[k].text@ == logs@[k].text@,
        decreases logs.len() - i,
    {
        let level = if logs[i].warning { ImportLogLevel::Warning } else { ImportLogLevel::Info };
        out.push(ImportLog { level, text: owned(logs[i].text.as_str()) });
        i = i + 1;
    }
    assert(import_logs(out@) =~= leveled(log_views(logs@)));
    out
}

/// What fetching Git tokens came to: the batch report with the status each
/// account's token report shows, the error's text, or no browser to run it.
pub enum GitTokenOutcome {
    Report(AccountGitTokenRefreshBatchReport, Vec<Option<GitTokenRefreshStatus>>),
    Failed(String),
    NotConfigured,
}

impl ImportPostActionRun {
    /// The sessions were refreshed, or the error's text: the batch is logged
    /// under `导入后状态刷新` and its failures recorded, then the Git tokens
    /// follow.
    pub fn sessions_refreshed(&mut self, outcome: Result<AccountSessionRefreshBatchReport, String>) -> (r: (
        Vec<ImportLog>,
        ImportPostRequest,
    ))
        requires
            old(self).stage == ImportPostStage::RefreshingSessions,
            run_wf(*old(self)),
        ensures
            run_wf(*final(self)),
            final(self).options == old(self).options,
            final(self).imported == old(self).imported,
            final(self).report.import == old(self).report.import,
            final(self).report.git_token_generation == old(self).report.git_token_generation,
            ({
                let (l, q, s) = git_step(names(old(self).imported@), old(self).options.fetch_git_token);
                &&& request_view(r.1) == q
                &&& final(self).stage == s
                &&& match outcome {
                    Ok(rep) => {
                        &&& import_logs(r.0@) == leveled(session_refresh_log_text(rep.items@, "导入后状态刷新"@).push((
                            rep.failed_count != 0,
                            "导入后状态刷新完成：成功 "@ + decimal(rep.refreshed_count as nat) + " 个，失败 "@
                                + decimal(rep.failed_count as nat) + " 个"@,
                        ))) + l
                        &&& error_views(final(self).report.post_action_errors@) == error_views(old(self).report.post_action_errors@)
                            + session_failure_errors(rep.items@) + unrepresented_errors(
                            AccountImportPostAction::RefreshSessionMetadata,
                            rep.failed_count as nat,
                            (rep.items@.len() - refreshed_items(rep.items@)) as nat,
                        )
                        &&& final(self).report.session_refresh == Some(rep)
                    },
                    Err(m) => {
                        &&& import_logs(r.0@) == seq![(ImportLogLevel::Warning, "导入后状态刷新失败："@ + m@)] + l
                        &&& error_views(final(self).report.post_action_errors@) == error_views(old(self).report.post_action_errors@)
                            .push((AccountImportPostAction::RefreshSessionMetadata, m@))
                        &&& final(self).report.session_refresh == old(self).report.session_refresh
                    },
                }
            }),
    {
        let mut logs: Vec<ImportLog>;
        match outcome {
            Ok(rep) => {
                let lines = session_refresh_batch_log_lines(&rep, "导入后状态刷新");
                proof {
                    reveal_strlit("导入后状态刷新");
                    assert("导入后状态刷新"@ + "完成：成功 "@ =~= "导入后状态刷新完成：成功 "@) by {
                        reveal_strlit("完成：成功 ");
                        reveal_strlit("导入后状态刷新完成：成功 ");
                    }
                }
                logs = leveled_logs(lines);
                append_failed_session_refresh_post_action_errors(&mut self.report.post_action_errors, &rep);
                self.report.session_refresh = Some(rep);
            },
            Err(m) => {
                logs = Vec::new();
                push_log(&mut logs, ImportLogLevel::Warning, concat2("导入后状态刷新失败：", m.as_str()));
                assert(import_logs(logs@) =~= seq![(ImportLogLevel::Warning, "导入后状态刷新失败："@ + m@)]);
                push_error(&mut self.report.post_action_errors, AccountImportPostAction::RefreshSessionMetadata, m);
            },
        }
        let q = self.git_tokens_next(&mut logs);
        (logs, q)
    }

    /// The Git tokens were fetched, or not: the batch is logged under
    /// `导入后 Git 令牌` and its failures recorded, and the run is done.
    pub fn git_tokens_fetched(&mut self, outcome: GitTokenOutcome) -> (r: Vec<ImportLog>)
        requires
            old(self).stage == ImportPostStage::FetchingGitTokens,
            run_wf(*old(self)),
            outcome matches GitTokenOutcome::Report(rep, st) ==> st@.len() == rep.items@.len(),
        ensures
            final(self).stage == ImportPostStage::Done,
            final(self).options == old(self).options,
            final(self).imported == old(self).imported,
            final(self).report.import == old(self).report.import,
            final(self).report.session_refresh == old(self).report.session_refresh,
            match outcome {
                GitTokenOutcome::Report(rep, st) => {
                    &&& import_logs(r@) == git_token_log_text(rep.items@, st@, "导入后 Git 令牌"@).push(git_token_summary(rep, "导入后 Git 令牌"@))
                    &&& error_views(final(self).report.post_action_errors@) == error_views(old(self).report.post_action_errors@)
                        + git_token_failure_errors(rep.items@) + unrepresented_errors(
                        AccountImportPostAction::FetchGitToken,
                        rep.failed_count as nat,
                        count_git_token_failed(rep.items@),
                    )
                    &&& final(self).report.git_token_generation == Some(rep)
                },
                GitTokenOutcome::Failed(m) => {
                    &&& import_logs(r@) == seq![(ImportLogLevel::Warning, "导入后 Git 令牌获取失败："@ + m@)]
                    &&& error_views(final(self).report.post_action_errors@) == error_views(old(self).report.post_action_errors@)
                        .push((AccountImportPostAction::FetchGitToken, m@))
                    &&& final(self).report.git_token_generation == old(self).report.git_token_generation
                },
                GitTokenOutcome::NotConfigured => {
                    &&& import_logs(r@) == seq![(ImportLogLevel::Warning, "导入后 Git 令牌获取失败：浏览器自动化未配置"@)]
                    &&& error_views(final(self).report.post_action_errors@) == error_views(old(self).report.post_action_errors@)
                        .push((AccountImportPostAction::FetchGitToken, "browser automation is not configured"@))
                    &&& final(self).report.git_token_generation == old(self).report.git_token_generation
                },
            },
    {
        let mut logs: Vec<ImportLog> = Vec::new();
        match outcome {
            GitTokenOutcome::Report(rep, st) => {
                logs = git_token_batch_log_lines(&rep, &st, "导入后 Git 令牌");
                append_failed_git_token_post_action_errors(&mut self.report.post_action_errors, &rep);
                self.report.git_token_generation = Some(rep);
            },
            GitTokenOutcome::Failed(m) => {
                push_log(&mut logs, ImportLogLevel::Warning, concat2("导入后 Git 令牌获取失败：", m.as_str()));
                assert(import_logs(logs@) =~= seq![(ImportLogLevel::Warning, "导入后 Git 令牌获取失败："@ + m@)]);
                push_error(&mut self.report.post_action_errors, AccountImportPostAction::FetchGitToken, m);
            },
            GitTokenOutcome::NotConfigured => {
                push_log(&mut logs, ImportLogLevel::Warning, owned("导入后 Git 令牌获取失败：浏览器自动化未配置"));
                assert(import_logs(logs@) =~= seq![(ImportLogLevel::Warning, "导入后 Git 令牌获取失败：浏览器自动化未配置"@)]);
                push_error(&mut self.report.post_action_errors, AccountImportPostAction::FetchGitToken, owned("browser automation is not configured"));
            },
        }
        self.stage = ImportPostStage::Done;
        logs
    }
}

} // verus!
