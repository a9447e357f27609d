//! Batches that open a logged-in browser window per account: what each
//! account's attempt reports, the batch's items in the accounts' order, and
//! how the batch's task ends.

use vstd::prelude::*;
use crate::credential::{count_browser_login, BrowserAutoLoginBatchItem, BrowserAutoLoginBatchReport};
use crate::errors::{browser_auto_login_error_message, browser_auto_login_error_text, BrowserAutoLoginError};
use crate::text::{concat2, concat3, concat4, concat6, decimal, owned, text_eq, usize_decimal};

verus! {

/// What one account's window attempt comes to: its item, whether the window
/// opened, the message the coordinator marks it with, and the log line
/// (a warning when the window did not open).
pub struct WindowItemOutcome {
    pub item: BrowserAutoLoginBatchItem,
    pub completed: bool,
    pub message: String,
    pub log_warning: bool,
    pub log: String,
}

/// The message of an attempt that came back with an item.
pub open spec fn item_message(alias: Seq<char>, item: BrowserAutoLoginBatchItem) -> Seq<char> {
    if item.opened {
        alias + " 的浏览器窗口已打开"@
    } else {
        match item.error {
            Some(e) => browser_auto_login_error_text(e),
            None => "浏览器登录结果未确认窗口已打开"@,
        }
    }
}

/// The outcome of the window attempt of `alias`: the item built from the
/// login report, or the error.
pub fn window_item_outcome(alias: &str, result: Result<BrowserAutoLoginBatchItem, BrowserAutoLoginError>) -> (r: WindowItemOutcome)
    ensures
        match result {
            Ok(item) => {
                &&& r.item == item
                &&& r.completed == item.opened
                &&& r.message@ == item_message(alias@, item)
            },
            Err(e) => {
                &&& r.item.alias@ == alias@ && !r.item.opened && !r.item.cancelled && r.item.report is None
                &&& r.item.error == Some(e)
                &&& !r.completed
                &&& r.message@ == browser_auto_login_error_text(e)
            },
        },
        r.log_warning == !r.completed,
        r.completed ==> r.log == r.message,
        !r.completed ==> r.log@ == alias@ + " 的浏览器窗口打开失败: "@ + r.message@,
{
    let (item, completed, message) = match result {
        Ok(item) => {
            let completed = item.opened;
            let message = if completed {
                concat2(alias, " 的浏览器窗口已打开")
            } else {
                match &item.error {
                    Some(e) => browser_auto_login_error_message(e),
                    None => owned("浏览器登录结果未确认窗口已打开"),
                }
            };
            (item, completed, message)
        },
        Err(e) => {
            let message = browser_auto_login_error_message(&e);
            let item = BrowserAutoLoginBatchItem { alias: owned(alias), opened: false, cancelled: false, report: None, error: Some(e) };
            (item, false, message)
        },
    };
    if completed {
        let log = message.clone();
        WindowItemOutcome { item, completed, message, log_warning: false, log }
    } else {
        let log = concat3(alias, " 的浏览器窗口打开失败: ", message.as_str());
        WindowItemOutcome { item, completed, message, log_warning: true, log }
    }
}

/// The item that stands for `id`: a later entry over an earlier one.
pub open spec fn window_entry_for(entries: Seq<(String, BrowserAutoLoginBatchItem)>, id: Seq<char>) -> Option<BrowserAutoLoginBatchItem>
    decreases entries.len(),
{
    if entries.len() == 0 {
        None
    } else if entries.last().0@ == id {
        Some(entries.last().1)
    } else {
        window_entry_for(entries.drop_last(), id)
    }
}

/// The item of an account without a result: cancelled when the coordinator
/// cancelled it, else failed.
pub open spec fn is_missing_window_item(item: BrowserAutoLoginBatchItem, alias: Seq<char>, cancelled: bool) -> bool {
    &&& item.alias@ == alias
    &&& !item.opened
    &&& item.cancelled == cancelled
    &&& item.report is None
    &&& (cancelled ==> item.error is None)
    &&& (!cancelled ==> (item.error matches Some(BrowserAutoLoginError::Browser { message })
        && message@ == "browser window item finished without a result"@))
}

/// The item of account `k` of the batch.
pub open spec fn is_window_item(
    item: BrowserAutoLoginBatchItem,
    ordered: (String, String),
    entries: Seq<(String, BrowserAutoLoginBatchItem)>,
    cancelled_ids: Seq<String>,
) -> bool {
    match window_entry_for(entries, ordered.0@) {
        Some(x) => item == x,
        None => is_missing_window_item(
            item,
            ordered.1@,
            exists|j: int| 0 <= j < cancelled_ids.len() && (#[trigger] cancelled_ids[j])@ == ordered.0@,
        ),
    }
}

fn find_window_entry(entries: &Vec<(String, BrowserAutoLoginBatchItem)>, id: &str) -> (r: Option<usize>)
    ensures
        r is None <==> window_entry_for(entries@, id@) is None,
        r matches Some(k) ==> k < entries@.len() && window_entry_for(entries@, id@) == Some(entries@[k as int].1),
{
    let mut j: usize = entries.len();
    assert(entries@.subrange(0, j as int) =~= entries@);
    while j > 0
        invariant
            j <= entries@.len(),
            window_entry_for(entries@, id@) == window_entry_for(entries@.subrange(0, j as int), id@),
        decreases j,
    {
        let ghost prefix = entries@.subrange(0, j as int);
        assert(prefix.drop_last() =~= entries@.subrange(0, j - 1));
        if text_eq(entries[j - 1].0.as_str(), id) {
            return Some(j - 1);
        }
        j = j - 1;
    }
    None
}

fn is_cancelled_id(ids: &Vec<String>, id: &str) -> (r: bool)
    ensures
        r == exists|j: int| 0 <= j < ids@.len() && (#[trigger] ids@[j])@ == id@,
{
    let mut j: usize = 0;
    while j < ids.len()
        invariant
            j <= ids@.len(),
            forall|k: int| 0 <= k < j ==> (#[trigger] ids@[k])@ != id@,
        decreases ids.len() - j,
    {
        if text_eq(ids[j].as_str(), id) {
            assert((ids@[j as int])@ == id@);
            return true;
        }
        j = j + 1;
    }
    false
}

/// The batch's report: one item per account in the batch's order, from
/// the results kept, and the counts of opened, failed and cancelled ones.
pub fn window_batch_report(
    ordered: &Vec<(String, String)>,
    entries: &Vec<(String, BrowserAutoLoginBatchItem)>,
    cancelled_ids: &Vec<String>,
) -> (r: BrowserAutoLoginBatchReport)
    ensures
        r.items@.len() == ordered@.len(),
        forall|k: int| 0 <= k < ordered@.len() ==> is_window_item(#[trigger] r.items@[k], ordered@[k], entries@, cancelled_ids@),
        r.opened_count == count_browser_login(r.items@, 0),
        r.failed_count == count_browser_login(r.items@, 1),
        r.cancelled_count == count_browser_login(r.items@, 2),
{
    let mut items: Vec<BrowserAutoLoginBatchItem> = Vec::new();
    let mut opened: usize = 0;
    let mut failed: usize = 0;
    let mut cancelled: usize = 0;
    let mut i: usize = 0;
    while i < ordered.len()
        invariant
            i <= ordered@.len(),
            items@.len() == i,
            forall|k: int| 0 <= k < i ==> is_window_item(#[trigger] items@[k], ordered@[k], entries@, cancelled_ids@),
            opened == count_browser_login(items@, 0),
            failed == count_browser_login(items@, 1),
            cancelled == count_browser_login(items@, 2),
            opened <= i && failed <= i && cancelled <= i,
        decreases ordered.len() - i,
    {
        let (id, alias) = (&ordered[i].0, &ordered[i].1);
        let item = match find_window_entry(entries, id.as_str()) {
            Some(k) => entries[k].1.clone(),
            None => {
                let was_cancelled = is_cancelled_id(cancelled_ids, id.as_str());
                let error = if was_cancelled {
                    None
                } else {
                    Some(BrowserAutoLoginError::Browser { message: owned("browser window item finished without a result") })
                };
                BrowserAutoLoginBatchItem { alias: owned(alias.as_str()), opened: false, cancelled: was_cancelled, report: None, error }
            },
        };
        if item.opened {
            opened = opened + 1;
        }
        if !item.opened && !item.cancelled {
            failed = failed + 1;
        }
        if item.cancelled {
            cancelled = cancelled + 1;
        }
        let ghost before = items@;
        items.push(item);
        assert(items@.drop_last() =~= before);
        i = i + 1;
    }
    BrowserAutoLoginBatchReport { opened_count: opened, failed_count: failed, cancelled_count: cancelled, items }
}

/// How a window batch's task ends.
pub enum WindowBatchEnd {
    /// The user cancelled: log the warning, then cancel the task with
    /// `浏览器窗口批次已取消`.
    Cancel { log: String },
    /// Fail the task with the message, keeping the report.
    Fail { message: String },
    /// Complete the task with `浏览器自动登录窗口已打开`.
    Complete,
}

/// A cancelled batch is cancelled, one with a failed window fails, any other
/// completes.
pub fn window_batch_end(report: &BrowserAutoLoginBatchReport, cancel_requested: bool) -> (r: WindowBatchEnd)
    ensures
        cancel_requested ==> (r matches WindowBatchEnd::Cancel { log } && log@ == "浏览器窗口批次已停止：已打开 "@
            + decimal(report.opened_count as nat) + " 个，取消 "@ + decimal(report.cancelled_count as nat) + " 个，失败 "@
            + decimal(report.failed_count as nat) + " 个"@),
        !cancel_requested && report.failed_count > 0 ==> (r matches WindowBatchEnd::Fail { message } && message@
            == "浏览器窗口未完全打开："@ + decimal(report.opened_count as nat) + " 个成功，"@ + decimal(report.failed_count as nat)
            + " 个失败"@),
        !cancel_requested && report.failed_count == 0 ==> r is Complete,
{
    if cancel_requested {
        let head = concat6(
            "浏览器窗口批次已停止：已打开 ",
            usize_decimal(report.opened_count).as_str(),
            " 个，取消 ",
            usize_decimal(report.cancelled_count).as_str(),
            " 个，失败 ",
            usize_decimal(report.failed_count).as_str(),
        );
        WindowBatchEnd::Cancel { log: concat2(head.as_str(), " 个") }
    } else if report.failed_count > 0 {
        let message = concat4(
            "浏览器窗口未完全打开：",
            usize_decimal(report.opened_count).as_str(),
            " 个成功，",
            concat2(usize_decimal(report.failed_count).as_str(), " 个失败").as_str(),
        );
        WindowBatchEnd::Fail { message }
    } else {
        WindowBatchEnd::Complete
    }
}

/// The progress line while windows open: `浏览器窗口启动进度 <done>/<total>`.
pub fn window_progress_message(done: usize, total: usize) -> (r: String)
    ensures
        r@ == "浏览器窗口启动进度 "@ + decimal(done as nat) + "/"@ + decimal(total as nat),
{
    concat4("浏览器窗口启动进度 ", usize_decimal(done).as_str(), "/", usize_decimal(total).as_str())
}

/// The log line when a window batch is scheduled.
pub fn window_batch_queued_log(max_concurrency: usize) -> (r: String)
    ensures
        r@ == "浏览器窗口批次已进入有界调度，最多同时启动 "@ + decimal(max_concurrency as nat) + " 个窗口"@,
{
    concat3("浏览器窗口批次已进入有界调度，最多同时启动 ", usize_decimal(max_concurrency).as_str(), " 个窗口")
}

} // verus!
