//! Account imports and their post actions: which imported accounts need
//! their session metadata refreshed, how refresh and Git token batches turn
//! into post-action errors, and the report an import task ends with.

use vstd::prelude::*;
use crate::credential::{
    count_git_token_failed, AccountGitTokenRefreshBatchItem, AccountGitTokenRefreshBatchReport,
    CredentialBatchItem, CredentialBatchReport,
};
use crate::credential_job::StageLog;
use crate::errors_remote::{
    account_git_token_error_message, account_git_token_error_text, account_session_error_message,
    account_session_error_text, AccountSessionError,
};
use crate::sessions::{
    refreshed_items, session_batch_counts_match, session_batch_report,
    AccountSessionRefreshBatchItem, AccountSessionRefreshBatchReport, AccountSessionRefreshReport,
    SubscriptionRefreshStatus,
};
use crate::text::{
    ascii_lower, concat2, concat3, concat5, decimal, owned, text_eq, to_ascii_lower, trim,
    trimmed, usize_decimal,
};

verus! {

// ---------------------------------------------------------------------------
// Import reports and options

/// The post actions an import can run.
#[derive(Debug, Clone, Copy, PartialEq, Eq)]
pub enum AccountImportPostAction {
    RefreshSessionMetadata,
    FetchGitToken,
}

/// A post action that failed, with why.
pub struct AccountImportPostActionError {
    pub action: AccountImportPostAction,
    pub message: String,
}

/// The post actions the user asked for.
#[derive(Debug, Clone, Copy, PartialEq, Eq)]
pub struct AccountImportPostActionOptions {
    pub refresh_session_metadata: bool,
    pub fetch_git_token: bool,
}

impl AccountImportPostActionOptions {
    /// Whether any post action was asked for.
    pub fn any(self) -> (r: bool)
        ensures
            r == (self.refresh_session_metadata || self.fetch_git_token),
    {
        self.refresh_session_metadata || self.fetch_git_token
    }
}

pub fn account_import_post_action_error(
    action: AccountImportPostAction,
    message: String,
) -> (r: AccountImportPostActionError)
    ensures
        r.action == action,
        r.message == message,
{
    AccountImportPostActionError { action, message }
}

/// What the import decided for one candidate account.
pub struct AccountImportDecision {
    /// The alias the account was saved under.
    pub resolved_alias: String,
    /// The decision was to import the account.
    pub imported: bool,
}

/// What an import wrote.
pub struct AccountImportReport {
    pub imported_count: usize,
    pub skipped_duplicate_email_count: usize,
    pub alias_conflict_count: usize,
    pub decisions: Vec<AccountImportDecision>,
}

/// How the identities of cookie-imported accounts were checked.
pub struct ManualCookieValidationReport {
    pub validated_count: usize,
    pub failed_count: usize,
}

/// What an import starts its post actions from.
pub enum AccountImportPostActionSeed {
    Accounts(AccountImportReport),
    ManualCookie { import: AccountImportReport, validation: ManualCookieValidationReport },
}

pub open spec fn seed_import(seed: AccountImportPostActionSeed) -> AccountImportReport {
    match seed {
        AccountImportPostActionSeed::Accounts(i) => i,
        AccountImportPostActionSeed::ManualCookie { import, .. } => import,
    }
}

impl AccountImportPostActionSeed {
    pub fn import(&self) -> (r: &AccountImportReport)
        ensures
            *r == seed_import(*self),
    {
        match self {
            AccountImportPostActionSeed::Accounts(i) => i,
            AccountImportPostActionSeed::ManualCookie { import, .. } => import,
        }
    }
}

/// The aliases of the imported accounts, in decision order.
pub open spec fn imported_aliases(decisions: Seq<AccountImportDecision>) -> Seq<String>
    decreases decisions.len(),
{
    if decisions.len() == 0 {
        Seq::empty()
    } else {
        let rest = imported_aliases(decisions.drop_last());
        if decisions.last().imported {
            rest.push(decisions.last().resolved_alias)
        } else {
            rest
        }
    }
}

pub fn imported_aliases_from_import_report(report: &AccountImportReport) -> (r: Vec<String>)
    ensures
        r@ == imported_aliases(report.decisions@),
{
    let mut out: Vec<String> = Vec::new();
    let mut i: usize = 0;
    while i < report.decisions.len()
        invariant
            i <= report.decisions@.len(),
            out@ == imported_aliases(report.decisions@.subrange(0, i as int)),
        decreases report.decisions.len() - i,
    {
        assert(report.decisions@.subrange(0, i + 1).drop_last() =~= report.decisions@.subrange(
            0,
            i as int,
        ));
        if report.decisions[i].imported {
            out.push(report.decisions[i].resolved_alias.clone());
        }
        i = i + 1;
    }
    assert(report.decisions@.subrange(0, report.decisions@.len() as int) =~= report.decisions@);
    out
}

// ---------------------------------------------------------------------------
// Saved records after an import

/// What the store holds of an imported account that the post actions read.
pub struct ImportedAccountRecord {
    pub email: Option<String>,
    pub user_id: Option<String>,
    pub subscription_status: Option<String>,
    pub subscription_label: Option<String>,
    /// When the subscription was last checked, in Unix seconds rounded down.
    pub subscription_checked_at: Option<i64>,
    /// The trial's end, in whole Unix seconds.
    pub trial_expiry: Option<i64>,
}

/// How long refreshed session metadata counts as fresh.
pub const IMPORT_SESSION_METADATA_FRESH_SECONDS: i64 = 86400;

/// The record's subscription status, trimmed and in ASCII lower case.
pub open spec fn status_key(record: ImportedAccountRecord) -> Seq<char> {
    ascii_lower(
        trimmed(
            match record.subscription_status {
                Some(s) => s@,
                None => Seq::empty(),
            },
        ),
    )
}

/// The subscription statuses the service recognizes.
pub open spec fn is_known_status(key: Seq<char>) -> bool {
    key == "trial"@ || key == "pro"@ || key == "subscription"@ || key == "free"@
}

/// The subscription was checked within the last day.
pub open spec fn checked_recently(record: ImportedAccountRecord, now_unix: i64) -> bool {
    record.subscription_checked_at matches Some(t) && t >= now_unix - IMPORT_SESSION_METADATA_FRESH_SECONDS
}

/// An imported account needs its session metadata refreshed unless it has a
/// known subscription status, a user id, a check within the last day, and,
/// for a trial, the trial's end.
pub open spec fn needs_session_refresh(record: ImportedAccountRecord, now_unix: i64) -> bool {
    let key = status_key(record);
    let has_user = record.user_id matches Some(u) && trimmed(u@).len() > 0;
    let trial_metadata_missing = key == "trial"@ && record.trial_expiry is None;
    !(is_known_status(key) && has_user && checked_recently(record, now_unix)
        && !trial_metadata_missing)
}

fn status_key_of(record: &ImportedAccountRecord) -> (r: String)
    ensures
        r@ == status_key(*record),
{
    let raw = match &record.subscription_status {
        Some(s) => trim(s.as_str()),
        None => {
            let e = String::new();
            assert(e@ =~= Seq::<char>::empty());
            assert(trimmed(e@) =~= Seq::<char>::empty());
            e
        },
    };
    to_ascii_lower(raw.as_str())
}

fn known_status(key: &str) -> (r: bool)
    ensures
        r == is_known_status(key@),
{
    text_eq(key, "trial") || text_eq(key, "pro") || text_eq(key, "subscription") || text_eq(
        key,
        "free",
    )
}

fn checked_since(record: &ImportedAccountRecord, now_unix: i64) -> (r: bool)
    ensures
        r == checked_recently(*record, now_unix),
{
    match record.subscription_checked_at {
        Some(t) => (t as i128) >= (now_unix as i128) - 86400,
        None => false,
    }
}

pub fn imported_account_needs_session_refresh(record: &ImportedAccountRecord, now_unix: i64) -> (r:
    bool)
    ensures
        r == needs_session_refresh(*record, now_unix),
{
    let key = status_key_of(record);
    let status_is_known = known_status(key.as_str());
    let has_user = match &record.user_id {
        Some(u) => {
            let t = trim(u.as_str());
            !crate::text::is_empty_text(t.as_str())
        },
        None => false,
    };
    let recent = checked_since(record, now_unix);
    let trial_metadata_missing = text_eq(key.as_str(), "trial") && record.trial_expiry.is_none();
    !(status_is_known && has_user && recent && !trial_metadata_missing)
}

/// `r` is the session report of `alias` built from its saved record: the
/// subscription counts as detected when it was checked within the last day
/// and its status is a recognized one.
pub open spec fn is_record_session_report(
    r: AccountSessionRefreshReport,
    alias: Seq<char>,
    record: ImportedAccountRecord,
    now_unix: i64,
) -> bool {
    &&& r.alias@ == alias
    &&& r.email == record.email
    &&& r.user_id == record.user_id
    &&& r.subscription_status == record.subscription_status
    &&& r.subscription_label == record.subscription_label
    &&& r.trial_expiry == record.trial_expiry
    &&& r.subscription_refresh_status == if checked_recently(record, now_unix) && is_known_status(
        status_key(record),
    ) {
        SubscriptionRefreshStatus::Detected
    } else {
        SubscriptionRefreshStatus::Unknown
    }
}

pub fn account_record_session_refresh_report(
    alias: &str,
    record: &ImportedAccountRecord,
    now_unix: i64,
) -> (r: AccountSessionRefreshReport)
    ensures
        is_record_session_report(r, alias@, *record, now_unix),
{
    let key = status_key_of(record);
    let status = if checked_since(record, now_unix) && known_status(key.as_str()) {
        SubscriptionRefreshStatus::Detected
    } else {
        SubscriptionRefreshStatus::Unknown
    };
    AccountSessionRefreshReport {
        alias: owned(alias),
        email: record.email.clone(),
        user_id: record.user_id.clone(),
        subscription_status: record.subscription_status.clone(),
        subscription_label: record.subscription_label.clone(),
        trial_expiry: record.trial_expiry,
        subscription_refresh_status: status,
    }
}

// ---------------------------------------------------------------------------
// Session refresh reports

/// The session item a credential login item gives: refreshed when the login
/// returned session metadata whose subscription refresh did not fail,
/// otherwise failed with the item's error (or a note that no metadata came).
pub open spec fn is_session_item_of(out: AccountSessionRefreshBatchItem, item: CredentialBatchItem) -> bool {
    let metadata = match item.report {
        Some(r) => r.metadata,
        None => None,
    };
    &&& out.alias == item.alias
    &&& if metadata matches Some(m) && m.subscription_refresh_status
        != SubscriptionRefreshStatus::FailedButAccountUpdated {
        out.refreshed && out.report == metadata && out.error is None
    } else {
        &&& !out.refreshed
        &&& out.report is None
        &&& out.error matches Some(AccountSessionError::Session { message })
        &&& message@ == match item.error {
            Some(e) => e@,
            None => "账号密码登录后未返回状态元数据"@,
        }
    }
}

/// The session refresh report of a credential batch that recovered
/// accounts by password: one item per credential item, in order.
pub fn session_refresh_report_from_credential_batch(report: &CredentialBatchReport) -> (r:
    AccountSessionRefreshBatchReport)
    ensures
        r.items@.len() == report.items@.len(),
        forall|i: int| 0 <= i < r.items@.len() ==> is_session_item_of(#[trigger] r.items@[i], report.items@[i]),
        session_batch_counts_match(r),
{
    let mut items: Vec<AccountSessionRefreshBatchItem> = Vec::new();
    let mut i: usize = 0;
    while i < report.items.len()
        invariant
            i <= report.items@.len(),
            items@.len() == i,
            forall|j: int| 0 <= j < i ==> is_session_item_of(#[trigger] items@[j], report.items@[j]),
        decreases report.items.len() - i,
    {
        let item = &report.items[i];
        let metadata = match &item.report {
            Some(r) => match &r.metadata {
                Some(m) => Some(m.clone()),
                None => None,
            },
            None => None,
        };
        let refreshed = match &metadata {
            Some(m) => match m.subscription_refresh_status {
                SubscriptionRefreshStatus::FailedButAccountUpdated => false,
                _ => true,
            },
            None => false,
        };
        let out = if refreshed {
            AccountSessionRefreshBatchItem {
                alias: item.alias.clone(),
                refreshed: true,
                report: metadata,
                error: None,
            }
        } else {
            let message = match &item.error {
                Some(e) => e.clone(),
                None => owned("账号密码登录后未返回状态元数据"),
            };
            AccountSessionRefreshBatchItem {
                alias: item.alias.clone(),
                refreshed: false,
                report: None,
                error: Some(AccountSessionError::Session { message }),
            }
        };
        items.push(out);
        i = i + 1;
    }
    session_batch_report(items)
}

/// The last position of an item of `alias`.
pub open spec fn alias_position(items: Seq<AccountSessionRefreshBatchItem>, alias: Seq<char>) -> Option<int>
    decreases items.len(),
{
    if items.len() == 0 {
        None
    } else if items.last().alias@ == alias {
        Some(items.len() - 1)
    } else {
        alias_position(items.drop_last(), alias)
    }
}

/// `items` merged by alias: each alias keeps the place where it first
/// appears and the item where it last appears.
pub open spec fn merged_by_alias(items: Seq<AccountSessionRefreshBatchItem>) -> Seq<
    AccountSessionRefreshBatchItem,
>
    decreases items.len(),
{
    if items.len() == 0 {
        Seq::empty()
    } else {
        let rest = merged_by_alias(items.drop_last());
        match alias_position(rest, items.last().alias@) {
            Some(k) => rest.update(k, items.last()),
            None => rest.push(items.last()),
        }
    }
}

/// The items of an optional report.
pub open spec fn report_items(r: Option<AccountSessionRefreshBatchReport>) -> Seq<
    AccountSessionRefreshBatchItem,
> {
    match r {
        Some(x) => x.items@,
        None => Seq::empty(),
    }
}

proof fn lemma_alias_position_bounds(items: Seq<AccountSessionRefreshBatchItem>, alias: Seq<char>)
    ensures
        alias_position(items, alias) matches Some(k) ==> 0 <= k < items.len() && items[k].alias@ == alias,
        alias_position(items, alias) is None ==> forall|j: int| 0 <= j < items.len() ==> (#[trigger] items[j]).alias@ != alias,
    decreases items.len(),
{
    if items.len() > 0 {
        lemma_alias_position_bounds(items.drop_last(), alias);
        if items.last().alias@ != alias {
            assert forall|j: int| 0 <= j < items.len() - 1 implies (#[trigger] items[j]).alias@ == items.drop_last()[j].alias@ by {}
        }
    }
}

fn position_of_alias(items: &Vec<AccountSessionRefreshBatchItem>, alias: &str) -> (r: Option<usize>)
    ensures
        match r {
            Some(k) => alias_position(items@, alias@) == Some(k as int),
            None => alias_position(items@, alias@) is None,
        },
{
    let mut j: usize = items.len();
    assert(items@.subrange(0, j as int) =~= items@);
    while j > 0
        invariant
            j <= items@.len(),
            alias_position(items@, alias@) == alias_position(items@.subrange(0, j as int), alias@),
        decreases j,
    {
        let ghost prefix = items@.subrange(0, j as int);
        assert(prefix.drop_last() =~= items@.subrange(0, j - 1));
        if text_eq(items[j - 1].alias.as_str(), alias) {
            return Some(j - 1);
        }
        j = j - 1;
    }
    None
}

/// Two session refresh reports merged: every alias once, at its first
/// place, with its last item; `None` when neither report has an item.
pub fn merge_session_refresh_batch_reports(
    first: Option<AccountSessionRefreshBatchReport>,
    second: Option<AccountSessionRefreshBatchReport>,
) -> (r: Option<AccountSessionRefreshBatchReport>)
    ensures
        ({
            let merged = merged_by_alias(report_items(first) + report_items(second));
            &&& r is None <==> merged.len() == 0
            &&& r matches Some(x) ==> x.items@ == merged && session_batch_counts_match(x)
        }),
{
    let ghost all = report_items(first) + report_items(second);
    let mut out: Vec<AccountSessionRefreshBatchItem> = Vec::new();
    let mut sources: Vec<Vec<AccountSessionRefreshBatchItem>> = Vec::new();
    match first {
        Some(x) => sources.push(x.items),
        None => sources.push(Vec::new()),
    }
    match second {
        Some(x) => sources.push(x.items),
        None => sources.push(Vec::new()),
    }
    assert(sources@[0]@ + sources@[1]@ =~= all);
    let mut s: usize = 0;
    while s < 2
        invariant
            sources@.len() == 2,
            sources@[0]@ + sources@[1]@ == all,
            s <= 2,
            out@ == merged_by_alias(
                if s == 0 {
                    Seq::<AccountSessionRefreshBatchItem>::empty()
                } else if s == 1 {
                    sources@[0]@
                } else {
                    all
                },
            ),
        decreases 2 - s,
    {
        let src = &sources[s];
        let ghost done = if s == 0 {
            Seq::<AccountSessionRefreshBatchItem>::empty()
        } else {
            sources@[0]@
        };
        let mut i: usize = 0;
        while i < src.len()
            invariant
                i <= src@.len(),
                out@ == merged_by_alias(done + src@.subrange(0, i as int)),
            decreases src.len() - i,
        {
            let ghost prev = done + src@.subrange(0, i as int);
            let ghost next = done + src@.subrange(0, i + 1);
            assert(next.drop_last() =~= prev);
            assert(next.last() == src@[i as int]);
            let item = src[i].clone();
            proof {
                lemma_alias_position_bounds(out@, item.alias@);
            }
            match position_of_alias(&out, item.alias.as_str()) {
                Some(k) => {
                    out.set(k, item);
                },
                None => {
                    out.push(item);
                },
            }
            i = i + 1;
        }
        assert(done + src@.subrange(0, src@.len() as int) =~= if s == 0 {
            sources@[0]@
        } else {
            all
        });
        s = s + 1;
    }
    if out.len() == 0 {
        None
    } else {
        Some(session_batch_report(out))
    }
}

// ---------------------------------------------------------------------------
// Post-action errors from batch reports

/// A post-action error as the action and its message.
pub open spec fn error_views(errors: Seq<AccountImportPostActionError>) -> Seq<(AccountImportPostAction, Seq<char>)> {
    errors.map_values(|e: AccountImportPostActionError| (e.action, e.message@))
}

/// The error for failures a batch counted but did not list.
pub open spec fn unrepresented_errors(action: AccountImportPostAction, failed_count: nat, represented: nat) -> Seq<(AccountImportPostAction, Seq<char>)> {
    if failed_count > represented {
        seq![(action, "批次报告还有 "@ + decimal((failed_count - represented) as nat) + " 个未归属失败账号"@)]
    } else {
        Seq::empty()
    }
}

fn push_error(errors: &mut Vec<AccountImportPostActionError>, action: AccountImportPostAction, message: String)
    ensures
        error_views(final(errors)@) == error_views(old(errors)@).push((action, message@)),
{
    let ghost before = errors@;
    errors.push(account_import_post_action_error(action, message));
    assert(error_views(errors@) =~= error_views(before).push((action, message@)));
}

/// Adds an error for the failures a batch counted (`failed_count`) beyond
/// those its items show (`represented_failures`).
pub fn append_unrepresented_batch_failure(
    errors: &mut Vec<AccountImportPostActionError>,
    action: AccountImportPostAction,
    failed_count: usize,
    represented_failures: usize,
)
    ensures
        error_views(final(errors)@) == error_views(old(errors)@) + unrepresented_errors(
            action,
            failed_count as nat,
            represented_failures as nat,
        ),
{
    if failed_count > represented_failures {
        let n = usize_decimal(failed_count - represented_failures);
        let message = concat3("批次报告还有 ", n.as_str(), " 个未归属失败账号");
        push_error(errors, action, message);
    } else {
        assert(error_views(errors@) + unrepresented_errors(action, failed_count as nat, represented_failures as nat) =~= error_views(errors@));
    }
}

/// The errors of the session items that were not refreshed.
pub open spec fn session_failure_errors(items: Seq<AccountSessionRefreshBatchItem>) -> Seq<(AccountImportPostAction, Seq<char>)>
    decreases items.len(),
{
    if items.len() == 0 {
        Seq::empty()
    } else {
        let rest = session_failure_errors(items.drop_last());
        let x = items.last();
        if x.refreshed {
            rest
        } else {
            rest.push((
                AccountImportPostAction::RefreshSessionMetadata,
                x.alias@ + "："@ + match x.error {
                    Some(e) => account_session_error_text(e),
                    None => "未知错误"@,
                },
            ))
        }
    }
}

/// Adds an error for each account a session refresh did not refresh, then
/// one for the failures the report counted without listing them.
pub fn append_failed_session_refresh_post_action_errors(
    errors: &mut Vec<AccountImportPostActionError>,
    report: &AccountSessionRefreshBatchReport,
)
    ensures
        error_views(final(errors)@) == error_views(old(errors)@) + session_failure_errors(report.items@)
            + unrepresented_errors(
            AccountImportPostAction::RefreshSessionMetadata,
            report.failed_count as nat,
            (report.items@.len() - refreshed_items(report.items@)) as nat,
        ),
{
    let ghost start = error_views(errors@);
    let mut represented: usize = 0;
    let mut i: usize = 0;
    while i < report.items.len()
        invariant
            i <= report.items@.len(),
            represented == i - refreshed_items(report.items@.subrange(0, i as int)),
            refreshed_items(report.items@.subrange(0, i as int)) <= i,
            error_views(errors@) == start + session_failure_errors(report.items@.subrange(0, i as int)),
        decreases report.items.len() - i,
    {
        let ghost sub = report.items@.subrange(0, i + 1);
        assert(sub.drop_last() =~= report.items@.subrange(0, i as int));
        let item = &report.items[i];
        if !item.refreshed {
            represented = represented + 1;
            let detail = match &item.error {
                Some(e) => account_session_error_message(e),
                None => owned("未知错误"),
            };
            let message = concat3(item.alias.as_str(), "：", detail.as_str());
            push_error(errors, AccountImportPostAction::RefreshSessionMetadata, message);
        }
        i = i + 1;
        assert(error_views(errors@) =~= start + session_failure_errors(report.items@.subrange(0, i as int)));
    }
    assert(report.items@.subrange(0, report.items@.len() as int) =~= report.items@);
    let ghost mid = error_views(errors@);
    append_unrepresented_batch_failure(
        errors,
        AccountImportPostAction::RefreshSessionMetadata,
        report.failed_count,
        represented,
    );
    assert(error_views(errors@) =~= start + session_failure_errors(report.items@) + unrepresented_errors(
        AccountImportPostAction::RefreshSessionMetadata,
        report.failed_count as nat,
        (report.items@.len() - refreshed_items(report.items@)) as nat,
    ));
}

/// The errors of the Git token items that were neither refreshed nor
/// skipped.
pub open spec fn git_token_failure_errors(items: Seq<AccountGitTokenRefreshBatchItem>) -> Seq<(AccountImportPostAction, Seq<char>)>
    decreases items.len(),
{
    if items.len() == 0 {
        Seq::empty()
    } else {
        let rest = git_token_failure_errors(items.drop_last());
        let x = items.last();
        if x.refreshed || x.skipped {
            rest
        } else {
            rest.push((
                AccountImportPostAction::FetchGitToken,
                x.alias@ + "："@ + match x.error {
                    Some(e) => account_git_token_error_text(e),
                    None => "未知错误"@,
                },
            ))
        }
    }
}

/// Adds an error for each account a Git token batch neither refreshed nor
/// skipped, then one for the failures the report counted without listing
/// them.
pub fn append_failed_git_token_post_action_errors(
    errors: &mut Vec<AccountImportPostActionError>,
    report: &AccountGitTokenRefreshBatchReport,
)
    ensures
        error_views(final(errors)@) == error_views(old(errors)@) + git_token_failure_errors(report.items@)
            + unrepresented_errors(
            AccountImportPostAction::FetchGitToken,
            report.failed_count as nat,
            count_git_token_failed(report.items@),
        ),
{
    let ghost start = error_views(errors@);
    let mut represented: usize = 0;
    let mut i: usize = 0;
    while i < report.items.len()
        invariant
            i <= report.items@.len(),
            represented == count_git_token_failed(report.items@.subrange(0, i as int)),
            represented <= i,
            error_views(errors@) == start + git_token_failure_errors(report.items@.subrange(0, i as int)),
        decreases report.items.len() - i,
    {
        let ghost sub = report.items@.subrange(0, i + 1);
        assert(sub.drop_last() =~= report.items@.subrange(0, i as int));
        let item = &report.items[i];
        if !item.refreshed && !item.skipped {
            represented = represented + 1;
            let detail = match &item.error {
                Some(e) => account_git_token_error_message(e),
                None => owned("未知错误"),
            };
            let message = concat3(item.alias.as_str(), "：", detail.as_str());
            push_error(errors, AccountImportPostAction::FetchGitToken, message);
        }
        i = i + 1;
        assert(error_views(errors@) =~= start + git_token_failure_errors(report.items@.subrange(0, i as int)));
    }
    assert(report.items@.subrange(0, report.items@.len() as int) =~= report.items@);
    append_unrepresented_batch_failure(
        errors,
        AccountImportPostAction::FetchGitToken,
        report.failed_count,
        represented,
    );
    assert(error_views(errors@) =~= start + git_token_failure_errors(report.items@) + unrepresented_errors(
        AccountImportPostAction::FetchGitToken,
        report.failed_count as nat,
        count_git_token_failed(report.items@),
    ));
}

// ---------------------------------------------------------------------------
// The report an import task ends with

/// An account import with the results of its post actions.
pub struct AccountImportWithPostActionsReport {
    pub import: AccountImportReport,
    pub session_refresh: Option<AccountSessionRefreshBatchReport>,
    pub git_token_generation: Option<AccountGitTokenRefreshBatchReport>,
    pub post_action_errors: Vec<AccountImportPostActionError>,
}

/// A cookie import with its identity checks and post actions.
pub struct ManualCookieImportBatchReport {
    pub import: AccountImportReport,
    pub validation: ManualCookieValidationReport,
    pub session_refresh: Option<AccountSessionRefreshBatchReport>,
    pub git_token_generation: Option<AccountGitTokenRefreshBatchReport>,
    pub post_action_errors: Vec<AccountImportPostActionError>,
}

/// The report an import task with post actions ends with.
pub enum CompletedAccountImportPostActionReport {
    Accounts(AccountImportWithPostActionsReport),
    ManualCookie(ManualCookieImportBatchReport),
}

/// A post action failed, or an imported cookie failed its identity check.
pub open spec fn import_has_failures(r: CompletedAccountImportPostActionReport) -> bool {
    match r {
        CompletedAccountImportPostActionReport::Accounts(a) => a.post_action_errors@.len() > 0,
        CompletedAccountImportPostActionReport::ManualCookie(m) => m.validation.failed_count > 0
            || m.post_action_errors@.len() > 0,
    }
}

/// "Cookie 账号导入未完全完成：{failed} 个身份验证失败，{errors} 个后置动作失败"
pub open spec fn cookie_import_incomplete_text(failed: nat, errors: nat) -> Seq<char> {
    "Cookie 账号导入未完全完成："@ + decimal(failed) + " 个身份验证失败，"@ + decimal(errors)
        + " 个后置动作失败"@
}

/// The message an import task ends with.
pub open spec fn import_terminal_text(r: CompletedAccountImportPostActionReport) -> Seq<char> {
    match r {
        CompletedAccountImportPostActionReport::Accounts(a) => if a.post_action_errors@.len() == 0 {
            "账号导入完成"@
        } else {
            "账号导入完成，部分后置动作失败"@
        },
        CompletedAccountImportPostActionReport::ManualCookie(m) => if m.validation.failed_count == 0
            && m.post_action_errors@.len() == 0 {
            "Cookie 账号导入完成"@
        } else {
            cookie_import_incomplete_text(
                m.validation.failed_count as nat,
                m.post_action_errors@.len(),
            )
        },
    }
}

/// The message of a cookie import with `failed` identity failures and
/// `errors` post-action errors.
pub fn cookie_import_message(failed: usize, errors: usize) -> (r: String)
    ensures
        r@ == if failed == 0 && errors == 0 {
            "Cookie 账号导入完成"@
        } else {
            cookie_import_incomplete_text(failed as nat, errors as nat)
        },
{
    if failed == 0 && errors == 0 {
        owned("Cookie 账号导入完成")
    } else {
        let f = usize_decimal(failed);
        let e = usize_decimal(errors);
        concat5(
            "Cookie 账号导入未完全完成：",
            f.as_str(),
            " 个身份验证失败，",
            e.as_str(),
            " 个后置动作失败",
        )
    }
}

impl CompletedAccountImportPostActionReport {
    pub fn has_failures(&self) -> (r: bool)
        ensures
            r == import_has_failures(*self),
    {
        match self {
            CompletedAccountImportPostActionReport::Accounts(a) => a.post_action_errors.len() > 0,
            CompletedAccountImportPostActionReport::ManualCookie(m) => m.validation.failed_count > 0
                || m.post_action_errors.len() > 0,
        }
    }

    pub fn terminal_message(&self) -> (r: String)
        ensures
            r@ == import_terminal_text(*self),
    {
        match self {
            CompletedAccountImportPostActionReport::Accounts(a) => if a.post_action_errors.len()
                == 0 {
                owned("账号导入完成")
            } else {
                owned("账号导入完成，部分后置动作失败")
            },
            CompletedAccountImportPostActionReport::ManualCookie(m) => cookie_import_message(
                m.validation.failed_count,
                m.post_action_errors.len(),
            ),
        }
    }
}

/// The report an import task ends with: the seed's import (and identity
/// checks) with the post actions' results.
pub fn build_completed_account_import_post_action_report(
    seed: AccountImportPostActionSeed,
    session_refresh: Option<AccountSessionRefreshBatchReport>,
    git_token_generation: Option<AccountGitTokenRefreshBatchReport>,
    post_action_errors: Vec<AccountImportPostActionError>,
) -> (r: CompletedAccountImportPostActionReport)
    ensures
        r == match seed {
            AccountImportPostActionSeed::Accounts(import) => CompletedAccountImportPostActionReport::Accounts(
                AccountImportWithPostActionsReport {
                    import,
                    session_refresh,
                    git_token_generation,
                    post_action_errors,
                },
            ),
            AccountImportPostActionSeed::ManualCookie { import, validation } =>
                CompletedAccountImportPostActionReport::ManualCookie(
                ManualCookieImportBatchReport {
                    import,
                    validation,
                    session_refresh,
                    git_token_generation,
                    post_action_errors,
                },
            ),
        },
{
    match seed {
        AccountImportPostActionSeed::Accounts(import) => CompletedAccountImportPostActionReport::Accounts(
            AccountImportWithPostActionsReport {
                import,
                session_refresh,
                git_token_generation,
                post_action_errors,
            },
        ),
        AccountImportPostActionSeed::ManualCookie { import, validation } =>
            CompletedAccountImportPostActionReport::ManualCookie(
            ManualCookieImportBatchReport {
                import,
                validation,
                session_refresh,
                git_token_generation,
                post_action_errors,
            },
        ),
    }
}

// ---------------------------------------------------------------------------
// Task log lines of a session refresh batch

/// The log lines of a session refresh batch under `label`: one per account,
/// then a summary that is a warning when an account failed.
pub open spec fn session_refresh_log_text(items: Seq<AccountSessionRefreshBatchItem>, label: Seq<char>) -> Seq<(bool, Seq<char>)>
    decreases items.len(),
{
    if items.len() == 0 {
        Seq::empty()
    } else {
        let x = items.last();
        session_refresh_log_text(items.drop_last(), label).push(
            if x.refreshed {
                (false, label + "："@ + x.alias@ + " 完成"@)
            } else {
                (true, label + "："@ + x.alias@ + " 失败："@ + match x.error {
                    Some(e) => account_session_error_text(e),
                    None => "未知错误"@,
                })
            },
        )
    }
}

pub open spec fn log_views(logs: Seq<StageLog>) -> Seq<(bool, Seq<char>)> {
    logs.map_values(|l: StageLog| (l.warning, l.text@))
}

pub fn session_refresh_batch_log_lines(report: &AccountSessionRefreshBatchReport, label: &str) -> (r:
    Vec<StageLog>)
    ensures
        log_views(r@) == session_refresh_log_text(report.items@, label@).push(
            (
                report.failed_count != 0,
                label@ + "完成：成功 "@ + decimal(report.refreshed_count as nat) + " 个，失败 "@
                    + decimal(report.failed_count as nat) + " 个"@,
            ),
        ),
{
    let mut out: Vec<StageLog> = Vec::new();
    let mut i: usize = 0;
    assert(log_views(out@) =~= session_refresh_log_text(report.items@.subrange(0, 0), label@));
    while i < report.items.len()
        invariant
            i <= report.items@.len(),
            log_views(out@) == session_refresh_log_text(report.items@.subrange(0, i as int), label@),
        decreases report.items.len() - i,
    {
        let ghost sub = report.items@.subrange(0, i + 1);
        assert(sub.drop_last() =~= report.items@.subrange(0, i as int));
        let item = &report.items[i];
        let line = if item.refreshed {
            StageLog { warning: false, text: crate::text::concat4(label, "：", item.alias.as_str(), " 完成") }
        } else {
            let detail = match &item.error {
                Some(e) => account_session_error_message(e),
                None => owned("未知错误"),
            };
            StageLog {
                warning: true,
                text: concat5(label, "：", item.alias.as_str(), " 失败：", detail.as_str()),
            }
        };
        let ghost before = out@;
        out.push(line);
        i = i + 1;
        assert(log_views(out@) =~= log_views(before).push((line.warning, line.text@)));
        assert(log_views(out@) =~= session_refresh_log_text(report.items@.subrange(0, i as int), label@));
    }
    assert(report.items@.subrange(0, report.items@.len() as int) =~= report.items@);
    let r = usize_decimal(report.refreshed_count);
    let f = usize_decimal(report.failed_count);
    let summary = StageLog {
        warning: report.failed_count != 0,
        text: crate::text::concat6(label, "完成：成功 ", r.as_str(), " 个，失败 ", f.as_str(), " 个"),
    };
    let ghost before = out@;
    out.push(summary);
    assert(log_views(out@) =~= log_views(before).push((summary.warning, summary.text@)));
    out
}

/// When an imported account needs its session refreshed: a trial without
/// its trial end always does, whatever else the record holds; so does an
/// account with an unknown status, without a user id, or not checked within
/// the last day; a record with all of these needs no refresh.
pub proof fn session_refresh_needed_when_metadata_is_missing(record: ImportedAccountRecord, now_unix: i64)
    ensures
        status_key(record) == "trial"@ && record.trial_expiry is None ==> needs_session_refresh(record, now_unix),
        !is_known_status(status_key(record)) ==> needs_session_refresh(record, now_unix),
        !(record.user_id matches Some(u) && trimmed(u@).len() > 0) ==> needs_session_refresh(record, now_unix),
        !checked_recently(record, now_unix) ==> needs_session_refresh(record, now_unix),
        (is_known_status(status_key(record)) && (record.user_id matches Some(u) && trimmed(u@).len() > 0)
            && checked_recently(record, now_unix)
            && !(status_key(record) == "trial"@ && record.trial_expiry is None)) ==> !needs_session_refresh(record, now_unix),
{
}

} // verus!
