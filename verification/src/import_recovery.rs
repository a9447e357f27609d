//! After imported accounts whose session refresh failed were logged in
//! again with their passwords, the import's session refresh report is
//! reconciled with what the store now holds: accounts whose saved metadata
//! is complete count as refreshed, the others as failed, and the refresh
//! errors of recovered accounts are dropped.

use vstd::prelude::*;
use crate::errors_remote::AccountSessionError;
use crate::imports::{
    account_record_session_refresh_report, error_views, imported_account_needs_session_refresh,
    is_record_session_report, needs_session_refresh, report_items, AccountImportPostAction,
    AccountImportPostActionError, ImportedAccountRecord,
};
use crate::sessions::{
    session_batch_counts_match, session_batch_report, AccountSessionRefreshBatchItem,
    AccountSessionRefreshBatchReport, AccountSessionRefreshReport,
};
use crate::text::{concat2, owned, starts_with, text_eq, views};

verus! {

// ---------------------------------------------------------------------------
// Which aliases are reconciled

/// Whether `alias` is among `aliases`.
pub open spec fn alias_listed(aliases: Seq<String>, alias: Seq<char>) -> bool {
    exists|i: int| 0 <= i < aliases.len() && (#[trigger] aliases[i])@ == alias
}

/// The aliases of `retry` that were imported, in order.
pub open spec fn retried_imported(retry: Seq<String>, imported: Seq<String>) -> Seq<String>
    decreases retry.len(),
{
    if retry.len() == 0 {
        Seq::empty()
    } else {
        let rest = retried_imported(retry.drop_last(), imported);
        if alias_listed(imported, retry.last()@) {
            rest.push(retry.last())
        } else {
            rest
        }
    }
}

fn lists_alias(aliases: &Vec<String>, alias: &str) -> (r: bool)
    ensures
        r == alias_listed(aliases@, alias@),
{
    let mut i: usize = 0;
    while i < aliases.len()
        invariant
            i <= aliases@.len(),
            forall|j: int| 0 <= j < i ==> (#[trigger] aliases@[j])@ != alias@,
        decreases aliases.len() - i,
    {
        if text_eq(aliases[i].as_str(), alias) {
            return true;
        }
        i = i + 1;
    }
    false
}

/// The retried aliases that belong to this import, in the order they were
/// retried.
pub fn retried_imported_aliases(retry: &Vec<String>, imported: &Vec<String>) -> (r: Vec<String>)
    ensures
        r@ == retried_imported(retry@, imported@),
{
    let mut out: Vec<String> = Vec::new();
    let mut i: usize = 0;
    while i < retry.len()
        invariant
            i <= retry@.len(),
            out@ == retried_imported(retry@.subrange(0, i as int), imported@),
        decreases retry.len() - i,
    {
        let ghost prefix = retry@.subrange(0, i + 1);
        assert(prefix.drop_last() =~= retry@.subrange(0, i as int));
        assert(prefix.last() == retry@[i as int]);
        if lists_alias(imported, retry[i].as_str()) {
            out.push(retry[i].clone());
        }
        i = i + 1;
    }
    assert(retry@.subrange(0, retry@.len() as int) =~= retry@);
    out
}

// ---------------------------------------------------------------------------
// One account's outcome

/// How one retried account came out of the password recovery.
pub enum SessionRecoveryOutcome {
    /// Its saved metadata is complete: the report built from it.
    Recovered(AccountSessionRefreshReport),
    /// Still not refreshed, with why.
    Failed(AccountSessionError),
}

impl Clone for SessionRecoveryOutcome {
    fn clone(&self) -> (r: Self)
        ensures
            r == *self,
    {
        match self {
            SessionRecoveryOutcome::Recovered(x) => SessionRecoveryOutcome::Recovered(x.clone()),
            SessionRecoveryOutcome::Failed(e) => SessionRecoveryOutcome::Failed(e.clone()),
        }
    }
}

/// The outcome for `alias`: `persisted` is `None` when the store could
/// not be read, else the account's record if it has one. A record whose
/// metadata needs no refresh recovers the account; otherwise the failure
/// says whether the store was unreadable, the metadata is still
/// incomplete, or the account is gone.
pub fn session_recovery_outcome(
    alias: &str,
    persisted: Option<Option<&ImportedAccountRecord>>,
    now_unix: i64,
) -> (r: SessionRecoveryOutcome)
    ensures
        (persisted matches Some(Some(rec)) && !needs_session_refresh(*rec, now_unix)) ==> (r matches SessionRecoveryOutcome::Recovered(
            rep,
        ) && is_record_session_report(rep, alias@, *persisted->0->0, now_unix)),
        persisted is None ==> (r matches SessionRecoveryOutcome::Failed(AccountSessionError::Io { message })
            && message@ == "无法读取导入账号状态"@),
        (persisted matches Some(Some(rec)) && needs_session_refresh(*rec, now_unix)) ==> (r matches SessionRecoveryOutcome::Failed(
            AccountSessionError::Session { message },
        ) && message@ == "账号密码恢复后状态元数据仍不完整"@),
        persisted matches Some(None) ==> (r matches SessionRecoveryOutcome::Failed(
            AccountSessionError::AccountAliasNotFound { alias: a },
        ) && a@ == alias@),
{
    match persisted {
        None => SessionRecoveryOutcome::Failed(AccountSessionError::Io { message: owned("无法读取导入账号状态") }),
        Some(None) => SessionRecoveryOutcome::Failed(AccountSessionError::AccountAliasNotFound { alias: owned(alias) }),
        Some(Some(rec)) => {
            if imported_account_needs_session_refresh(rec, now_unix) {
                SessionRecoveryOutcome::Failed(
                    AccountSessionError::Session { message: owned("账号密码恢复后状态元数据仍不完整") },
                )
            } else {
                SessionRecoveryOutcome::Recovered(account_record_session_refresh_report(alias, rec, now_unix))
            }
        },
    }
}

// ---------------------------------------------------------------------------
// Applying the outcomes to the report

/// `k` is the first place of an item of `alias`.
pub open spec fn is_first_alias_position(items: Seq<AccountSessionRefreshBatchItem>, alias: Seq<char>, k: int) -> bool {
    &&& 0 <= k < items.len()
    &&& items[k].alias@ == alias
    &&& forall|j: int| 0 <= j < k ==> (#[trigger] items[j]).alias@ != alias
}

/// An existing item after the outcome: a recovery replaces its report and
/// clears its error; a failure clears its report and keeps an error it
/// already had.
pub open spec fn item_after(item: AccountSessionRefreshBatchItem, o: SessionRecoveryOutcome) -> AccountSessionRefreshBatchItem {
    match o {
        SessionRecoveryOutcome::Recovered(rep) => AccountSessionRefreshBatchItem {
            alias: item.alias,
            refreshed: true,
            report: Some(rep),
            error: None,
        },
        SessionRecoveryOutcome::Failed(e) => AccountSessionRefreshBatchItem {
            alias: item.alias,
            refreshed: false,
            report: None,
            error: if item.error is None {
                Some(e)
            } else {
                item.error
            },
        },
    }
}

/// The item added for an alias the report did not have.
pub open spec fn new_item(alias: String, o: SessionRecoveryOutcome) -> AccountSessionRefreshBatchItem {
    match o {
        SessionRecoveryOutcome::Recovered(rep) => AccountSessionRefreshBatchItem {
            alias,
            refreshed: true,
            report: Some(rep),
            error: None,
        },
        SessionRecoveryOutcome::Failed(e) => AccountSessionRefreshBatchItem {
            alias,
            refreshed: false,
            report: None,
            error: Some(e),
        },
    }
}

/// The items after one alias's outcome: the first item of the alias is
/// updated, or a new item is added at the end.
pub open spec fn recovery_applied(
    items: Seq<AccountSessionRefreshBatchItem>,
    alias: String,
    o: SessionRecoveryOutcome,
) -> Seq<AccountSessionRefreshBatchItem> {
    if exists|k: int| is_first_alias_position(items, alias@, k) {
        let k = choose|k: int| is_first_alias_position(items, alias@, k);
        items.update(k, item_after(items[k], o))
    } else {
        items.push(new_item(alias, o))
    }
}

/// The items after the outcomes of all aliases, applied in order.
pub open spec fn recoveries_applied(
    items: Seq<AccountSessionRefreshBatchItem>,
    aliases: Seq<String>,
    outcomes: Seq<SessionRecoveryOutcome>,
) -> Seq<AccountSessionRefreshBatchItem>
    decreases aliases.len(),
{
    if aliases.len() == 0 {
        items
    } else {
        recovery_applied(
            recoveries_applied(items, aliases.drop_last(), outcomes.drop_last()),
            aliases.last(),
            outcomes[aliases.len() - 1],
        )
    }
}

proof fn lemma_first_position_unique(items: Seq<AccountSessionRefreshBatchItem>, alias: Seq<char>, a: int, b: int)
    requires
        is_first_alias_position(items, alias, a),
        is_first_alias_position(items, alias, b),
    ensures
        a == b,
{
    if a < b {
        assert(items[a].alias@ != alias);
    } else if b < a {
        assert(items[b].alias@ != alias);
    }
}

fn first_position_of_alias(items: &Vec<AccountSessionRefreshBatchItem>, alias: &str) -> (r: Option<usize>)
    ensures
        r matches Some(k) ==> is_first_alias_position(items@, alias@, k as int),
        r is None ==> !(exists|k: int| is_first_alias_position(items@, alias@, k)),
{
    let mut i: usize = 0;
    while i < items.len()
        invariant
            i <= items@.len(),
            forall|j: int| 0 <= j < i ==> (#[trigger] items@[j]).alias@ != alias@,
        decreases items.len() - i,
    {
        if text_eq(items[i].alias.as_str(), alias) {
            return Some(i);
        }
        i = i + 1;
    }
    proof {
        assert forall|k: int| !is_first_alias_position(items@, alias@, k) by {
            if 0 <= k < items@.len() {
                assert(items@[k].alias@ != alias@);
            }
        }
    }
    None
}

fn apply_recovery(items: &mut Vec<AccountSessionRefreshBatchItem>, alias: &String, o: &SessionRecoveryOutcome)
    ensures
        final(items)@ == recovery_applied(old(items)@, *alias, *o),
{
    match first_position_of_alias(items, alias.as_str()) {
        Some(k) => {
            proof {
                let c = choose|c: int| is_first_alias_position(old(items)@, alias@, c);
                lemma_first_position_unique(old(items)@, alias@, c, k as int);
            }
            let item = &items[k];
            let updated = match o {
                SessionRecoveryOutcome::Recovered(rep) => AccountSessionRefreshBatchItem {
                    alias: item.alias.clone(),
                    refreshed: true,
                    report: Some(rep.clone()),
                    error: None,
                },
                SessionRecoveryOutcome::Failed(e) => AccountSessionRefreshBatchItem {
                    alias: item.alias.clone(),
                    refreshed: false,
                    report: None,
                    error: match &item.error {
                        None => Some(e.clone()),
                        Some(prev) => Some(prev.clone()),
                    },
                },
            };
            items.set(k, updated);
        },
        None => {
            let added = match o {
                SessionRecoveryOutcome::Recovered(rep) => AccountSessionRefreshBatchItem {
                    alias: alias.clone(),
                    refreshed: true,
                    report: Some(rep.clone()),
                    error: None,
                },
                SessionRecoveryOutcome::Failed(e) => AccountSessionRefreshBatchItem {
                    alias: alias.clone(),
                    refreshed: false,
                    report: None,
                    error: Some(e.clone()),
                },
            };
            items.push(added);
        },
    }
}

// ---------------------------------------------------------------------------
// Dropping the errors of recovered accounts

/// The aliases whose outcome is a recovery.
pub open spec fn recovered_aliases(aliases: Seq<String>, outcomes: Seq<SessionRecoveryOutcome>) -> Seq<Seq<char>>
    decreases aliases.len(),
{
    if aliases.len() == 0 {
        Seq::empty()
    } else {
        let rest = recovered_aliases(aliases.drop_last(), outcomes.drop_last());
        if outcomes[aliases.len() - 1] is Recovered {
            rest.push(aliases.last()@)
        } else {
            rest
        }
    }
}

/// An error stays unless it is a session refresh error of a recovered
/// account: one whose message begins with the alias and a full-width colon.
pub open spec fn error_stays(e: (AccountImportPostAction, Seq<char>), recovered: Seq<Seq<char>>) -> bool {
    e.0 != AccountImportPostAction::RefreshSessionMetadata || !(exists|i: int|
        0 <= i < recovered.len() && (#[trigger] recovered[i] + "："@).is_prefix_of(e.1))
}

/// The errors that stay, in order.
pub open spec fn errors_staying(
    errors: Seq<(AccountImportPostAction, Seq<char>)>,
    recovered: Seq<Seq<char>>,
) -> Seq<(AccountImportPostAction, Seq<char>)>
    decreases errors.len(),
{
    if errors.len() == 0 {
        Seq::empty()
    } else {
        let rest = errors_staying(errors.drop_last(), recovered);
        if error_stays(errors.last(), recovered) {
            rest.push(errors.last())
        } else {
            rest
        }
    }
}

fn recovered_of(aliases: &Vec<String>, outcomes: &Vec<SessionRecoveryOutcome>) -> (r: Vec<String>)
    requires
        aliases@.len() == outcomes@.len(),
    ensures
        views(r@) == recovered_aliases(aliases@, outcomes@),
{
    let mut out: Vec<String> = Vec::new();
    let mut i: usize = 0;
    while i < aliases.len()
        invariant
            aliases@.len() == outcomes@.len(),
            i <= aliases@.len(),
            views(out@) == recovered_aliases(
                aliases@.subrange(0, i as int),
                outcomes@.subrange(0, i as int),
            ),
        decreases aliases.len() - i,
    {
        let ghost pa = aliases@.subrange(0, i + 1);
        let ghost po = outcomes@.subrange(0, i + 1);
        assert(pa.drop_last() =~= aliases@.subrange(0, i as int));
        assert(po.drop_last() =~= outcomes@.subrange(0, i as int));
        assert(po[pa.len() - 1] == outcomes@[i as int]);
        if matches!(outcomes[i], SessionRecoveryOutcome::Recovered(_)) {
            let ghost before = out@;
            out.push(aliases[i].clone());
            assert(views(out@) =~= views(before).push(aliases@[i as int]@));
        }
        i = i + 1;
    }
    assert(aliases@.subrange(0, aliases@.len() as int) =~= aliases@);
    assert(outcomes@.subrange(0, outcomes@.len() as int) =~= outcomes@);
    out
}

fn error_stays_exec(e: &AccountImportPostActionError, recovered: &Vec<String>) -> (r: bool)
    ensures
        r == error_stays((e.action, e.message@), views(recovered@)),
{
    let ghost rv = views(recovered@);
    if !matches!(e.action, AccountImportPostAction::RefreshSessionMetadata) {
        return true;
    }
    let mut i: usize = 0;
    while i < recovered.len()
        invariant
            i <= recovered@.len(),
            rv == views(recovered@),
            e.action == AccountImportPostAction::RefreshSessionMetadata,
            forall|j: int| 0 <= j < i ==> !(#[trigger] rv[j] + "："@).is_prefix_of(e.message@),
        decreases recovered.len() - i,
    {
        let p = concat2(recovered[i].as_str(), "：");
        if starts_with(e.message.as_str(), p.as_str()) {
            assert(rv[i as int] == recovered@[i as int]@);
            assert(rv[i as int] + "："@ == p@);
            assert((rv[i as int] + "："@).is_prefix_of(e.message@));
            return false;
        }
        i = i + 1;
    }
    true
}

// ---------------------------------------------------------------------------
// The reconciliation

/// Reconciles the import's session refresh report after the password
/// recovery of `aliases` (the retried aliases of this import) with their
/// `outcomes`: with no alias nothing changes; otherwise each outcome is
/// applied in order to the report (an empty one where there was none), its
/// counts are taken anew, and the refresh errors of recovered accounts are
/// dropped from `errors`.
pub fn reconcile_session_recovery(
    initial: Option<AccountSessionRefreshBatchReport>,
    aliases: &Vec<String>,
    outcomes: &Vec<SessionRecoveryOutcome>,
    errors: &mut Vec<AccountImportPostActionError>,
) -> (r: Option<AccountSessionRefreshBatchReport>)
    requires
        aliases@.len() == outcomes@.len(),
    ensures
        aliases@.len() == 0 ==> r == initial && final(errors)@ == old(errors)@,
        aliases@.len() > 0 ==> (r matches Some(x) && x.items@ == recoveries_applied(
            report_items(initial),
            aliases@,
            outcomes@,
        ) && session_batch_counts_match(x)),
        aliases@.len() > 0 ==> error_views(final(errors)@) == errors_staying(
            error_views(old(errors)@),
            recovered_aliases(aliases@, outcomes@),
        ),
{
    if aliases.len() == 0 {
        return initial;
    }
    let mut items: Vec<AccountSessionRefreshBatchItem> = match initial {
        Some(x) => x.items,
        None => Vec::new(),
    };
    assert(items@ == report_items(initial));
    let mut i: usize = 0;
    while i < aliases.len()
        invariant
            aliases@.len() == outcomes@.len(),
            i <= aliases@.len(),
            items@ == recoveries_applied(
                report_items(initial),
                aliases@.subrange(0, i as int),
                outcomes@.subrange(0, i as int),
            ),
        decreases aliases.len() - i,
    {
        let ghost pa = aliases@.subrange(0, i + 1);
        let ghost po = outcomes@.subrange(0, i + 1);
        assert(pa.drop_last() =~= aliases@.subrange(0, i as int));
        assert(po.drop_last() =~= outcomes@.subrange(0, i as int));
        assert(pa.last() == aliases@[i as int]);
        assert(po[pa.len() - 1] == outcomes@[i as int]);
        apply_recovery(&mut items, &aliases[i], &outcomes[i]);
        i = i + 1;
    }
    assert(aliases@.subrange(0, aliases@.len() as int) =~= aliases@);
    assert(outcomes@.subrange(0, outcomes@.len() as int) =~= outcomes@);
    let report = session_batch_report(items);

    let recovered = recovered_of(aliases, outcomes);
    let ghost rv = views(recovered@);
    let ghost before = error_views(errors@);
    let mut kept: Vec<AccountImportPostActionError> = Vec::new();
    let mut j: usize = 0;
    while j < errors.len()
        invariant
            j <= errors@.len(),
            before == error_views(errors@),
            rv == views(recovered@),
            error_views(kept@) == errors_staying(before.subrange(0, j as int), rv),
        decreases errors.len() - j,
    {
        let ghost p = before.subrange(0, j + 1);
        assert(p.drop_last() =~= before.subrange(0, j as int));
        assert(p.last() == (errors@[j as int].action, errors@[j as int].message@));
        if error_stays_exec(&errors[j], &recovered) {
            let e = AccountImportPostActionError { action: errors[j].action, message: errors[j].message.clone() };
            let ghost kb = kept@;
            kept.push(e);
            assert(error_views(kept@) =~= error_views(kb).push((e.action, e.message@)));
        }
        j = j + 1;
    }
    assert(before.subrange(0, before.len() as int) =~= before);
    *errors = kept;
    Some(report)
}

} // verus!
