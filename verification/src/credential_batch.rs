//! Credential add and refresh batches that log accounts in concurrently:
//! the accounts skipped for a duplicate e-mail come first, then one item
//! per planned account in plan order, whatever order the logins finished in.

use vstd::prelude::*;
use crate::credential::{
    classify_credential_batch_item, item_matches_report, CredentialBatchItem,
    CredentialBatchItemStatus, CredentialBatchReport, CredentialLoginReport,
};
use crate::text::{concat2, owned};
use crate::errors_store::TaskStateError;

verus! {

/// An account a batch skipped because its e-mail is saved already.
pub struct SkippedDuplicateEmail {
    pub alias: String,
    pub email: String,
    pub existing_alias: String,
}

pub open spec fn is_skipped_item(item: CredentialBatchItem, s: SkippedDuplicateEmail) -> bool {
    &&& item.alias@ == s.alias@
    &&& item.email@ == s.email@
    &&& item.status == CredentialBatchItemStatus::SkippedDuplicateEmail
    &&& item.existing_alias matches Some(e) && e@ == s.existing_alias@
    &&& item.report is None
    &&& item.error is None
}

/// The report a batch starts from: one skipped item per duplicate, counted.
pub fn credential_report_from_skipped_duplicates(skipped: &Vec<SkippedDuplicateEmail>) -> (r: CredentialBatchReport)
    ensures
        r.imported_count == 0 && r.updated_count == 0 && r.failed_count == 0,
        r.skipped_duplicate_email_count == skipped@.len(),
        r.items@.len() == skipped@.len(),
        forall|k: int| 0 <= k < skipped@.len() ==> is_skipped_item(#[trigger] r.items@[k], skipped@[k]),
{
    let mut items: Vec<CredentialBatchItem> = Vec::new();
    let mut i: usize = 0;
    while i < skipped.len()
        invariant
            i <= skipped@.len(),
            items@.len() == i,
            forall|k: int| 0 <= k < i ==> is_skipped_item(#[trigger] items@[k], skipped@[k]),
        decreases skipped.len() - i,
    {
        let s = &skipped[i];
        let item = CredentialBatchItem {
            alias: owned(s.alias.as_str()),
            email: owned(s.email.as_str()),
            status: CredentialBatchItemStatus::SkippedDuplicateEmail,
            existing_alias: Some(owned(s.existing_alias.as_str())),
            report: None,
            error: None,
        };
        items.push(item);
        i = i + 1;
    }
    CredentialBatchReport {
        imported_count: 0,
        updated_count: 0,
        skipped_duplicate_email_count: skipped.len(),
        failed_count: 0,
        items,
    }
}

/// What logging one planned account in came to: its login report and why
/// it did not complete (if so), or the error's text.
pub type LoginOutcome = Result<(CredentialLoginReport, Option<String>), String>;

/// The item an outcome gives for the account `alias` with `email`.
pub open spec fn outcome_item(item: CredentialBatchItem, alias: Seq<char>, email: Seq<char>, outcome: LoginOutcome) -> bool {
    match outcome {
        Ok((report, failure)) => item_matches_report(item, report, failure),
        Err(e) => {
            &&& item.alias@ == alias
            &&& item.email@ == email
            &&& item.status == CredentialBatchItemStatus::Failed
            &&& item.existing_alias is None
            &&& item.report is None
            &&& item.error matches Some(m) && m@ == e@
        },
    }
}

/// The progress line of an outcome: `done` when it completed, else a
/// warning with why.
pub open spec fn outcome_line(outcome: LoginOutcome, done: Seq<char>) -> (bool, Seq<char>) {
    match outcome {
        Ok((_, None)) => (false, done),
        Ok((_, Some(f))) => (true, "未完成："@ + f@),
        Err(e) => (true, "未完成："@ + e@),
    }
}

/// A batch whose logins finish in any order: each account's item goes to
/// the account's place in the plan.
pub struct OrderedCredentialBatch {
    pub report: CredentialBatchReport,
    pub slots: Vec<Option<CredentialBatchItem>>,
}

/// The items of the filled places, in plan order.
pub open spec fn filled(slots: Seq<Option<CredentialBatchItem>>) -> Seq<CredentialBatchItem>
    decreases slots.len(),
{
    if slots.len() == 0 {
        Seq::empty()
    } else {
        match slots.last() {
            Some(i) => filled(slots.drop_last()).push(i),
            None => filled(slots.drop_last()),
        }
    }
}

impl OrderedCredentialBatch {
    /// A batch of `accounts` planned accounts after `report`'s skipped ones.
    pub fn new(report: CredentialBatchReport, accounts: usize) -> (r: OrderedCredentialBatch)
        ensures
            r.report == report,
            r.slots@.len() == accounts,
            forall|k: int| 0 <= k < accounts ==> (#[trigger] r.slots@[k]) is None,
    {
        let mut slots: Vec<Option<CredentialBatchItem>> = Vec::new();
        let mut i: usize = 0;
        while i < accounts
            invariant
                i <= accounts,
                slots@.len() == i,
                forall|k: int| 0 <= k < i ==> (#[trigger] slots@[k]) is None,
            decreases accounts - i,
        {
            slots.push(None);
            i = i + 1;
        }
        OrderedCredentialBatch { report, slots }
    }

    /// Records the outcome of the account at `offset` of the plan, counting
    /// its status; returns the progress line, with `done` as the text of a
    /// completed account.
    pub fn record(&mut self, offset: usize, alias: &str, email: &str, outcome: LoginOutcome, done: &str) -> (r: (bool, String))
        requires
            offset < old(self).slots@.len(),
            old(self).report.imported_count < usize::MAX,
            old(self).report.updated_count < usize::MAX,
            old(self).report.skipped_duplicate_email_count < usize::MAX,
            old(self).report.failed_count < usize::MAX,
        ensures
            final(self).slots@.len() == old(self).slots@.len(),
            final(self).slots@[offset as int] matches Some(item) && outcome_item(item, alias@, email@, outcome)
                && final(self).report.imported_count == old(self).report.imported_count + if item.status == CredentialBatchItemStatus::Imported { 1int } else { 0int }
                && final(self).report.updated_count == old(self).report.updated_count + if item.status == CredentialBatchItemStatus::Updated { 1int } else { 0int }
                && final(self).report.skipped_duplicate_email_count == old(self).report.skipped_duplicate_email_count
                    + if item.status == CredentialBatchItemStatus::SkippedDuplicateEmail { 1int } else { 0int }
                && final(self).report.failed_count == old(self).report.failed_count + if item.status == CredentialBatchItemStatus::Failed { 1int } else { 0int },
            final(self).slots@ == old(self).slots@.update(offset as int, final(self).slots@[offset as int]),
            final(self).report.items@ == old(self).report.items@,
            (r.0, r.1@) == outcome_line(outcome, done@),
    {
        let (item, line) = match outcome {
            Ok((report, failure)) => {
                let (item, completed, failure) = classify_credential_batch_item(&mut self.report, report, failure);
                let line = if completed {
                    (false, owned(done))
                } else {
                    match &failure {
                        Some(f) => (true, concat2("未完成：", f.as_str())),
                        None => (true, owned("未完成：Cookie/订阅/使用状态未完整刷新")),
                    }
                };
                (item, line)
            },
            Err(e) => {
                self.report.failed_count = self.report.failed_count + 1;
                let line = (true, concat2("未完成：", e.as_str()));
                let item = CredentialBatchItem {
                    alias: owned(alias),
                    email: owned(email),
                    status: CredentialBatchItemStatus::Failed,
                    existing_alias: None,
                    report: None,
                    error: Some(e),
                };
                (item, line)
            },
        };
        self.slots.set(offset, Some(item));
        assert(self.slots@ =~= old(self).slots@.update(offset as int, self.slots@[offset as int]));
        line
    }

    /// The finished report: the skipped items, then the planned accounts'
    /// items in plan order.
    pub fn finish(self) -> (r: CredentialBatchReport)
        ensures
            r.items@ == self.report.items@ + filled(self.slots@),
            r.imported_count == self.report.imported_count,
            r.updated_count == self.report.updated_count,
            r.skipped_duplicate_email_count == self.report.skipped_duplicate_email_count,
            r.failed_count == self.report.failed_count,
    {
        let OrderedCredentialBatch { report, slots } = self;
        let ghost all_slots = slots@;
        let CredentialBatchReport { imported_count, updated_count, skipped_duplicate_email_count, failed_count, items } = report;
        let mut items = items;
        let ghost start = items@;
        let mut slots = slots;
        let mut rev: Vec<CredentialBatchItem> = Vec::new();
        // Take the places from the back, then put the items in order.
        while slots.len() > 0
            invariant
                all_slots == slots@ + all_slots.subrange(slots@.len() as int, all_slots.len() as int),
                slots@.len() <= all_slots.len(),
                filled(all_slots) == filled(slots@) + rev@.reverse(),
            decreases slots.len(),
        {
            let ghost before = slots@;
            let last = slots.pop().unwrap();
            proof {
                assert(before =~= slots@.push(last));
                assert(before.drop_last() =~= slots@);
                assert(all_slots == slots@ + all_slots.subrange(slots@.len() as int, all_slots.len() as int)) by {
                    assert(all_slots.subrange(slots@.len() as int, all_slots.len() as int) =~= seq![last] + all_slots.subrange(before.len() as int, all_slots.len() as int));
                    assert(all_slots =~= slots@ + all_slots.subrange(slots@.len() as int, all_slots.len() as int));
                }
            }
            match last {
                Some(item) => {
                    let ghost r0 = rev@;
                    rev.push(item);
                    proof {
                        assert(rev@.reverse() =~= seq![item] + r0.reverse());
                        assert(filled(before) == filled(slots@).push(item));
                        assert(filled(all_slots) =~= filled(slots@) + rev@.reverse());
                    }
                },
                None => {
                    proof {
                        assert(filled(before) == filled(slots@));
                    }
                },
            }
        }
        proof {
            assert(slots@ =~= Seq::<Option<CredentialBatchItem>>::empty());
            assert(filled(slots@) =~= Seq::<CredentialBatchItem>::empty());
            assert(filled(all_slots) =~= rev@.reverse());
        }
        let ghost want = rev@.reverse();
        while rev.len() > 0
            invariant
                items@ + rev@.reverse() == start + want,
            decreases rev.len(),
        {
            let ghost r0 = rev@;
            let ghost i0 = items@;
            let x = rev.pop().unwrap();
            items.push(x);
            proof {
                assert(r0 =~= rev@.push(x));
                assert(r0.reverse() =~= seq![x] + rev@.reverse());
                assert(items@ + rev@.reverse() =~= i0 + r0.reverse());
            }
        }
        proof {
            assert(rev@.reverse() =~= Seq::<CredentialBatchItem>::empty());
            assert(items@ =~= start + want);
        }
        CredentialBatchReport { imported_count, updated_count, skipped_duplicate_email_count, failed_count, items }
    }
}

/// Recording the outcomes of two different accounts gives the same places
/// in either order: a batch's items do not depend on the order in which
/// its logins finished.
pub proof fn login_completion_order_does_not_matter(
    slots: Seq<Option<CredentialBatchItem>>,
    a: int,
    x: CredentialBatchItem,
    b: int,
    y: CredentialBatchItem,
)
    requires
        0 <= a < slots.len(),
        0 <= b < slots.len(),
        a != b,
    ensures
        slots.update(a, Some(x)).update(b, Some(y)) == slots.update(b, Some(y)).update(a, Some(x)),
{
    assert(slots.update(a, Some(x)).update(b, Some(y)) =~= slots.update(b, Some(y)).update(a, Some(x)));
}

// ---------------------------------------------------------------------------
// The accounts a batch locks

/// `s` with every text after its first occurrence left out.
pub open spec fn first_occurrences(s: Seq<Seq<char>>) -> Seq<Seq<char>>
    decreases s.len(),
{
    if s.len() == 0 {
        Seq::empty()
    } else {
        let rest = first_occurrences(s.drop_last());
        if rest.contains(s.last()) {
            rest
        } else {
            rest.push(s.last())
        }
    }
}

/// The texts of a list, without the repeats, keep each text once and lose
/// none.
pub proof fn first_occurrences_are_distinct_and_complete(s: Seq<Seq<char>>)
    ensures
        first_occurrences(s).no_duplicates(),
        first_occurrences(s).to_set() == s.to_set(),
    decreases s.len(),
{
    if s.len() > 0 {
        first_occurrences_are_distinct_and_complete(s.drop_last());
        let rest = first_occurrences(s.drop_last());
        rest.lemma_push_to_set_commute(s.last());
        s.drop_last().lemma_push_to_set_commute(s.last());
        assert(s.drop_last().push(s.last()) =~= s);
        if rest.contains(s.last()) {
            assert(rest.to_set().insert(s.last()) =~= rest.to_set());
        }
    } else {
        assert(s.to_set() =~= Set::<Seq<char>>::empty());
        assert(first_occurrences(s).to_set() =~= Set::<Seq<char>>::empty());
    }
}

/// Adds `alias` unless the list holds it already.
pub fn push_unique(aliases: &mut Vec<String>, alias: &str)
    ensures
        final(aliases)@.map_values(|a: String| a@) == if old(aliases)@.map_values(|a: String| a@).contains(alias@) {
            old(aliases)@.map_values(|a: String| a@)
        } else {
            old(aliases)@.map_values(|a: String| a@).push(alias@)
        },
{
    let ghost before = aliases@.map_values(|a: String| a@);
    let mut i: usize = 0;
    while i < aliases.len()
        invariant
            i <= aliases@.len(),
            before == aliases@.map_values(|a: String| a@),
            forall|k: int| 0 <= k < i ==> before[k] != alias@,
        decreases aliases.len() - i,
    {
        if crate::text::text_eq(aliases[i].as_str(), alias) {
            assert(before[i as int] == alias@);
            return;
        }
        i = i + 1;
    }
    aliases.push(owned(alias));
    assert(aliases@.map_values(|a: String| a@) =~= before.push(alias@));
}

/// The aliases a credential add batch locks, in order of first mention:
/// the planned accounts, then each skipped duplicate and the account that
/// holds its e-mail.
pub open spec fn add_lock_sequence(planned: Seq<String>, skipped: Seq<SkippedDuplicateEmail>) -> Seq<Seq<char>>
    decreases skipped.len(),
{
    if skipped.len() == 0 {
        planned.map_values(|a: String| a@)
    } else {
        add_lock_sequence(planned, skipped.drop_last()).push(skipped.last().alias@).push(skipped.last().existing_alias@)
    }
}

/// The aliases a credential add batch locks, each once.
pub fn credential_add_lock_aliases(planned: &Vec<String>, skipped: &Vec<SkippedDuplicateEmail>) -> (r: Vec<String>)
    ensures
        r@.map_values(|a: String| a@) == first_occurrences(add_lock_sequence(planned@, skipped@)),
{
    let mut out: Vec<String> = Vec::new();
    let mut i: usize = 0;
    assert(out@.map_values(|a: String| a@) =~= first_occurrences(planned@.subrange(0, 0).map_values(|a: String| a@)));
    while i < planned.len()
        invariant
            i <= planned@.len(),
            out@.map_values(|a: String| a@) == first_occurrences(planned@.subrange(0, i as int).map_values(|a: String| a@)),
        decreases planned.len() - i,
    {
        push_unique(&mut out, planned[i].as_str());
        proof {
            let a = planned@.subrange(0, i + 1).map_values(|a: String| a@);
            assert(a.drop_last() =~= planned@.subrange(0, i as int).map_values(|a: String| a@));
        }
        i = i + 1;
    }
    assert(planned@.subrange(0, planned@.len() as int) =~= planned@);
    let mut j: usize = 0;
    assert(skipped@.subrange(0, 0) =~= Seq::<SkippedDuplicateEmail>::empty());
    while j < skipped.len()
        invariant
            j <= skipped@.len(),
            out@.map_values(|a: String| a@) == first_occurrences(add_lock_sequence(planned@, skipped@.subrange(0, j as int))),
        decreases skipped.len() - j,
    {
        let ghost seq0 = add_lock_sequence(planned@, skipped@.subrange(0, j as int));
        let ghost s1 = seq0.push(skipped@[j as int].alias@);
        let ghost s2 = s1.push(skipped@[j as int].existing_alias@);
        push_unique(&mut out, skipped[j].alias.as_str());
        proof {
            assert(s1.drop_last() =~= seq0);
            assert(s1.last() == skipped@[j as int].alias@);
            assert(out@.map_values(|a: String| a@) == first_occurrences(s1));
        }
        push_unique(&mut out, skipped[j].existing_alias.as_str());
        proof {
            assert(s2.drop_last() =~= s1);
            assert(s2.last() == skipped@[j as int].existing_alias@);
            assert(out@.map_values(|a: String| a@) == first_occurrences(s2));
            let sub = skipped@.subrange(0, j + 1);
            assert(sub.drop_last() =~= skipped@.subrange(0, j as int));
            assert(sub.last() == skipped@[j as int]);
            assert(add_lock_sequence(planned@, sub) == s2);
        }
        j = j + 1;
    }
    assert(skipped@.subrange(0, skipped@.len() as int) =~= skipped@);
    out
}

/// One imported candidate as the import's lock sees it: the alias it is
/// saved under, and the account that holds its e-mail already, if any.
pub struct ImportLockCandidate {
    pub alias: String,
    pub existing_alias: Option<String>,
}

/// The aliases an import locks, in order of first mention: each
/// candidate's alias, then the account that holds its e-mail.
pub open spec fn import_lock_sequence(c: Seq<ImportLockCandidate>) -> Seq<Seq<char>>
    decreases c.len(),
{
    if c.len() == 0 {
        Seq::empty()
    } else {
        let with_alias = import_lock_sequence(c.drop_last()).push(c.last().alias@);
        match c.last().existing_alias {
            Some(e) => with_alias.push(e@),
            None => with_alias,
        }
    }
}

/// The aliases an import of `candidates` locks, each once.
pub fn import_candidate_lock_aliases(candidates: &Vec<ImportLockCandidate>) -> (r: Vec<String>)
    ensures
        r@.map_values(|a: String| a@) == first_occurrences(import_lock_sequence(candidates@)),
{
    let mut out: Vec<String> = Vec::new();
    let mut j: usize = 0;
    assert(out@.map_values(|a: String| a@) =~= Seq::<Seq<char>>::empty());
    assert(candidates@.subrange(0, 0) =~= Seq::<ImportLockCandidate>::empty());
    while j < candidates.len()
        invariant
            j <= candidates@.len(),
            out@.map_values(|a: String| a@) == first_occurrences(import_lock_sequence(candidates@.subrange(0, j as int))),
        decreases candidates.len() - j,
    {
        let ghost seq0 = import_lock_sequence(candidates@.subrange(0, j as int));
        let ghost s1 = seq0.push(candidates@[j as int].alias@);
        let ghost sub = candidates@.subrange(0, j + 1);
        proof {
            assert(sub.drop_last() =~= candidates@.subrange(0, j as int));
            assert(sub.last() == candidates@[j as int]);
        }
        push_unique(&mut out, candidates[j].alias.as_str());
        proof {
            assert(s1.drop_last() =~= seq0);
            assert(s1.last() == candidates@[j as int].alias@);
            assert(out@.map_values(|a: String| a@) == first_occurrences(s1));
        }
        match &candidates[j].existing_alias {
            Some(e) => {
                let ghost s2 = s1.push(e@);
                push_unique(&mut out, e.as_str());
                proof {
                    assert(s2.drop_last() =~= s1);
                    assert(s2.last() == e@);
                    assert(out@.map_values(|a: String| a@) == first_occurrences(s2));
                    assert(import_lock_sequence(sub) == s2);
                }
            },
            None => {
                assert(import_lock_sequence(sub) == s1);
            },
        }
        j = j + 1;
    }
    assert(candidates@.subrange(0, candidates@.len() as int) =~= candidates@);
    out
}

/// With a task, the first of `aliases` that another task holds stops the
/// request; `owners` holds each alias's locking task, if any. Without a
/// task nothing is checked.
pub open spec fn first_locked(aliases: Seq<String>, owners: Seq<Option<String>>) -> Option<int>
    decreases aliases.len(),
{
    if aliases.len() == 0 {
        None
    } else {
        match first_locked(aliases.drop_last(), owners.drop_last()) {
            Some(k) => Some(k),
            None => if owners[aliases.len() - 1] is Some {
                Some(aliases.len() - 1)
            } else {
                None
            },
        }
    }
}

/// Refuses a password request (with a task) over an account another task
/// holds: the first such alias and its owner make the error.
pub fn reject_locked_aliases(has_task: bool, aliases: &Vec<String>, owners: &Vec<Option<String>>) -> (r: Result<
    (),
    TaskStateError,
>)
    requires
        aliases@.len() == owners@.len(),
    ensures
        !has_task ==> r is Ok,
        has_task ==> match first_locked(aliases@, owners@) {
            None => r is Ok,
            Some(k) => r matches Err(TaskStateError::AccountAlreadyLocked { alias, task_id })
                && alias@ == aliases@[k]@ && (owners@[k] matches Some(o) && task_id@ == o@),
        },
{
    if !has_task {
        return Ok(());
    }
    let mut i: usize = 0;
    while i < aliases.len()
        invariant
            aliases@.len() == owners@.len(),
            has_task,
            i <= aliases@.len(),
            first_locked(aliases@.subrange(0, i as int), owners@.subrange(0, i as int)) is None,
        decreases aliases.len() - i,
    {
        let ghost sa = aliases@.subrange(0, i + 1);
        let ghost so = owners@.subrange(0, i + 1);
        assert(sa.drop_last() =~= aliases@.subrange(0, i as int));
        assert(so.drop_last() =~= owners@.subrange(0, i as int));
        assert(so[sa.len() - 1] == owners@[i as int]);
        if let Some(o) = &owners[i] {
            proof {
                lemma_first_locked_prefix(aliases@, owners@, i as int + 1);
            }
            return Err(TaskStateError::AccountAlreadyLocked { alias: aliases[i].clone(), task_id: o.clone() });
        }
        i = i + 1;
    }
    assert(aliases@.subrange(0, aliases@.len() as int) =~= aliases@);
    assert(owners@.subrange(0, owners@.len() as int) =~= owners@);
    Ok(())
}

/// A lock found in a prefix is the first lock of the whole list.
proof fn lemma_first_locked_prefix(aliases: Seq<String>, owners: Seq<Option<String>>, n: int)
    requires
        aliases.len() == owners.len(),
        0 <= n <= aliases.len(),
        first_locked(aliases.subrange(0, n), owners.subrange(0, n)) is Some,
    ensures
        first_locked(aliases, owners) == first_locked(aliases.subrange(0, n), owners.subrange(0, n)),
    decreases aliases.len() - n,
{
    if n < aliases.len() {
        let sa = aliases.subrange(0, n + 1);
        let so = owners.subrange(0, n + 1);
        assert(sa.drop_last() =~= aliases.subrange(0, n));
        assert(so.drop_last() =~= owners.subrange(0, n));
        assert(first_locked(sa, so) == first_locked(aliases.subrange(0, n), owners.subrange(0, n)));
        lemma_first_locked_prefix(aliases, owners, n + 1);
    } else {
        assert(aliases.subrange(0, n) =~= aliases);
        assert(owners.subrange(0, n) =~= owners);
    }
}

/// The e-mail a refresh logs in with: the saved one, trimmed, when it is
/// not blank; without it the account fails with the missing e-mail error.
pub fn refresh_login_email(email: Option<&str>) -> (r: Option<String>)
    ensures
        (match r { Some(e) => Some(e@), None => None }) == (match email {
            Some(e) => if crate::text::trimmed(e@).len() > 0 { Some(crate::text::trimmed(e@)) } else { None },
            None => None,
        }),
{
    match email {
        Some(e) => {
            let t = crate::text::trim(e);
            if crate::text::is_empty_text(t.as_str()) {
                None
            } else {
                Some(t)
            }
        },
        None => None,
    }
}

} // verus!
