//! The batch reports of a remote project cleanup, account by account: a
//! preview counts the projects each account would delete or leave, and a
//! cleanup that removes the accounts counts those removed, those whose
//! remote cleanup stayed incomplete, and those that failed. Each report's
//! counts always agree with its items.

use vstd::prelude::*;

verus! {

// ---------------------------------------------------------------------------
// Preview

/// What the preview of one account counted.
#[derive(Debug, Clone, Copy, PartialEq, Eq)]
pub struct CleanupPreviewCounts {
    pub total_projects: usize,
    pub delete_count: usize,
    pub leave_count: usize,
}

/// One account of a preview: its counts, or why it could not be previewed.
pub struct RemoteCleanupPreviewItem {
    pub alias: String,
    pub counts: Option<CleanupPreviewCounts>,
    pub error: Option<String>,
}

/// A preview over several accounts.
pub struct RemoteCleanupPreviewBatch {
    pub previewed_count: usize,
    pub failed_count: usize,
    pub total_projects: usize,
    pub delete_count: usize,
    pub leave_count: usize,
    pub items: Vec<RemoteCleanupPreviewItem>,
}

/// The number of items previewed.
pub open spec fn previewed_items(items: Seq<RemoteCleanupPreviewItem>) -> nat
    decreases items.len(),
{
    if items.len() == 0 {
        0
    } else {
        previewed_items(items.drop_last()) + if items.last().counts is Some {
            1nat
        } else {
            0nat
        }
    }
}

/// The sum over the previewed items of one count.
pub open spec fn preview_sum(items: Seq<RemoteCleanupPreviewItem>, which: int) -> nat
    decreases items.len(),
{
    if items.len() == 0 {
        0
    } else {
        preview_sum(items.drop_last(), which) + match items.last().counts {
            Some(c) => if which == 0 {
                c.total_projects as nat
            } else if which == 1 {
                c.delete_count as nat
            } else {
                c.leave_count as nat
            },
            None => 0nat,
        }
    }
}

/// Every item is previewed or failed, and the counts are those of the items.
pub open spec fn preview_batch_wf(b: RemoteCleanupPreviewBatch) -> bool {
    &&& forall|i: int| 0 <= i < b.items@.len() ==> ((#[trigger] b.items@[i]).counts is Some) != (b.items@[i].error is Some)
    &&& b.previewed_count == previewed_items(b.items@)
    &&& b.failed_count == b.items@.len() - previewed_items(b.items@)
    &&& b.total_projects == preview_sum(b.items@, 0)
    &&& b.delete_count == preview_sum(b.items@, 1)
    &&& b.leave_count == preview_sum(b.items@, 2)
}

proof fn lemma_previewed_bounded(items: Seq<RemoteCleanupPreviewItem>)
    ensures
        previewed_items(items) <= items.len(),
    decreases items.len(),
{
    if items.len() > 0 {
        lemma_previewed_bounded(items.drop_last());
    }
}

impl RemoteCleanupPreviewBatch {
    pub fn new() -> (r: RemoteCleanupPreviewBatch)
        ensures
            preview_batch_wf(r),
            r.items@.len() == 0,
    {
        RemoteCleanupPreviewBatch {
            previewed_count: 0,
            failed_count: 0,
            total_projects: 0,
            delete_count: 0,
            leave_count: 0,
            items: Vec::new(),
        }
    }

    /// Records the preview of `alias`: its counts are added in, or it
    /// counts as failed with the error's text. The sums must fit a `usize`.
    pub fn record(&mut self, alias: String, outcome: Result<CleanupPreviewCounts, String>)
        requires
            preview_batch_wf(*old(self)),
            old(self).items@.len() < usize::MAX,
            outcome matches Ok(c) ==> old(self).total_projects + c.total_projects <= usize::MAX
                && old(self).delete_count + c.delete_count <= usize::MAX
                && old(self).leave_count + c.leave_count <= usize::MAX,
        ensures
            preview_batch_wf(*final(self)),
            final(self).items@.len() == old(self).items@.len() + 1,
            final(self).items@.drop_last() == old(self).items@,
            final(self).items@.last().alias == alias,
            match outcome {
                Ok(c) => final(self).items@.last().counts == Some(c) && final(self).items@.last().error is None,
                Err(e) => final(self).items@.last().counts is None && final(self).items@.last().error == Some(e),
            },
    {
        proof {
            lemma_previewed_bounded(self.items@);
        }
        let ghost before = self.items@;
        match outcome {
            Ok(c) => {
                self.previewed_count = self.previewed_count + 1;
                self.total_projects = self.total_projects + c.total_projects;
                self.delete_count = self.delete_count + c.delete_count;
                self.leave_count = self.leave_count + c.leave_count;
                self.items.push(RemoteCleanupPreviewItem { alias, counts: Some(c), error: None });
            },
            Err(e) => {
                self.failed_count = self.failed_count + 1;
                self.items.push(RemoteCleanupPreviewItem { alias, counts: None, error: Some(e) });
            },
        }
        assert(self.items@.drop_last() =~= before);
    }
}

// ---------------------------------------------------------------------------
// Cleanup, then removal

/// How one account's cleanup and removal ended.
#[derive(Debug, Clone, Copy, PartialEq, Eq)]
pub enum RemoteCleanupRemovalStatus {
    RemovedLocally,
    RemoteCleanupIncomplete,
    Failed,
}

/// What the cleanup of one account reported.
#[derive(Debug, Clone, Copy, PartialEq, Eq)]
pub enum CleanupThenRemoveOutcome {
    /// Removed from the store: how many accounts the removal reported, if
    /// it reported any (one otherwise).
    RemovedLocally { removed_count: Option<usize> },
    /// The remote cleanup was not finished; the account stays.
    RemoteCleanupIncomplete,
}

/// One account of a cleanup batch.
pub struct RemoteCleanupRemovalItem {
    pub alias: String,
    pub status: RemoteCleanupRemovalStatus,
    /// How many accounts this item removed from the store.
    pub removed: usize,
    pub error: Option<String>,
}

/// A cleanup over several accounts.
pub struct RemoteCleanupRemovalBatch {
    pub removed_count: usize,
    pub incomplete_count: usize,
    pub failed_count: usize,
    pub items: Vec<RemoteCleanupRemovalItem>,
}

/// The sum of the items' removals.
pub open spec fn removed_sum(items: Seq<RemoteCleanupRemovalItem>) -> nat
    decreases items.len(),
{
    if items.len() == 0 {
        0
    } else {
        removed_sum(items.drop_last()) + items.last().removed as nat
    }
}

/// The number of items with a status.
pub open spec fn status_count(items: Seq<RemoteCleanupRemovalItem>, s: RemoteCleanupRemovalStatus) -> nat
    decreases items.len(),
{
    if items.len() == 0 {
        0
    } else {
        status_count(items.drop_last(), s) + if items.last().status == s {
            1nat
        } else {
            0nat
        }
    }
}

/// The counts agree with the items: failed items carry an error, others
/// none, and only removed items remove accounts.
pub open spec fn removal_batch_wf(b: RemoteCleanupRemovalBatch) -> bool {
    &&& forall|i: int|
        0 <= i < b.items@.len() ==> ((#[trigger] b.items@[i]).status == RemoteCleanupRemovalStatus::Failed) == (
        b.items@[i].error is Some)
    &&& forall|i: int|
        0 <= i < b.items@.len() ==> (#[trigger] b.items@[i]).status != RemoteCleanupRemovalStatus::RemovedLocally
            ==> b.items@[i].removed == 0
    &&& b.removed_count == removed_sum(b.items@)
    &&& b.incomplete_count == status_count(b.items@, RemoteCleanupRemovalStatus::RemoteCleanupIncomplete)
    &&& b.failed_count == status_count(b.items@, RemoteCleanupRemovalStatus::Failed)
}

proof fn lemma_status_count_bounded(items: Seq<RemoteCleanupRemovalItem>, s: RemoteCleanupRemovalStatus)
    ensures
        status_count(items, s) <= items.len(),
    decreases items.len(),
{
    if items.len() > 0 {
        lemma_status_count_bounded(items.drop_last(), s);
    }
}

impl RemoteCleanupRemovalBatch {
    pub fn new() -> (r: RemoteCleanupRemovalBatch)
        ensures
            removal_batch_wf(r),
            r.items@.len() == 0,
    {
        RemoteCleanupRemovalBatch { removed_count: 0, incomplete_count: 0, failed_count: 0, items: Vec::new() }
    }

    /// Records the cleanup of `alias`: a removal adds the accounts it
    /// removed (one when it did not say), an incomplete cleanup or a
    /// failure (with the error's text) counts once. The sum must fit a
    /// `usize`.
    pub fn record(&mut self, alias: String, outcome: Result<CleanupThenRemoveOutcome, String>)
        requires
            removal_batch_wf(*old(self)),
            old(self).items@.len() < usize::MAX,
            outcome matches Ok(CleanupThenRemoveOutcome::RemovedLocally { removed_count }) ==> old(self).removed_count
                + match removed_count {
                Some(n) => n as int,
                None => 1int,
            } <= usize::MAX,
        ensures
            removal_batch_wf(*final(self)),
            final(self).items@.len() == old(self).items@.len() + 1,
            final(self).items@.drop_last() == old(self).items@,
            final(self).items@.last().alias == alias,
            match outcome {
                Ok(CleanupThenRemoveOutcome::RemovedLocally { removed_count }) => final(self).items@.last().status
                    == RemoteCleanupRemovalStatus::RemovedLocally && final(self).items@.last().removed == match removed_count {
                    Some(n) => n,
                    None => 1,
                },
                Ok(CleanupThenRemoveOutcome::RemoteCleanupIncomplete) => final(self).items@.last().status
                    == RemoteCleanupRemovalStatus::RemoteCleanupIncomplete,
                Err(e) => final(self).items@.last().status == RemoteCleanupRemovalStatus::Failed
                    && final(self).items@.last().error == Some(e),
            },
    {
        proof {
            lemma_status_count_bounded(self.items@, RemoteCleanupRemovalStatus::RemoteCleanupIncomplete);
            lemma_status_count_bounded(self.items@, RemoteCleanupRemovalStatus::Failed);
        }
        let ghost before = self.items@;
        match outcome {
            Ok(CleanupThenRemoveOutcome::RemovedLocally { removed_count }) => {
                let n: usize = match removed_count {
                    Some(n) => n,
                    None => 1,
                };
                self.removed_count = self.removed_count + n;
                self.items.push(RemoteCleanupRemovalItem {
                    alias,
                    status: RemoteCleanupRemovalStatus::RemovedLocally,
                    removed: n,
                    error: None,
                });
            },
            Ok(CleanupThenRemoveOutcome::RemoteCleanupIncomplete) => {
                self.incomplete_count = self.incomplete_count + 1;
                self.items.push(RemoteCleanupRemovalItem {
                    alias,
                    status: RemoteCleanupRemovalStatus::RemoteCleanupIncomplete,
                    removed: 0,
                    error: None,
                });
            },
            Err(e) => {
                self.failed_count = self.failed_count + 1;
                self.items.push(RemoteCleanupRemovalItem {
                    alias,
                    status: RemoteCleanupRemovalStatus::Failed,
                    removed: 0,
                    error: Some(e),
                });
            },
        }
        assert(self.items@.drop_last() =~= before);
    }
}

/// However the accounts of a cleanup came out, each counts once: the
/// incomplete and failed counts and the accounts that were removed add up
/// to the items.
pub proof fn removal_statuses_partition_items(b: RemoteCleanupRemovalBatch)
    requires
        removal_batch_wf(b),
    ensures
        status_count(b.items@, RemoteCleanupRemovalStatus::RemovedLocally) + b.incomplete_count + b.failed_count
            == b.items@.len(),
{
    lemma_statuses_partition(b.items@);
}

proof fn lemma_statuses_partition(items: Seq<RemoteCleanupRemovalItem>)
    ensures
        status_count(items, RemoteCleanupRemovalStatus::RemovedLocally) + status_count(
            items,
            RemoteCleanupRemovalStatus::RemoteCleanupIncomplete,
        ) + status_count(items, RemoteCleanupRemovalStatus::Failed) == items.len(),
    decreases items.len(),
{
    if items.len() > 0 {
        lemma_statuses_partition(items.drop_last());
    }
}

} // verus!
