//! Session metadata refreshes: the per-account reports and the batch report
//! that collects them.

use vstd::prelude::*;
use crate::errors_remote::AccountSessionError;

verus! {

/// Whether a refresh learned the account's subscription.
#[derive(Debug, Clone, Copy, PartialEq, Eq)]
pub enum SubscriptionRefreshStatus {
    Detected,
    Unknown,
    FailedButAccountUpdated,
}

/// What a session refresh learned about one account.
pub struct AccountSessionRefreshReport {
    pub alias: String,
    pub email: Option<String>,
    pub user_id: Option<String>,
    pub subscription_status: Option<String>,
    pub subscription_label: Option<String>,
    /// The trial's end, in whole Unix seconds.
    pub trial_expiry: Option<i64>,
    pub subscription_refresh_status: SubscriptionRefreshStatus,
}

impl Clone for AccountSessionRefreshReport {
    fn clone(&self) -> (r: Self)
        ensures
            r == *self,
    {
        AccountSessionRefreshReport {
            alias: self.alias.clone(),
            email: self.email.clone(),
            user_id: self.user_id.clone(),
            subscription_status: self.subscription_status.clone(),
            subscription_label: self.subscription_label.clone(),
            trial_expiry: self.trial_expiry,
            subscription_refresh_status: self.subscription_refresh_status,
        }
    }
}

/// One account of a session refresh batch.
pub struct AccountSessionRefreshBatchItem {
    pub alias: String,
    pub refreshed: bool,
    pub report: Option<AccountSessionRefreshReport>,
    pub error: Option<AccountSessionError>,
}

impl Clone for AccountSessionRefreshBatchItem {
    fn clone(&self) -> (r: Self)
        ensures
            r == *self,
    {
        AccountSessionRefreshBatchItem {
            alias: self.alias.clone(),
            refreshed: self.refreshed,
            report: match &self.report {
                Some(x) => Some(x.clone()),
                None => None,
            },
            error: match &self.error {
                Some(x) => Some(x.clone()),
                None => None,
            },
        }
    }
}

/// A session refresh batch: its accounts and how many were refreshed.
pub struct AccountSessionRefreshBatchReport {
    pub refreshed_count: usize,
    pub failed_count: usize,
    pub items: Vec<AccountSessionRefreshBatchItem>,
}

/// The number of refreshed items.
pub open spec fn refreshed_items(items: Seq<AccountSessionRefreshBatchItem>) -> nat
    decreases items.len(),
{
    if items.len() == 0 {
        0
    } else {
        refreshed_items(items.drop_last()) + if items.last().refreshed {
            1nat
        } else {
            0nat
        }
    }
}

/// The counts of a batch report agree with its items.
pub open spec fn session_batch_counts_match(r: AccountSessionRefreshBatchReport) -> bool {
    &&& r.refreshed_count == refreshed_items(r.items@)
    &&& r.failed_count == r.items@.len() - refreshed_items(r.items@)
}

pub proof fn lemma_refreshed_items_bounded(items: Seq<AccountSessionRefreshBatchItem>)
    ensures
        refreshed_items(items) <= items.len(),
    decreases items.len(),
{
    if items.len() > 0 {
        lemma_refreshed_items_bounded(items.drop_last());
    }
}

/// A batch report over `items`, with its counts taken from them.
pub fn session_batch_report(items: Vec<AccountSessionRefreshBatchItem>) -> (r:
    AccountSessionRefreshBatchReport)
    ensures
        r.items@ == items@,
        session_batch_counts_match(r),
{
    let mut refreshed: usize = 0;
    let mut i: usize = 0;
    while i < items.len()
        invariant
            i <= items@.len(),
            refreshed == refreshed_items(items@.subrange(0, i as int)),
            refreshed <= i,
        decreases items.len() - i,
    {
        assert(items@.subrange(0, i + 1).drop_last() =~= items@.subrange(0, i as int));
        if items[i].refreshed {
            refreshed = refreshed + 1;
        }
        i = i + 1;
    }
    assert(items@.subrange(0, items@.len() as int) =~= items@);
    let failed = items.len() - refreshed;
    AccountSessionRefreshBatchReport { refreshed_count: refreshed, failed_count: failed, items }
}

} // verus!
