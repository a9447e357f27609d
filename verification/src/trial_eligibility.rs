//! Checking saved accounts for a trial: the request's checks, the lines
//! logged for accounts that could not be checked, and how the task ends.

use vstd::prelude::*;
use crate::errors_remote::{
    account_registration_error_response, account_registration_error_status,
    account_registration_error_text, account_session_error_message, account_session_error_text,
    AccountRegistrationError, AccountSessionError,
};
use crate::response::{is_error_response, ApiResponse};
use crate::task_api::{
    distinct_upto, normalized_optional, parse_alias_batch_parts, repeats_earlier,
    ParsedAliasBatchRequest,
};
use crate::task_end::{end_view, BatchTaskEnd};
use crate::text::{concat2, concat3, decimal, owned, usize_decimal, views};

verus! {

/// Checks a trial-eligibility request: its trial length must have a plan
/// (`plan_known`, looked up by the caller), then its aliases are checked as
/// any batch's are.
pub fn trial_eligibility_request(
    trial_days: u32,
    plan_known: bool,
    aliases: Vec<String>,
    task_id: Option<String>,
) -> (r: Result<ParsedAliasBatchRequest, ApiResponse>)
    ensures
        !plan_known ==> (r matches Err(e) && is_error_response(
            e,
            account_registration_error_status(AccountRegistrationError::InvalidTrialDays { trial_days }),
            account_registration_error_text(AccountRegistrationError::InvalidTrialDays { trial_days }),
        )),
        plan_known && aliases@.len() == 0 ==> (r matches Err(e) && is_error_response(e, 400, "missing aliases"@)),
        plan_known && aliases@.len() > 0 && distinct_upto(aliases@, aliases@.len() as int) ==> r is Ok,
        r matches Ok(p) ==> {
            &&& plan_known
            &&& distinct_upto(aliases@, aliases@.len() as int)
            &&& p.aliases@ == aliases@
            &&& match p.task_id {
                Some(t) => normalized_optional(task_id) == Some(t@),
                None => normalized_optional(task_id) is None,
            }
        },
        plan_known && aliases@.len() > 0 ==> (r matches Err(e) ==> exists|j: int|
            0 <= j < aliases@.len() && distinct_upto(aliases@, j) && repeats_earlier(aliases@, j)
                && is_error_response(e, 400, "account alias repeated in input: "@ + (#[trigger] aliases@[j])@)),
{
    if !plan_known {
        return Err(account_registration_error_response(AccountRegistrationError::InvalidTrialDays { trial_days }));
    }
    parse_alias_batch_parts(aliases, task_id)
}

/// One checked account: its alias and, where it could not be checked, why.
pub struct TrialEligibilityItem {
    pub alias: String,
    pub error: Option<AccountSessionError>,
}

/// The error lines of the accounts that could not be checked, in order:
/// `<alias>：<error>`.
pub open spec fn eligibility_error_lines(items: Seq<TrialEligibilityItem>) -> Seq<Seq<char>>
    decreases items.len(),
{
    if items.len() == 0 {
        Seq::empty()
    } else {
        let rest = eligibility_error_lines(items.drop_last());
        match items.last().error {
            Some(e) => rest.push(items.last().alias@ + "："@ + account_session_error_text(e)),
            None => rest,
        }
    }
}

/// The lines logged for the accounts that could not be checked.
pub fn trial_eligibility_error_logs(items: &Vec<TrialEligibilityItem>) -> (r: Vec<String>)
    ensures
        views(r@) == eligibility_error_lines(items@),
{
    let mut out: Vec<String> = Vec::new();
    let mut i: usize = 0;
    assert(views(out@) =~= Seq::<Seq<char>>::empty());
    while i < items.len()
        invariant
            i <= items@.len(),
            views(out@) == eligibility_error_lines(items@.subrange(0, i as int)),
        decreases items.len() - i,
    {
        let ghost sub = items@.subrange(0, i + 1);
        assert(sub.drop_last() =~= items@.subrange(0, i as int));
        assert(sub.last() == items@[i as int]);
        match &items[i].error {
            Some(e) => {
                let m = account_session_error_message(e);
                let line = concat3(items[i].alias.as_str(), "：", m.as_str());
                let ghost before = out@;
                out.push(line);
                assert(views(out@) =~= views(before).push(line@));
            },
            None => {},
        }
        i = i + 1;
    }
    assert(items@.subrange(0, items@.len() as int) =~= items@);
    out
}

/// How a trial-eligibility task ends: complete when every account was
/// checked, else failed with how many were and were not.
pub fn trial_eligibility_end(item_count: usize, failed_count: usize) -> (r: BatchTaskEnd)
    ensures
        end_view(r) == if failed_count == 0 {
            (true, "账号试用资格检查完成"@)
        } else {
            (false, "试用资格检查完成："@ + decimal(
                if item_count >= failed_count {
                    (item_count - failed_count) as nat
                } else {
                    0nat
                },
            ) + " 个成功，"@ + decimal(failed_count as nat) + " 个失败"@)
        },
{
    if failed_count == 0 {
        return BatchTaskEnd::Complete(owned("账号试用资格检查完成"));
    }
    let ok = item_count.saturating_sub(failed_count);
    let head = concat3("试用资格检查完成：", usize_decimal(ok).as_str(), " 个成功，");
    BatchTaskEnd::Fail(concat3(head.as_str(), usize_decimal(failed_count).as_str(), " 个失败"))
}

} // verus!
