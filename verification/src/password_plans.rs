//! Planning password work over saved accounts: refreshing cookies by the
//! saved passwords (each alias once, each account known), and refusing new
//! passwords that are too short.

use vstd::prelude::*;
use crate::credential::AliasPasswordPlan;
use crate::errors::{
    account_action_error_response, account_action_error_status, account_action_error_text,
    account_secret_store_error_message, account_secret_store_error_text, AccountActionError,
    AccountSecretStoreError,
};
use crate::response::{error_response, is_error_response, ApiResponse};
use crate::text::{owned, text_eq};

verus! {

/// A refresh by saved password names at least one alias.
pub fn require_refresh_aliases(count: usize) -> (r: Result<(), ApiResponse>)
    ensures
        count > 0 <==> r is Ok,
        r matches Err(e) ==> is_error_response(e, 400, "empty value: "@ + "账号别名"@),
{
    if count > 0 {
        return Ok(());
    }
    let field = owned("账号别名");
    let e = AccountActionError::EmptyValue { field };
    assert(account_action_error_text(e) == "empty value: "@ + "账号别名"@);
    Err(account_action_error_response(e))
}

/// What was found for one alias of a refresh by saved password.
pub enum SavedPasswordLookup {
    /// No saved account has the alias.
    NoRecord,
    /// The account's e-mail and what reading its saved password gave.
    Found { email: Option<String>, password: Result<String, AccountSecretStoreError> },
}

/// The aliases of the plans so far.
pub open spec fn plan_aliases(plans: Seq<AliasPasswordPlan>) -> Seq<Seq<char>> {
    plans.map_values(|p: AliasPasswordPlan| p.alias@)
}

/// Builds the plans of a refresh by saved password one alias at a time,
/// in the order given; the first refusal ends the planning.
pub struct SavedPasswordPlanner {
    pub plans: Vec<AliasPasswordPlan>,
}

impl SavedPasswordPlanner {
    pub fn new() -> (r: SavedPasswordPlanner)
        ensures
            r.plans@.len() == 0,
    {
        SavedPasswordPlanner { plans: Vec::new() }
    }

    /// Plans `alias` with what was found for it: an alias met before is
    /// refused (400), an unknown one too (404); a password that is not
    /// saved leaves the plan's password empty, one that cannot be read
    /// refuses the request (500). A refusal leaves the plans as they were.
    pub fn add(&mut self, alias: String, lookup: SavedPasswordLookup) -> (r: Result<(), ApiResponse>)
        ensures
            plan_aliases(old(self).plans@).contains(alias@) ==> (r matches Err(e) && is_error_response(
                e,
                400,
                "account alias repeated in input: "@ + alias@,
            )) && final(self).plans@ == old(self).plans@,
            !plan_aliases(old(self).plans@).contains(alias@) ==> match lookup {
                SavedPasswordLookup::NoRecord => (r matches Err(e) && is_error_response(
                    e,
                    account_action_error_status(AccountActionError::AccountAliasNotFound { alias }),
                    account_action_error_text(AccountActionError::AccountAliasNotFound { alias }),
                )) && final(self).plans@ == old(self).plans@,
                SavedPasswordLookup::Found { email, password } => match password {
                    Ok(p) => r is Ok && final(self).plans@ == old(self).plans@.push(
                        AliasPasswordPlan { alias, email, password: p },
                    ),
                    Err(AccountSecretStoreError::Missing { .. }) => r is Ok && final(self).plans@.len()
                        == old(self).plans@.len() + 1 && final(self).plans@.drop_last() == old(self).plans@
                        && final(self).plans@.last().alias == alias && final(self).plans@.last().email == email
                        && final(self).plans@.last().password@.len() == 0,
                    Err(e) => (r matches Err(resp) && is_error_response(resp, 500, account_secret_store_error_text(e)))
                        && final(self).plans@ == old(self).plans@,
                },
            },
    {
        let mut i: usize = 0;
        while i < self.plans.len()
            invariant
                i <= self.plans@.len(),
                forall|j: int| 0 <= j < i ==> (#[trigger] self.plans@[j]).alias@ != alias@,
            decreases self.plans.len() - i,
        {
            if text_eq(self.plans[i].alias.as_str(), alias.as_str()) {
                assert(plan_aliases(self.plans@)[i as int] == alias@);
                let e = AccountActionError::AliasRepeatedInInput { alias };
                assert(account_action_error_status(e) == 400);
                return Err(account_action_error_response(e));
            }
            i = i + 1;
        }
        assert(!plan_aliases(self.plans@).contains(alias@)) by {
            if plan_aliases(self.plans@).contains(alias@) {
                let k = choose|k: int| 0 <= k < plan_aliases(self.plans@).len() && plan_aliases(self.plans@)[k] == alias@;
                assert(self.plans@[k].alias@ == alias@);
            }
        }
        match lookup {
            SavedPasswordLookup::NoRecord => {
                Err(account_action_error_response(AccountActionError::AccountAliasNotFound { alias }))
            },
            SavedPasswordLookup::Found { email, password } => {
                let p = match password {
                    Ok(p) => p,
                    Err(AccountSecretStoreError::Missing { .. }) => String::new(),
                    Err(e) => {
                        let m = account_secret_store_error_message(&e);
                        return Err(error_response(500, m.as_str()));
                    },
                };
                self.plans.push(AliasPasswordPlan { alias, email, password: p });
                Ok(())
            },
        }
    }
}

// ---------------------------------------------------------------------------
// New passwords

/// The first planned password that the policy refuses decides the
/// refusal: `too_short` holds, for each plan in order, the policy's
/// minimum length where it refused the password.
pub open spec fn first_refusal(too_short: Seq<Option<usize>>) -> Option<usize>
    decreases too_short.len(),
{
    if too_short.len() == 0 {
        None
    } else {
        match first_refusal(too_short.drop_last()) {
            Some(m) => Some(m),
            None => too_short.last(),
        }
    }
}

/// New passwords are refused as a whole by the first that is too short,
/// with the policy's minimum.
pub fn check_new_passwords(too_short: &Vec<Option<usize>>) -> (r: Result<(), AccountActionError>)
    ensures
        first_refusal(too_short@) is None ==> r is Ok,
        first_refusal(too_short@) matches Some(m) ==> (r matches Err(AccountActionError::PasswordTooShort {
            minimum,
        }) && minimum == m),
{
    let mut i: usize = 0;
    while i < too_short.len()
        invariant
            i <= too_short@.len(),
            first_refusal(too_short@.subrange(0, i as int)) is None,
        decreases too_short.len() - i,
    {
        let ghost sub = too_short@.subrange(0, i + 1);
        assert(sub.drop_last() =~= too_short@.subrange(0, i as int));
        assert(sub.last() == too_short@[i as int]);
        if let Some(m) = too_short[i] {
            proof {
                lemma_first_refusal_prefix(too_short@, i + 1);
            }
            return Err(AccountActionError::PasswordTooShort { minimum: m });
        }
        i = i + 1;
    }
    assert(too_short@.subrange(0, too_short@.len() as int) =~= too_short@);
    Ok(())
}

proof fn lemma_first_refusal_prefix(s: Seq<Option<usize>>, n: int)
    requires
        0 <= n <= s.len(),
        first_refusal(s.subrange(0, n)) is Some,
    ensures
        first_refusal(s) == first_refusal(s.subrange(0, n)),
    decreases s.len() - n,
{
    if n < s.len() {
        let sub = s.subrange(0, n + 1);
        assert(sub.drop_last() =~= s.subrange(0, n));
        lemma_first_refusal_prefix(s, n + 1);
    } else {
        assert(s.subrange(0, n) =~= s);
    }
}

} // verus!
