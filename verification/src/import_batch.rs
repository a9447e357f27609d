//! The browser batch an import's post actions continue in: which accounts
//! must recover their sessions by password, how the Git token plans of those
//! accounts change, and which batch runs.

use vstd::prelude::*;
use crate::credential::GitTokenBrowserPlan;
use crate::imports::AccountImportPostActionOptions;
use crate::ordering::{
    lemma_text_le_antisymmetric, lemma_text_le_reflexive, lemma_text_le_total,
    lemma_text_le_transitive, text_le, text_le_exec,
};
use crate::sessions::AccountSessionRefreshBatchReport;
use crate::text::{concat2, concat3, decimal, owned, text_eq, usize_decimal};

verus! {

/// The texts, in strictly increasing order: the order a `BTreeSet` of
/// strings walks in.
pub open spec fn strictly_sorted(v: Seq<Seq<char>>) -> bool {
    forall|i: int, j: int| 0 <= i < j < v.len() ==> text_le(#[trigger] v[i], #[trigger] v[j]) && v[i] != v[j]
}

pub open spec fn names(v: Seq<String>) -> Seq<Seq<char>> {
    v.map_values(|s: String| s@)
}

/// Adds `s` to the ordered set `v` unless it holds it already.
pub fn insert_sorted_unique(v: &mut Vec<String>, s: &str)
    requires
        strictly_sorted(names(old(v)@)),
    ensures
        strictly_sorted(names(final(v)@)),
        names(final(v)@).to_set() == names(old(v)@).to_set().insert(s@),
{
    let ghost old_names = names(v@);
    let mut p: usize = 0;
    while p < v.len() && text_le_exec(v[p].as_str(), s) && !text_eq(v[p].as_str(), s)
        invariant
            p <= v@.len(),
            old_names == names(v@),
            strictly_sorted(old_names),
            forall|k: int| 0 <= k < p ==> text_le(#[trigger] old_names[k], s@) && old_names[k] != s@,
        decreases v.len() - p,
    {
        p = p + 1;
    }
    if p < v.len() && text_eq(v[p].as_str(), s) {
        assert(old_names.to_set() =~= old_names.to_set().insert(s@)) by {
            assert(old_names[p as int] == s@);
        }
        return;
    }
    proof {
        if p < old_names.len() {
            assert(!text_le(old_names[p as int], s@));
            lemma_text_le_total(old_names[p as int], s@);
        }
    }
    v.insert(p, owned(s));
    let ghost n = names(v@);
    proof {
        assert(n =~= old_names.insert(p as int, s@));
        assert forall|i: int, j: int| 0 <= i < j < n.len() implies text_le(#[trigger] n[i], #[trigger] n[j]) && n[i] != n[j] by {
            if j < p {
                assert(n[i] == old_names[i] && n[j] == old_names[j]);
            } else if j == p {
                assert(n[i] == old_names[i]);
            } else if i == p {
                assert(n[j] == old_names[j - 1]);
                assert(text_le(s@, old_names[p as int]));
                if j - 1 > p {
                    lemma_text_le_transitive(s@, old_names[p as int], old_names[j - 1]);
                    if s@ == old_names[j - 1] {
                        lemma_text_le_antisymmetric(old_names[p as int], old_names[j - 1]);
                    }
                } else {
                    if s@ == old_names[p as int] {
                        lemma_text_le_reflexive(s@);
                    }
                }
            } else if i < p {
                assert(n[i] == old_names[i] && n[j] == old_names[j - 1]);
                assert(text_le(old_names[i], s@));
                assert(text_le(s@, old_names[p as int]));
                lemma_text_le_transitive(old_names[i], s@, old_names[p as int]);
                if j - 1 > p {
                    lemma_text_le_transitive(old_names[i], old_names[p as int], old_names[j - 1]);
                }
                if old_names[i] == old_names[j - 1] {
                    lemma_text_le_antisymmetric(old_names[i], old_names[p as int]);
                }
            } else {
                assert(n[i] == old_names[i - 1] && n[j] == old_names[j - 1]);
            }
        }
        assert(n.to_set() =~= old_names.to_set().insert(s@)) by {
            assert forall|x: Seq<char>| n.to_set().contains(x) implies old_names.to_set().insert(s@).contains(x) by {
                let k = choose|k: int| 0 <= k < n.len() && n[k] == x;
                if k < p {
                    assert(old_names[k] == x);
                } else if k > p {
                    assert(old_names[k - 1] == x);
                }
            }
            assert forall|x: Seq<char>| old_names.to_set().insert(s@).contains(x) implies n.to_set().contains(x) by {
                if x == s@ {
                    assert(n[p as int] == x);
                } else {
                    let k = choose|k: int| 0 <= k < old_names.len() && old_names[k] == x;
                    if k < p {
                        assert(n[k] == x);
                    } else {
                        assert(n[k + 1] == x);
                    }
                }
            }
        }
    }
}

/// The accounts whose sessions are recovered by password: those the
/// refresh did not refresh, or, when the refresh failed altogether, all it
/// was asked for.
pub open spec fn retry_candidates(session_aliases: Seq<String>, refresh: Option<AccountSessionRefreshBatchReport>) -> Set<Seq<char>> {
    match refresh {
        Some(r) => Set::new(|a: Seq<char>| exists|k: int| 0 <= k < r.items@.len() && !r.items@[k].refreshed && r.items@[k].alias@ == a),
        None => names(session_aliases).to_set(),
    }
}

/// The accounts to recover by password, as an ordered set: `refresh` is
/// the report of the session refresh, `None` when it failed.
pub fn retry_session_aliases(session_aliases: &Vec<String>, refresh: Option<&AccountSessionRefreshBatchReport>) -> (r: Vec<String>)
    ensures
        strictly_sorted(names(r@)),
        names(r@).to_set() == retry_candidates(session_aliases@, match refresh { Some(x) => Some(*x), None => None }),
{
    let mut out: Vec<String> = Vec::new();
    assert(names(out@).to_set() =~= Set::<Seq<char>>::empty());
    match refresh {
        Some(report) => {
            let mut i: usize = 0;
            while i < report.items.len()
                invariant
                    i <= report.items@.len(),
                    strictly_sorted(names(out@)),
                    names(out@).to_set() == Set::new(|a: Seq<char>| exists|k: int| 0 <= k < i && !report.items@[k].refreshed && report.items@[k].alias@ == a),
                decreases report.items.len() - i,
            {
                let ghost before = names(out@).to_set();
                if !report.items[i].refreshed {
                    insert_sorted_unique(&mut out, report.items[i].alias.as_str());
                }
                proof {
                    let want = Set::new(|a: Seq<char>| exists|k: int| 0 <= k < i + 1 && !report.items@[k].refreshed && report.items@[k].alias@ == a);
                    assert forall|a: Seq<char>| names(out@).to_set().contains(a) <==> want.contains(a) by {
                        if want.contains(a) {
                            let k = choose|k: int| 0 <= k < i + 1 && !report.items@[k].refreshed && report.items@[k].alias@ == a;
                            if k < i {
                                assert(before.contains(a));
                            }
                        }
                        if before.contains(a) {
                            let k = choose|k: int| 0 <= k < i && !report.items@[k].refreshed && report.items@[k].alias@ == a;
                            assert(want.contains(a));
                        }
                    }
                    assert(names(out@).to_set() =~= want);
                }
                i = i + 1;
            }
            proof {
                assert(names(out@).to_set() =~= retry_candidates(session_aliases@, Some(*report)));
            }
        },
        None => {
            let mut i: usize = 0;
            while i < session_aliases.len()
                invariant
                    i <= session_aliases@.len(),
                    strictly_sorted(names(out@)),
                    names(out@).to_set() == names(session_aliases@.subrange(0, i as int)).to_set(),
                decreases session_aliases.len() - i,
            {
                insert_sorted_unique(&mut out, session_aliases[i].as_str());
                proof {
                    let a = names(session_aliases@.subrange(0, i as int));
                    let b = names(session_aliases@.subrange(0, i + 1));
                    assert(b =~= a.push(session_aliases@[i as int]@));
                    a.lemma_push_to_set_commute(session_aliases@[i as int]@);
                }
                i = i + 1;
            }
            assert(session_aliases@.subrange(0, session_aliases@.len() as int) =~= session_aliases@);
        },
    }
    out
}

/// Whether the ordered set `v` holds `s`.
pub fn holds_alias(v: &Vec<String>, s: &str) -> (r: bool)
    ensures
        r == names(v@).contains(s@),
{
    let mut i: usize = 0;
    while i < v.len()
        invariant
            i <= v@.len(),
            forall|k: int| 0 <= k < i ==> names(v@)[k] != s@,
        decreases v.len() - i,
    {
        if text_eq(v[i].as_str(), s) {
            assert(names(v@)[i as int] == s@);
            return true;
        }
        i = i + 1;
    }
    false
}

/// A Git token plan of an account whose session is recovered by password
/// logs in with its credentials and does not keep an existing token.
pub open spec fn retried_plan(p: GitTokenBrowserPlan, retry: Seq<Seq<char>>) -> GitTokenBrowserPlan {
    if retry.contains(p.alias@) {
        GitTokenBrowserPlan { force_credentials_login: true, skip_existing_token: false, ..p }
    } else {
        p
    }
}

/// Marks the plans of the accounts in `retry` to log in with credentials.
pub fn mark_retry_git_token_plans(plans: &mut Vec<GitTokenBrowserPlan>, retry: &Vec<String>)
    ensures
        final(plans)@.len() == old(plans)@.len(),
        forall|k: int| 0 <= k < old(plans)@.len() ==> #[trigger] final(plans)@[k] == retried_plan(old(plans)@[k], names(retry@)),
{
    let ghost start = plans@;
    let mut i: usize = 0;
    while i < plans.len()
        invariant
            i <= plans@.len(),
            plans@.len() == start.len(),
            forall|k: int| 0 <= k < i ==> #[trigger] plans@[k] == retried_plan(start[k], names(retry@)),
            forall|k: int| i <= k < plans@.len() ==> #[trigger] plans@[k] == start[k],
        decreases plans.len() - i,
    {
        let hit = holds_alias(retry, plans[i].alias.as_str());
        if hit {
            let mut p = plans.remove(i);
            p.force_credentials_login = true;
            p.skip_existing_token = false;
            plans.insert(i, p);
        }
        i = i + 1;
    }
}

/// The browser batch an import continues in.
#[derive(Debug, Clone, Copy, PartialEq, Eq, Structural)]
pub enum ImportBatchKind {
    /// Fetch Git tokens for every imported account.
    GitToken,
    /// Recover the sessions of the failed accounts by password.
    PasswordRecovery,
    /// No batch: the import is done.
    Finish,
}

/// Git tokens asked for and accounts imported run the Git token batch;
/// otherwise accounts to recover run the password batch; otherwise none.
pub open spec fn import_batch_kind(options: AccountImportPostActionOptions, imported: nat, retry: nat) -> ImportBatchKind {
    if options.fetch_git_token && imported > 0 {
        ImportBatchKind::GitToken
    } else if retry > 0 {
        ImportBatchKind::PasswordRecovery
    } else {
        ImportBatchKind::Finish
    }
}

pub fn choose_import_batch(options: AccountImportPostActionOptions, imported: usize, retry: usize) -> (r: ImportBatchKind)
    ensures
        r == import_batch_kind(options, imported as nat, retry as nat),
{
    if options.fetch_git_token && imported > 0 {
        ImportBatchKind::GitToken
    } else if retry > 0 {
        ImportBatchKind::PasswordRecovery
    } else {
        ImportBatchKind::Finish
    }
}

/// The log line when the session refresh failed and the accounts go to the
/// password recovery.
pub fn refresh_failed_recovery_log(message: &str) -> (r: String)
    ensures
        r@ == "导入后状态刷新失败，将转账号密码恢复："@ + message@,
{
    concat2("导入后状态刷新失败，将转账号密码恢复：", message)
}

/// The log line when `count` accounts go to the password recovery batch.
pub fn password_recovery_log(count: usize) -> (r: String)
    ensures
        r@ == decimal(count as nat) + " 个账号需要密码恢复，进入凭据浏览器批次"@,
{
    concat2(usize_decimal(count).as_str(), " 个账号需要密码恢复，进入凭据浏览器批次")
}

/// The error recorded when a post-action batch comes back with an operation
/// it did not run.
pub fn mismatched_batch_message() -> (r: &'static str)
    ensures
        r@ == "导入后置批次返回了不匹配的操作类型"@,
{
    "导入后置批次返回了不匹配的操作类型"
}

} // verus!
