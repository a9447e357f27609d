//! The summary of the task list that the API serves: counts per phase, the
//! waiting inputs, failures and available actions by name, the number of
//! distinct locked account aliases, and the latest event sequence.

use vstd::prelude::*;
use crate::tasks::{failure_kind_text, task_failure_kind_name, ServiceTaskPhase, TaskFailureKind};
use crate::ordering::{sort_by_key, sorted_by_key, SortKey};
use crate::text::{owned, text_eq};

verus! {

/// What the summary reads of one task.
pub struct TaskSnapshotView {
    pub phase: ServiceTaskPhase,
    pub cancel_requested: bool,
    pub last_sequence: u64,
    /// The input kind names of the batch items that wait for input.
    pub waiting_item_kinds: Vec<String>,
    /// The input kind name the task itself waits for.
    pub waiting_for_input: Option<String>,
    /// The names of the actions available on the task.
    pub available_actions: Vec<String>,
    /// Retrying is among the available actions.
    pub retry_available: bool,
    /// A later task resolved this one.
    pub resolved: bool,
    pub failure_kind: Option<TaskFailureKind>,
    pub locked_aliases: Vec<String>,
}

/// A count per name, each name once.
pub struct NameCount {
    pub name: String,
    pub count: usize,
}

impl SortKey for NameCount {
    open spec fn sort_key(&self) -> Seq<char> {
        self.name@
    }

    fn sort_key_str(&self) -> (r: &str) {
        self.name.as_str()
    }
}

/// The summary of the task list.
pub struct TaskSummary {
    pub total_count: usize,
    pub pending_count: usize,
    pub running_count: usize,
    pub waiting_for_user_count: usize,
    pub completed_count: usize,
    pub failed_count: usize,
    pub cancelled_count: usize,
    pub active_count: usize,
    pub terminal_count: usize,
    pub clearable_count: usize,
    pub cancel_requested_count: usize,
    pub waiting_for_input_count: usize,
    pub unsupported_waiting_input_count: usize,
    pub recoverable_failed_count: usize,
    pub waiting_for_input_by_kind: Vec<NameCount>,
    pub failed_by_kind: Vec<NameCount>,
    pub available_actions_count: Vec<NameCount>,
    pub locked_alias_count: usize,
    pub latest_sequence: u64,
}

// ---------------------------------------------------------------------------
// What the summary says of the task list

/// How many tasks satisfy `p`.
pub open spec fn count_tasks(tasks: Seq<TaskSnapshotView>, p: spec_fn(TaskSnapshotView) -> bool) -> nat
    decreases tasks.len(),
{
    if tasks.len() == 0 {
        0
    } else {
        count_tasks(tasks.drop_last(), p) + if p(tasks.last()) {
            1nat
        } else {
            0nat
        }
    }
}

pub open spec fn in_phase(p: ServiceTaskPhase) -> spec_fn(TaskSnapshotView) -> bool {
    |t: TaskSnapshotView| t.phase == p
}

pub open spec fn is_active(t: TaskSnapshotView) -> bool {
    t.phase == ServiceTaskPhase::Pending || t.phase == ServiceTaskPhase::Running || t.phase
        == ServiceTaskPhase::WaitingForUser
}

pub open spec fn is_terminal(t: TaskSnapshotView) -> bool {
    t.phase == ServiceTaskPhase::Completed || t.phase == ServiceTaskPhase::Failed || t.phase
        == ServiceTaskPhase::Cancelled
}

/// A failed task that no later task resolved.
pub open spec fn is_open_failure(t: TaskSnapshotView) -> bool {
    t.phase == ServiceTaskPhase::Failed && !t.resolved
}

/// A waiting task that names no input, with no waiting item either.
pub open spec fn is_unsupported_wait(t: TaskSnapshotView) -> bool {
    t.phase == ServiceTaskPhase::WaitingForUser && t.waiting_for_input is None
        && t.waiting_item_kinds@.len() == 0
}

/// The names of the inputs a task waits for: its items', then its own when
/// the task waits for the user.
pub open spec fn waiting_names(t: TaskSnapshotView) -> Seq<Seq<char>> {
    let items = t.waiting_item_kinds@.map_values(|k: String| k@);
    match t.waiting_for_input {
        Some(k) => if t.phase == ServiceTaskPhase::WaitingForUser {
            items.push(k@)
        } else {
            items
        },
        None => items,
    }
}

/// The failure name a task contributes: its kind's, for an open failure.
pub open spec fn failure_names(t: TaskSnapshotView) -> Seq<Seq<char>> {
    match t.failure_kind {
        Some(k) => if is_open_failure(t) {
            seq![failure_kind_text(k)]
        } else {
            Seq::empty()
        },
        None => Seq::empty(),
    }
}

pub open spec fn action_names(t: TaskSnapshotView) -> Seq<Seq<char>> {
    t.available_actions@.map_values(|a: String| a@)
}

/// The names each task contributes, one after the other.
pub open spec fn all_names(tasks: Seq<TaskSnapshotView>, f: spec_fn(TaskSnapshotView) -> Seq<Seq<char>>) -> Seq<Seq<char>>
    decreases tasks.len(),
{
    if tasks.len() == 0 {
        Seq::empty()
    } else {
        all_names(tasks.drop_last(), f) + f(tasks.last())
    }
}

/// How often `name` occurs.
pub open spec fn occurrences(names: Seq<Seq<char>>, name: Seq<char>) -> nat
    decreases names.len(),
{
    if names.len() == 0 {
        0
    } else {
        occurrences(names.drop_last(), name) + if names.last() == name {
            1nat
        } else {
            0nat
        }
    }
}

/// `counts` has each name of `names` once, with how often it occurs, and no
/// other name.
pub open spec fn counts_of(counts: Seq<NameCount>, names: Seq<Seq<char>>) -> bool {
    &&& forall|i: int, j: int| 0 <= i < j < counts.len() ==> (#[trigger] counts[i]).name@ != (#[trigger] counts[j]).name@
    &&& forall|i: int| 0 <= i < counts.len() ==> (#[trigger] counts[i]).count == occurrences(names, counts[i].name@)
        && names.contains(counts[i].name@)
    &&& forall|k: Seq<char>| names.contains(k) ==> exists|i: int| 0 <= i < counts.len() && (#[trigger] counts[i]).name@ == k
}

/// The aliases that the pending, running and waiting tasks lock.
pub open spec fn locked_alias_set(tasks: Seq<TaskSnapshotView>) -> Set<Seq<char>>
    decreases tasks.len(),
{
    if tasks.len() == 0 {
        Set::empty()
    } else {
        let rest = locked_alias_set(tasks.drop_last());
        let t = tasks.last();
        if is_active(t) {
            rest + t.locked_aliases@.map_values(|a: String| a@).to_set()
        } else {
            rest
        }
    }
}

/// The largest event sequence, zero for no task.
pub open spec fn latest_sequence_of(tasks: Seq<TaskSnapshotView>) -> u64
    decreases tasks.len(),
{
    if tasks.len() == 0 {
        0
    } else {
        let rest = latest_sequence_of(tasks.drop_last());
        if tasks.last().last_sequence > rest {
            tasks.last().last_sequence
        } else {
            rest
        }
    }
}

/// The work a summary counts: each task, its waiting items and its actions.
pub open spec fn summary_size(tasks: Seq<TaskSnapshotView>) -> nat
    decreases tasks.len(),
{
    if tasks.len() == 0 {
        0
    } else {
        let t = tasks.last();
        summary_size(tasks.drop_last()) + 1 + t.waiting_item_kinds@.len() + t.available_actions@.len()
    }
}

/// `s` summarizes `tasks`.
pub open spec fn summarizes(s: TaskSummary, tasks: Seq<TaskSnapshotView>) -> bool {
    &&& s.total_count == tasks.len()
    &&& s.pending_count == count_tasks(tasks, in_phase(ServiceTaskPhase::Pending))
    &&& s.running_count == count_tasks(tasks, in_phase(ServiceTaskPhase::Running))
    &&& s.waiting_for_user_count == count_tasks(tasks, in_phase(ServiceTaskPhase::WaitingForUser))
    &&& s.completed_count == count_tasks(tasks, in_phase(ServiceTaskPhase::Completed))
    &&& s.cancelled_count == count_tasks(tasks, in_phase(ServiceTaskPhase::Cancelled))
    &&& s.failed_count == count_tasks(tasks, |t: TaskSnapshotView| is_open_failure(t))
    &&& s.active_count == count_tasks(tasks, |t: TaskSnapshotView| is_active(t))
    &&& s.terminal_count == count_tasks(tasks, |t: TaskSnapshotView| is_terminal(t))
    &&& s.clearable_count == s.terminal_count
    &&& s.cancel_requested_count == count_tasks(tasks, |t: TaskSnapshotView| t.cancel_requested)
    &&& s.waiting_for_input_count == all_names(tasks, |t: TaskSnapshotView| waiting_names(t)).len()
    &&& s.unsupported_waiting_input_count == count_tasks(tasks, |t: TaskSnapshotView| is_unsupported_wait(t))
    &&& s.recoverable_failed_count == count_tasks(
        tasks,
        |t: TaskSnapshotView| is_open_failure(t) && t.retry_available,
    )
    &&& counts_of(s.waiting_for_input_by_kind@, all_names(tasks, |t: TaskSnapshotView| waiting_names(t)))
    &&& counts_of(s.failed_by_kind@, all_names(tasks, |t: TaskSnapshotView| failure_names(t)))
    &&& counts_of(s.available_actions_count@, all_names(tasks, |t: TaskSnapshotView| action_names(t)))
    &&& sorted_by_key(s.waiting_for_input_by_kind@)
    &&& sorted_by_key(s.failed_by_kind@)
    &&& sorted_by_key(s.available_actions_count@)
    &&& s.locked_alias_count == locked_alias_set(tasks).len()
    &&& s.latest_sequence == latest_sequence_of(tasks)
}

// ---------------------------------------------------------------------------
// Facts the computation rests on

proof fn lemma_occurrences_push(names: Seq<Seq<char>>, x: Seq<char>, n: Seq<char>)
    ensures
        occurrences(names.push(x), n) == occurrences(names, n) + if x == n {
            1nat
        } else {
            0nat
        },
{
    assert(names.push(x).drop_last() =~= names);
}

proof fn lemma_occurrences_absent(names: Seq<Seq<char>>, n: Seq<char>)
    requires
        !names.contains(n),
    ensures
        occurrences(names, n) == 0,
    decreases names.len(),
{
    if names.len() > 0 {
        assert(!names.drop_last().contains(n)) by {
            if names.drop_last().contains(n) {
                let i = choose|i: int| 0 <= i < names.drop_last().len() && names.drop_last()[i] == n;
                assert(names[i] == n);
            }
        }
        lemma_occurrences_absent(names.drop_last(), n);
        assert(names.last() != n) by {
            if names.last() == n {
                assert(names[names.len() - 1] == n);
            }
        }
    }
}

proof fn lemma_occurrences_bounded(names: Seq<Seq<char>>, n: Seq<char>)
    ensures
        occurrences(names, n) <= names.len(),
    decreases names.len(),
{
    if names.len() > 0 {
        lemma_occurrences_bounded(names.drop_last(), n);
    }
}

fn position_of_name(counts: &Vec<NameCount>, name: &str) -> (r: Option<usize>)
    ensures
        r matches Some(k) ==> k < counts@.len() && counts@[k as int].name@ == name@,
        r is None ==> forall|i: int| 0 <= i < counts@.len() ==> (#[trigger] counts@[i]).name@ != name@,
{
    let mut i: usize = 0;
    while i < counts.len()
        invariant
            i <= counts@.len(),
            forall|j: int| 0 <= j < i ==> (#[trigger] counts@[j]).name@ != name@,
        decreases counts.len() - i,
    {
        if text_eq(counts[i].name.as_str(), name) {
            return Some(i);
        }
        i = i + 1;
    }
    None
}

/// Counts one more occurrence of `name`.
fn add_name(counts: &mut Vec<NameCount>, name: &str, Ghost(names): Ghost<Seq<Seq<char>>>)
    requires
        counts_of(old(counts)@, names),
        names.len() < usize::MAX,
    ensures
        counts_of(final(counts)@, names.push(name@)),
{
    let ghost new_names = names.push(name@);
    proof {
        assert forall|m: Seq<char>| #[trigger] occurrences(new_names, m) == occurrences(names, m) + if name@ == m {
            1nat
        } else {
            0nat
        } by {
            lemma_occurrences_push(names, name@, m);
        }
        assert forall|k: Seq<char>| new_names.contains(k) implies names.contains(k) || k == name@ by {
            let i = choose|i: int| 0 <= i < new_names.len() && new_names[i] == k;
            if i < names.len() {
                assert(names[i] == k);
            }
        }
        assert(new_names[names.len() as int] == name@);
        assert forall|k: Seq<char>| names.contains(k) implies new_names.contains(k) by {
            let i = choose|i: int| 0 <= i < names.len() && names[i] == k;
            assert(new_names[i] == k);
        }
    }
    match position_of_name(counts, name) {
        Some(k) => {
            proof {
                lemma_occurrences_bounded(names, name@);
            }
            let c = counts[k].count;
            let updated = NameCount { name: counts[k].name.clone(), count: c + 1 };
            counts.set(k, updated);
            proof {
                assert forall|m: Seq<char>| new_names.contains(m) implies exists|i: int|
                    0 <= i < counts@.len() && (#[trigger] counts@[i]).name@ == m by {
                    if m == name@ {
                        assert(counts@[k as int].name@ == m);
                    } else {
                        let i = choose|i: int| 0 <= i < old(counts)@.len() && (#[trigger] old(counts)@[i]).name@ == m;
                        assert(counts@[i].name@ == m);
                    }
                }
            }
        },
        None => {
            proof {
                if names.contains(name@) {
                    let i = choose|i: int| 0 <= i < old(counts)@.len() && (#[trigger] old(counts)@[i]).name@ == name@;
                }
                lemma_occurrences_absent(names, name@);
            }
            counts.push(NameCount { name: owned(name), count: 1 });
            proof {
                assert forall|m: Seq<char>| new_names.contains(m) implies exists|i: int|
                    0 <= i < counts@.len() && (#[trigger] counts@[i]).name@ == m by {
                    if m == name@ {
                        assert(counts@[counts@.len() - 1].name@ == m);
                    } else {
                        let i = choose|i: int| 0 <= i < old(counts)@.len() && (#[trigger] old(counts)@[i]).name@ == m;
                        assert(counts@[i].name@ == m);
                    }
                }
            }
        },
    }
}

/// Counts one more occurrence of each name in `new`.
fn add_names(counts: &mut Vec<NameCount>, new: &Vec<String>, Ghost(names): Ghost<Seq<Seq<char>>>)
    requires
        counts_of(old(counts)@, names),
        names.len() + new@.len() < usize::MAX,
    ensures
        counts_of(final(counts)@, names + new@.map_values(|x: String| x@)),
{
    let mut i: usize = 0;
    assert(names + new@.subrange(0, 0).map_values(|x: String| x@) =~= names);
    while i < new.len()
        invariant
            i <= new@.len(),
            names.len() + new@.len() < usize::MAX,
            counts_of(counts@, names + new@.subrange(0, i as int).map_values(|x: String| x@)),
        decreases new.len() - i,
    {
        let ghost before = names + new@.subrange(0, i as int).map_values(|x: String| x@);
        add_name(counts, new[i].as_str(), Ghost(before));
        assert(before.push(new@[i as int]@) =~= names + new@.subrange(0, i + 1).map_values(|x: String| x@));
        i = i + 1;
    }
    assert(new@.subrange(0, new@.len() as int) =~= new@);
}

proof fn lemma_summary_size_prefix(tasks: Seq<TaskSnapshotView>, i: int)
    requires
        0 <= i <= tasks.len(),
    ensures
        summary_size(tasks.subrange(0, i)) <= summary_size(tasks),
    decreases tasks.len() - i,
{
    if i < tasks.len() {
        lemma_summary_size_prefix(tasks, i + 1);
        assert(tasks.subrange(0, i + 1).drop_last() =~= tasks.subrange(0, i));
    } else {
        assert(tasks.subrange(0, i) =~= tasks);
    }
}

proof fn lemma_names_bounded(tasks: Seq<TaskSnapshotView>)
    ensures
        all_names(tasks, |t: TaskSnapshotView| waiting_names(t)).len() <= summary_size(tasks),
        all_names(tasks, |t: TaskSnapshotView| failure_names(t)).len() <= summary_size(tasks),
        all_names(tasks, |t: TaskSnapshotView| action_names(t)).len() <= summary_size(tasks),
        count_tasks(tasks, |t: TaskSnapshotView| true) == tasks.len(),
        tasks.len() <= summary_size(tasks),
    decreases tasks.len(),
{
    if tasks.len() > 0 {
        lemma_names_bounded(tasks.drop_last());
    }
}

proof fn lemma_count_le(tasks: Seq<TaskSnapshotView>, p: spec_fn(TaskSnapshotView) -> bool)
    ensures
        count_tasks(tasks, p) <= tasks.len(),
    decreases tasks.len(),
{
    if tasks.len() > 0 {
        lemma_count_le(tasks.drop_last(), p);
    }
}

fn contains_alias(aliases: &Vec<String>, alias: &str) -> (r: bool)
    ensures
        r == aliases@.map_values(|a: String| a@).contains(alias@),
{
    let mut i: usize = 0;
    while i < aliases.len()
        invariant
            i <= aliases@.len(),
            forall|j: int| 0 <= j < i ==> aliases@[j]@ != alias@,
        decreases aliases.len() - i,
    {
        if text_eq(aliases[i].as_str(), alias) {
            assert(aliases@.map_values(|a: String| a@)[i as int] == alias@);
            return true;
        }
        i = i + 1;
    }
    proof {
        let v = aliases@.map_values(|a: String| a@);
        if v.contains(alias@) {
            let k = choose|k: int| 0 <= k < v.len() && v[k] == alias@;
            assert(aliases@[k]@ == alias@);
        }
    }
    false
}

/// Adds the aliases of `new` that `seen` lacks.
fn add_locked_aliases(seen: &mut Vec<String>, new: &Vec<String>)
    requires
        old(seen)@.map_values(|a: String| a@).no_duplicates(),
    ensures
        final(seen)@.map_values(|a: String| a@).no_duplicates(),
        final(seen)@.map_values(|a: String| a@).to_set() == old(seen)@.map_values(|a: String| a@).to_set()
            + new@.map_values(|a: String| a@).to_set(),
{
    let ghost start = seen@.map_values(|a: String| a@).to_set();
    let mut i: usize = 0;
    assert(new@.subrange(0, 0).map_values(|a: String| a@).to_set() =~= Set::<Seq<char>>::empty());
    assert(start + Set::<Seq<char>>::empty() =~= start);
    while i < new.len()
        invariant
            i <= new@.len(),
            seen@.map_values(|a: String| a@).no_duplicates(),
            seen@.map_values(|a: String| a@).to_set() == start + new@.subrange(0, i as int).map_values(|a: String| a@).to_set(),
        decreases new.len() - i,
    {
        let ghost before = seen@.map_values(|a: String| a@);
        let ghost x = new@[i as int]@;
        assert(new@.subrange(0, i + 1).map_values(|a: String| a@) =~= new@.subrange(0, i as int).map_values(|a: String| a@).push(x));
        proof {
            new@.subrange(0, i as int).map_values(|a: String| a@).lemma_push_to_set_commute(x);
        }
        if !contains_alias(seen, new[i].as_str()) {
            seen.push(new[i].clone());
            proof {
                assert(seen@.map_values(|a: String| a@) =~= before.push(x));
                before.lemma_push_to_set_commute(x);
                assert forall|p: int, q: int| 0 <= p < q < before.push(x).len() implies before.push(x)[p] != before.push(x)[q] by {
                    if q == before.len() {
                        assert(before[p] == before.push(x)[p]);
                    }
                }
            }
        } else {
            proof {
                assert(before.to_set().contains(x));
            }
        }
        i = i + 1;
        assert(seen@.map_values(|a: String| a@).to_set() =~= start + new@.subrange(0, i as int).map_values(|a: String| a@).to_set());
    }
    assert(new@.subrange(0, new@.len() as int) =~= new@);
}

// ---------------------------------------------------------------------------
// Computing the summary

/// The summary of `tasks`.
pub fn task_summary(tasks: &Vec<TaskSnapshotView>) -> (r: TaskSummary)
    requires
        summary_size(tasks@) < usize::MAX,
    ensures
        summarizes(r, tasks@),
{
    let ghost all = tasks@;
    let mut pending: usize = 0;
    let mut running: usize = 0;
    let mut waiting_for_user: usize = 0;
    let mut completed: usize = 0;
    let mut failed: usize = 0;
    let mut cancelled: usize = 0;
    let mut active: usize = 0;
    let mut terminal: usize = 0;
    let mut cancel_requested: usize = 0;
    let mut waiting_inputs: usize = 0;
    let mut unsupported: usize = 0;
    let mut recoverable: usize = 0;
    let mut waiting_by_kind: Vec<NameCount> = Vec::new();
    let mut failed_by_kind: Vec<NameCount> = Vec::new();
    let mut actions: Vec<NameCount> = Vec::new();
    let mut seen: Vec<String> = Vec::new();
    let mut latest: u64 = 0;
    let mut i: usize = 0;
    proof {
        assert(all.subrange(0, 0) =~= Seq::<TaskSnapshotView>::empty());
        assert(seen@.map_values(|a: String| a@) =~= Seq::<Seq<char>>::empty());
        assert(seen@.map_values(|a: String| a@).to_set() =~= Set::<Seq<char>>::empty());
    }
    while i < tasks.len()
        invariant
            all == tasks@,
            i <= all.len(),
            summary_size(all) < usize::MAX,
            ({
                let pre = all.subrange(0, i as int);
                &&& pending == count_tasks(pre, in_phase(ServiceTaskPhase::Pending))
                &&& running == count_tasks(pre, in_phase(ServiceTaskPhase::Running))
                &&& waiting_for_user == count_tasks(pre, in_phase(ServiceTaskPhase::WaitingForUser))
                &&& completed == count_tasks(pre, in_phase(ServiceTaskPhase::Completed))
                &&& cancelled == count_tasks(pre, in_phase(ServiceTaskPhase::Cancelled))
                &&& failed == count_tasks(pre, |t: TaskSnapshotView| is_open_failure(t))
                &&& active == count_tasks(pre, |t: TaskSnapshotView| is_active(t))
                &&& terminal == count_tasks(pre, |t: TaskSnapshotView| is_terminal(t))
                &&& cancel_requested == count_tasks(pre, |t: TaskSnapshotView| t.cancel_requested)
                &&& waiting_inputs == all_names(pre, |t: TaskSnapshotView| waiting_names(t)).len()
                &&& unsupported == count_tasks(pre, |t: TaskSnapshotView| is_unsupported_wait(t))
                &&& recoverable == count_tasks(pre, |t: TaskSnapshotView| is_open_failure(t) && t.retry_available)
                &&& counts_of(waiting_by_kind@, all_names(pre, |t: TaskSnapshotView| waiting_names(t)))
                &&& counts_of(failed_by_kind@, all_names(pre, |t: TaskSnapshotView| failure_names(t)))
                &&& counts_of(actions@, all_names(pre, |t: TaskSnapshotView| action_names(t)))
                &&& seen@.map_values(|a: String| a@).no_duplicates()
                &&& seen@.map_values(|a: String| a@).to_set() == locked_alias_set(pre)
                &&& latest == latest_sequence_of(pre)
                &&& summary_size(pre) <= summary_size(all)
            }),
        decreases tasks.len() - i,
    {
        let ghost pre = all.subrange(0, i as int);
        let ghost next = all.subrange(0, i + 1);
        let t = &tasks[i];
        proof {
            assert(next.drop_last() =~= pre);
            assert(next.last() == *t);
            lemma_summary_size_prefix(all, i + 1);
            lemma_names_bounded(next);
            lemma_count_le(next, |t: TaskSnapshotView| is_open_failure(t));
            lemma_count_le(next, |t: TaskSnapshotView| is_active(t));
            lemma_count_le(next, |t: TaskSnapshotView| is_terminal(t));
            lemma_count_le(next, |t: TaskSnapshotView| t.cancel_requested);
            lemma_count_le(next, |t: TaskSnapshotView| is_unsupported_wait(t));
            lemma_count_le(next, |t: TaskSnapshotView| is_open_failure(t) && t.retry_available);
            lemma_count_le(next, in_phase(ServiceTaskPhase::Pending));
            lemma_count_le(next, in_phase(ServiceTaskPhase::Running));
            lemma_count_le(next, in_phase(ServiceTaskPhase::WaitingForUser));
            lemma_count_le(next, in_phase(ServiceTaskPhase::Completed));
            lemma_count_le(next, in_phase(ServiceTaskPhase::Cancelled));
        }
        if t.last_sequence > latest {
            latest = t.last_sequence;
        }
        if t.cancel_requested {
            cancel_requested = cancel_requested + 1;
        }
        let ghost waiting_base = all_names(pre, |t: TaskSnapshotView| waiting_names(t));
        add_names(&mut waiting_by_kind, &t.waiting_item_kinds, Ghost(waiting_base));
        waiting_inputs = waiting_inputs + t.waiting_item_kinds.len();
        let ghost action_base = all_names(pre, |t: TaskSnapshotView| action_names(t));
        add_names(&mut actions, &t.available_actions, Ghost(action_base));
        let ghost failure_base = all_names(pre, |t: TaskSnapshotView| failure_names(t));
        let ghost items = t.waiting_item_kinds@.map_values(|k: String| k@);
        match t.phase {
            ServiceTaskPhase::Pending => {
                pending = pending + 1;
                active = active + 1;
                add_locked_aliases(&mut seen, &t.locked_aliases);
            },
            ServiceTaskPhase::Running => {
                running = running + 1;
                active = active + 1;
                add_locked_aliases(&mut seen, &t.locked_aliases);
            },
            ServiceTaskPhase::WaitingForUser => {
                waiting_for_user = waiting_for_user + 1;
                active = active + 1;
                match &t.waiting_for_input {
                    Some(kind) => {
                        waiting_inputs = waiting_inputs + 1;
                        add_name(&mut waiting_by_kind, kind.as_str(), Ghost(waiting_base + items));
                        assert(waiting_base + items.push(kind@) =~= (waiting_base + items).push(kind@));
                    },
                    None => {
                        if t.waiting_item_kinds.len() == 0 {
                            unsupported = unsupported + 1;
                        }
                    },
                }
                add_locked_aliases(&mut seen, &t.locked_aliases);
            },
            ServiceTaskPhase::Completed => {
                completed = completed + 1;
                terminal = terminal + 1;
            },
            ServiceTaskPhase::Failed => {
                terminal = terminal + 1;
                if !t.resolved {
                    failed = failed + 1;
                    match t.failure_kind {
                        Some(kind) => {
                            add_name(&mut failed_by_kind, task_failure_kind_name(kind), Ghost(failure_base));
                            assert(failure_base.push(failure_kind_text(kind)) =~= failure_base + seq![failure_kind_text(kind)]);
                        },
                        None => {
                            assert(failure_base + Seq::<Seq<char>>::empty() =~= failure_base);
                        },
                    }
                    if t.retry_available {
                        recoverable = recoverable + 1;
                    }
                } else {
                    assert(failure_base + Seq::<Seq<char>>::empty() =~= failure_base);
                }
            },
            ServiceTaskPhase::Cancelled => {
                cancelled = cancelled + 1;
                terminal = terminal + 1;
            },
        }
        proof {
            if !(t.phase == ServiceTaskPhase::Failed) {
                assert(failure_base + failure_names(*t) =~= failure_base);
            }
            if !(t.phase == ServiceTaskPhase::WaitingForUser && t.waiting_for_input is Some) {
                assert(waiting_names(*t) == items);
            }
        }
        i = i + 1;
    }
    proof {
        assert(all.subrange(0, all.len() as int) =~= all);
        seen@.map_values(|a: String| a@).unique_seq_to_set();
    }
    let ghost w0 = waiting_by_kind@;
    let ghost f0 = failed_by_kind@;
    let ghost a0 = actions@;
    let waiting_by_kind = sort_by_key(waiting_by_kind);
    let failed_by_kind = sort_by_key(failed_by_kind);
    let actions = sort_by_key(actions);
    proof {
        lemma_counts_of_permuted(w0, waiting_by_kind@, all_names(all, |t: TaskSnapshotView| waiting_names(t)));
        lemma_counts_of_permuted(f0, failed_by_kind@, all_names(all, |t: TaskSnapshotView| failure_names(t)));
        lemma_counts_of_permuted(a0, actions@, all_names(all, |t: TaskSnapshotView| action_names(t)));
    }
    TaskSummary {
        total_count: tasks.len(),
        pending_count: pending,
        running_count: running,
        waiting_for_user_count: waiting_for_user,
        completed_count: completed,
        failed_count: failed,
        cancelled_count: cancelled,
        active_count: active,
        terminal_count: terminal,
        clearable_count: terminal,
        cancel_requested_count: cancel_requested,
        waiting_for_input_count: waiting_inputs,
        unsupported_waiting_input_count: unsupported,
        recoverable_failed_count: recoverable,
        waiting_for_input_by_kind: waiting_by_kind,
        failed_by_kind,
        available_actions_count: actions,
        locked_alias_count: seen.len(),
        latest_sequence: latest,
    }
}

/// Counts of names stay counts of names in any order.
proof fn lemma_counts_of_permuted(a: Seq<NameCount>, b: Seq<NameCount>, names: Seq<Seq<char>>)
    requires
        counts_of(a, names),
        a.to_multiset() == b.to_multiset(),
    ensures
        counts_of(b, names),
{
    broadcast use vstd::seq_lib::group_to_multiset_ensures;

    assert forall|x: NameCount| b.contains(x) <==> a.contains(x) by {
        vstd::seq_lib::to_multiset_contains(a, x);
        vstd::seq_lib::to_multiset_contains(b, x);
        assert(b.to_multiset().count(x) == a.to_multiset().count(x));
    }
    assert(a.no_duplicates()) by {
        assert forall|i: int, j: int| 0 <= i < a.len() && 0 <= j < a.len() && i != j implies a[i] != a[j] by {
            if i < j {
                assert(a[i].name@ != a[j].name@);
            } else {
                assert(a[j].name@ != a[i].name@);
            }
        }
    }
    a.lemma_multiset_has_no_duplicates();
    assert forall|x: NameCount| b.to_multiset().contains(x) implies b.to_multiset().count(x) == 1 by {
        assert(a.to_multiset().contains(x));
    }
    b.lemma_multiset_has_no_duplicates_conv();
    assert forall|i: int, j: int| 0 <= i < j < b.len() implies (#[trigger] b[i]).name@ != (#[trigger] b[j]).name@ by {
        assert(b.contains(b[i]));
        assert(b.contains(b[j]));
        let ki = choose|k: int| 0 <= k < a.len() && a[k] == b[i];
        let kj = choose|k: int| 0 <= k < a.len() && a[k] == b[j];
        if b[i].name@ == b[j].name@ {
            if ki < kj {
                assert(a[ki].name@ != a[kj].name@);
            } else if kj < ki {
                assert(a[kj].name@ != a[ki].name@);
            } else {
                assert(b[i] != b[j]);
            }
        }
    }
    assert forall|i: int| 0 <= i < b.len() implies (#[trigger] b[i]).count == occurrences(names, b[i].name@)
        && names.contains(b[i].name@) by {
        assert(b.contains(b[i]));
        let k = choose|k: int| 0 <= k < a.len() && a[k] == b[i];
        assert(a[k].count == occurrences(names, a[k].name@));
    }
    assert forall|n: Seq<char>| names.contains(n) implies exists|i: int| 0 <= i < b.len() && (#[trigger] b[i]).name@ == n by {
        let k = choose|k: int| 0 <= k < a.len() && (#[trigger] a[k]).name@ == n;
        assert(a.contains(a[k]));
        assert(b.contains(a[k]));
        let j = choose|j: int| 0 <= j < b.len() && b[j] == a[k];
        assert(b[j].name@ == n);
    }
}

// ---------------------------------------------------------------------------
// Laws of the summary

proof fn lemma_phase_counts(tasks: Seq<TaskSnapshotView>)
    ensures
        count_tasks(tasks, |t: TaskSnapshotView| is_active(t)) + count_tasks(tasks, |t: TaskSnapshotView| is_terminal(t))
            == tasks.len(),
        count_tasks(tasks, in_phase(ServiceTaskPhase::Pending)) + count_tasks(tasks, in_phase(ServiceTaskPhase::Running))
            + count_tasks(tasks, in_phase(ServiceTaskPhase::WaitingForUser)) == count_tasks(
            tasks,
            |t: TaskSnapshotView| is_active(t),
        ),
        count_tasks(tasks, |t: TaskSnapshotView| is_open_failure(t)) + count_tasks(tasks, in_phase(ServiceTaskPhase::Completed))
            + count_tasks(tasks, in_phase(ServiceTaskPhase::Cancelled)) <= count_tasks(
            tasks,
            |t: TaskSnapshotView| is_terminal(t),
        ),
        count_tasks(tasks, |t: TaskSnapshotView| is_open_failure(t) && t.retry_available) <= count_tasks(
            tasks,
            |t: TaskSnapshotView| is_open_failure(t),
        ),
        count_tasks(tasks, |t: TaskSnapshotView| is_unsupported_wait(t)) <= count_tasks(
            tasks,
            in_phase(ServiceTaskPhase::WaitingForUser),
        ),
    decreases tasks.len(),
{
    if tasks.len() > 0 {
        lemma_phase_counts(tasks.drop_last());
    }
}

/// Every task is either active (pending, running or waiting) or terminal;
/// the clearable tasks are the terminal ones; open failures, completed and
/// cancelled tasks are among the terminal ones; recoverable failures are
/// among the open ones; tasks that wait without naming an input are among
/// the waiting ones.
pub proof fn summary_partitions_tasks(s: TaskSummary, tasks: Seq<TaskSnapshotView>)
    requires
        summarizes(s, tasks),
    ensures
        s.active_count + s.terminal_count == s.total_count,
        s.pending_count + s.running_count + s.waiting_for_user_count == s.active_count,
        s.clearable_count == s.terminal_count,
        s.failed_count + s.completed_count + s.cancelled_count <= s.terminal_count,
        s.recoverable_failed_count <= s.failed_count,
        s.unsupported_waiting_input_count <= s.waiting_for_user_count,
{
    lemma_phase_counts(tasks);
}

/// Only pending, running and waiting tasks lock aliases: a list whose tasks
/// all ended locks none.
pub proof fn finished_tasks_lock_nothing(tasks: Seq<TaskSnapshotView>)
    requires
        forall|i: int| 0 <= i < tasks.len() ==> is_terminal(#[trigger] tasks[i]),
    ensures
        locked_alias_set(tasks) == Set::<Seq<char>>::empty(),
    decreases tasks.len(),
{
    if tasks.len() > 0 {
        assert forall|i: int| 0 <= i < tasks.drop_last().len() implies is_terminal(#[trigger] tasks.drop_last()[i]) by {
            assert(tasks.drop_last()[i] == tasks[i]);
        }
        finished_tasks_lock_nothing(tasks.drop_last());
        assert(is_terminal(tasks[tasks.len() - 1]));
    }
}

} // verus!
