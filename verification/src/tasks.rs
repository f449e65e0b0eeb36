//! Registry of running write tasks and their cancellation requests.
//!
//! The registry maps each task identifier to whether cancellation has been
//! requested for it; the workers poll that flag between steps.

use crate::text::{string_of, to_chars, trim, trim_chars};
use crate::util::str_eq;
use vstd::prelude::*;

verus! {

/// One registered task: its identifier and whether it was asked to stop.
pub struct TaskState {
    pub task_id: String,
    pub cancelled: bool,
}

/// The registered tasks, each identifier at most once.
pub struct TaskManager {
    tasks: Vec<TaskState>,
}

/// The cancellation flag of the last entry for `k`, if any.
pub open spec fn lookup(s: Seq<TaskState>, k: Seq<char>) -> Option<bool>
    decreases s.len(),
{
    if s.len() == 0 {
        None
    } else if s.last().task_id@ == k {
        Some(s.last().cancelled)
    } else {
        lookup(s.drop_last(), k)
    }
}

/// The entries whose identifier is not `k`, in order.
pub open spec fn without_id(s: Seq<TaskState>, k: Seq<char>) -> Seq<TaskState>
    decreases s.len(),
{
    if s.len() == 0 {
        s
    } else if s.last().task_id@ == k {
        without_id(s.drop_last(), k)
    } else {
        without_id(s.drop_last(), k).push(s.last())
    }
}

/// No identifier occurs twice.
pub open spec fn ids_distinct(s: Seq<TaskState>) -> bool {
    forall|i: int, j: int|
        0 <= i < j < s.len() ==> #[trigger] s[i].task_id@ != #[trigger] s[j].task_id@
}

/// The registry as a map from identifier to cancellation flag.
pub open spec fn as_map(s: Seq<TaskState>) -> Map<Seq<char>, bool> {
    Map::new(|k: Seq<char>| lookup(s, k) is Some, |k: Seq<char>| lookup(s, k)->0)
}

proof fn lemma_lookup_without(s: Seq<TaskState>, k: Seq<char>, q: Seq<char>)
    ensures
        lookup(without_id(s, k), q) == (if q == k {
            None
        } else {
            lookup(s, q)
        }),
    decreases s.len(),
{
    if s.len() > 0 {
        lemma_lookup_without(s.drop_last(), k, q);
        if s.last().task_id@ != k {
            assert(without_id(s, k).drop_last() =~= without_id(s.drop_last(), k));
        }
    }
}

proof fn lemma_lookup_some(s: Seq<TaskState>, q: Seq<char>)
    ensures
        (lookup(s, q) is Some) <==> (exists|i: int| 0 <= i < s.len() && s[i].task_id@ == q),
    decreases s.len(),
{
    if s.len() > 0 {
        lemma_lookup_some(s.drop_last(), q);
        if s.last().task_id@ == q {
            assert(s[s.len() - 1].task_id@ == q);
        } else {
            if exists|i: int| 0 <= i < s.len() && s[i].task_id@ == q {
                let i = choose|i: int| 0 <= i < s.len() && s[i].task_id@ == q;
                assert(i < s.len() - 1);
                assert(s.drop_last()[i].task_id@ == q);
            }
            if exists|i: int| 0 <= i < s.drop_last().len() && s.drop_last()[i].task_id@ == q {
                let i = choose|i: int|
                    0 <= i < s.drop_last().len() && s.drop_last()[i].task_id@ == q;
                assert(s[i].task_id@ == q);
            }
        }
    }
}

proof fn lemma_without_members(s: Seq<TaskState>, k: Seq<char>)
    ensures
        forall|i: int|
            0 <= i < without_id(s, k).len() ==> {
                &&& #[trigger] without_id(s, k)[i].task_id@ != k
                &&& exists|j: int| 0 <= j < s.len() && s[j] == without_id(s, k)[i]
            },
    decreases s.len(),
{
    if s.len() > 0 {
        lemma_without_members(s.drop_last(), k);
        let w = without_id(s.drop_last(), k);
        assert forall|i: int| 0 <= i < without_id(s, k).len() implies {
            &&& #[trigger] without_id(s, k)[i].task_id@ != k
            &&& exists|j: int| 0 <= j < s.len() && s[j] == without_id(s, k)[i]
        } by {
            if i < w.len() {
                assert(without_id(s, k)[i] == w[i]);
                assert(w[i].task_id@ != k);
                let j = choose|j: int| 0 <= j < s.drop_last().len() && s.drop_last()[j] == w[i];
                assert(s[j] == without_id(s, k)[i]);
            } else {
                assert(without_id(s, k)[i] == s.last());
                assert(s[s.len() - 1] == without_id(s, k)[i]);
            }
        }
    }
}

proof fn lemma_without_distinct(s: Seq<TaskState>, k: Seq<char>)
    requires
        ids_distinct(s),
    ensures
        ids_distinct(without_id(s, k)),
    decreases s.len(),
{
    if s.len() > 0 {
        let p = s.drop_last();
        assert(ids_distinct(p)) by {
            assert forall|i: int, j: int| 0 <= i < j < p.len() implies #[trigger] p[i].task_id@
                != #[trigger] p[j].task_id@ by {
                assert(p[i] == s[i] && p[j] == s[j]);
            }
        }
        lemma_without_distinct(p, k);
        if s.last().task_id@ != k {
            let w = without_id(p, k);
            lemma_without_members(p, k);
            let n = without_id(s, k);
            assert forall|i: int, j: int| 0 <= i < j < n.len() implies #[trigger] n[i].task_id@
                != #[trigger] n[j].task_id@ by {
                if j < w.len() {
                    assert(n[i] == w[i] && n[j] == w[j]);
                } else {
                    assert(n[i] == w[i]);
                    assert(n[j] == s.last());
                    assert(0 <= i < w.len());
                    assert(w[i].task_id@ != k);
                    let m = choose|m: int| 0 <= m < p.len() && p[m] == w[i];
                    assert(s[m] == p[m]);
                    assert(s[m].task_id@ != s[s.len() - 1].task_id@);
                }
            }
        }
    }
}

proof fn lemma_push_distinct(s: Seq<TaskState>, t: TaskState)
    requires
        ids_distinct(s),
        forall|i: int| 0 <= i < s.len() ==> (#[trigger] s[i]).task_id@ != t.task_id@,
    ensures
        ids_distinct(s.push(t)),
{
    let n = s.push(t);
    assert forall|i: int, j: int| 0 <= i < j < n.len() implies #[trigger] n[i].task_id@
        != #[trigger] n[j].task_id@ by {
        assert(n[i] == s[i]);
        if j < s.len() {
            assert(n[j] == s[j]);
        }
    }
}

impl TaskManager {
    /// The registered entries, oldest first.
    pub closed spec fn entries(&self) -> Seq<TaskState> {
        self.tasks@
    }

    /// Every identifier is registered at most once.
    pub open spec fn wf(&self) -> bool {
        ids_distinct(self.entries())
    }

    /// An empty registry.
    pub fn new() -> (r: TaskManager)
        ensures
            r.wf(),
            r@ == Map::<Seq<char>, bool>::empty(),
    {
        let r = TaskManager { tasks: Vec::new() };
        assert(r@ =~= Map::<Seq<char>, bool>::empty());
        r
    }

    /// The entries whose identifier is not `task_id`.
    fn entries_without(&self, task_id: &str) -> (r: Vec<TaskState>)
        ensures
            r@ == without_id(self.entries(), task_id@),
    {
        let mut out: Vec<TaskState> = Vec::new();
        let mut i: usize = 0;
        while i < self.tasks.len()
            invariant
                i <= self.tasks@.len(),
                out@ == without_id(self.tasks@.take(i as int), task_id@),
            decreases self.tasks@.len() - i,
        {
            let t = &self.tasks[i];
            let same = str_eq(t.task_id.as_str(), task_id);
            assert(self.tasks@.take(i + 1).drop_last() =~= self.tasks@.take(i as int));
            if !same {
                out.push(TaskState { task_id: t.task_id.clone(), cancelled: t.cancelled });
            }
            i = i + 1;
        }
        assert(self.tasks@.take(i as int) =~= self.tasks@);
        out
    }

    /// Whether `task_id` is registered.
    fn find(&self, task_id: &str) -> (r: bool)
        ensures
            r == self@.contains_key(task_id@),
    {
        let mut i: usize = 0;
        while i < self.tasks.len()
            invariant
                i <= self.tasks@.len(),
                forall|j: int| 0 <= j < i ==> (#[trigger] self.tasks@[j]).task_id@ != task_id@,
            decreases self.tasks@.len() - i,
        {
            if str_eq(self.tasks[i].task_id.as_str(), task_id) {
                assert(self.tasks@[i as int].task_id@ == task_id@);
                proof {
                    lemma_lookup_some(self.tasks@, task_id@);
                }
                return true;
            }
            i = i + 1;
        }
        proof {
            lemma_lookup_some(self.tasks@, task_id@);
        }
        false
    }

    /// Registers `task_id` with no cancellation requested; a task already
    /// registered under that identifier starts over.
    pub fn register_task(&mut self, task_id: String)
        requires
            old(self).wf(),
        ensures
            final(self).wf(),
            final(self)@ == old(self)@.insert(task_id@, false),
    {
        let ghost old_tasks = self.tasks@;
        let mut rest = self.entries_without(task_id.as_str());
        let ghost k = task_id@;
        proof {
            lemma_without_distinct(old_tasks, k);
            lemma_without_members(old_tasks, k);
        }
        let entry = TaskState { task_id, cancelled: false };
        proof {
            assert forall|i: int| 0 <= i < rest@.len() implies (#[trigger] rest@[i]).task_id@
                != entry.task_id@ by {
                assert(without_id(old_tasks, k)[i].task_id@ != k);
            }
            lemma_push_distinct(rest@, entry);
        }
        rest.push(entry);
        self.tasks = rest;
        proof {
            assert forall|q: Seq<char>| lookup(self.tasks@, q) == (if q == k {
                Some(false)
            } else {
                lookup(old_tasks, q)
            }) by {
                assert(self.tasks@.drop_last() =~= without_id(old_tasks, k));
                lemma_lookup_without(old_tasks, k, q);
            }
            assert(self@ =~= old(self)@.insert(k, false));
        }
    }

    /// Requests cancellation of `task_id`; returns whether it was registered.
    pub fn cancel_task(&mut self, task_id: &str) -> (r: bool)
        requires
            old(self).wf(),
        ensures
            final(self).wf(),
            r == old(self)@.contains_key(task_id@),
            final(self)@ == (if r {
                old(self)@.insert(task_id@, true)
            } else {
                old(self)@
            }),
    {
        if !self.find(task_id) {
            return false;
        }
        let ghost old_tasks = self.tasks@;
        let ghost k = task_id@;
        let mut rest = self.entries_without(task_id);
        proof {
            lemma_without_distinct(old_tasks, k);
            lemma_without_members(old_tasks, k);
        }
        let entry = TaskState { task_id: string_of(task_id), cancelled: true };
        proof {
            assert forall|i: int| 0 <= i < rest@.len() implies (#[trigger] rest@[i]).task_id@
                != entry.task_id@ by {
                assert(without_id(old_tasks, k)[i].task_id@ != k);
            }
            lemma_push_distinct(rest@, entry);
        }
        rest.push(entry);
        self.tasks = rest;
        proof {
            assert forall|q: Seq<char>| lookup(self.tasks@, q) == (if q == k {
                Some(true)
            } else {
                lookup(old_tasks, q)
            }) by {
                assert(self.tasks@.drop_last() =~= without_id(old_tasks, k));
                lemma_lookup_without(old_tasks, k, q);
            }
            assert(self@ =~= old(self)@.insert(k, true));
        }
        true
    }

    /// Forgets `task_id`.
    pub fn unregister_task(&mut self, task_id: &str)
        requires
            old(self).wf(),
        ensures
            final(self).wf(),
            final(self)@ == old(self)@.remove(task_id@),
    {
        let ghost old_tasks = self.tasks@;
        let ghost k = task_id@;
        let rest = self.entries_without(task_id);
        proof {
            lemma_without_distinct(old_tasks, k);
        }
        self.tasks = rest;
        proof {
            assert forall|q: Seq<char>| lookup(self.tasks@, q) == (if q == k {
                None
            } else {
                lookup(old_tasks, q)
            }) by {
                lemma_lookup_without(old_tasks, k, q);
            }
            assert(self@ =~= old(self)@.remove(k));
        }
    }
}

/// Every entry with cancellation requested.
pub open spec fn all_cancelled(s: Seq<TaskState>) -> Seq<TaskState>
    decreases s.len(),
{
    if s.len() == 0 {
        s
    } else {
        all_cancelled(s.drop_last()).push(
            TaskState { task_id: s.last().task_id, cancelled: true },
        )
    }
}

proof fn lemma_lookup_all_cancelled(s: Seq<TaskState>, q: Seq<char>)
    ensures
        lookup(all_cancelled(s), q) == (match lookup(s, q) {
            Some(_) => Some(true),
            None => None::<bool>,
        }),
        all_cancelled(s).len() == s.len(),
        forall|i: int| 0 <= i < s.len() ==> (#[trigger] all_cancelled(s)[i]).task_id@ == s[i].task_id@,
    decreases s.len(),
{
    if s.len() > 0 {
        lemma_lookup_all_cancelled(s.drop_last(), q);
        let a = all_cancelled(s);
        assert(a.drop_last() =~= all_cancelled(s.drop_last()));
        assert forall|i: int| 0 <= i < s.len() implies (#[trigger] a[i]).task_id@ == s[i].task_id@ by {
            if i < s.len() - 1 {
                assert(a[i] == all_cancelled(s.drop_last())[i]);
                assert(s.drop_last()[i] == s[i]);
            }
        }
    }
}

impl TaskManager {
    /// Requests cancellation of every registered task; returns how many
    /// there were.
    pub fn cancel_all_tasks(&mut self) -> (r: usize)
        requires
            old(self).wf(),
        ensures
            final(self).wf(),
            r == old(self).entries().len(),
            (r > 0) <==> (exists|k: Seq<char>| old(self)@.contains_key(k)),
            final(self)@.dom() == old(self)@.dom(),
            forall|k: Seq<char>| #[trigger] final(self)@.contains_key(k) ==> final(self)@[k],
    {
        let ghost old_tasks = self.tasks@;
        let mut out: Vec<TaskState> = Vec::new();
        let mut i: usize = 0;
        while i < self.tasks.len()
            invariant
                i <= self.tasks@.len(),
                self.tasks@ == old_tasks,
                out@ == all_cancelled(old_tasks.take(i as int)),
            decreases self.tasks@.len() - i,
        {
            assert(old_tasks.take(i + 1).drop_last() =~= old_tasks.take(i as int));
            out.push(TaskState { task_id: self.tasks[i].task_id.clone(), cancelled: true });
            i = i + 1;
        }
        assert(old_tasks.take(i as int) =~= old_tasks);
        let n = self.tasks.len();
        proof {
            lemma_lookup_all_cancelled(old_tasks, Seq::<char>::empty());
            assert(ids_distinct(out@)) by {
                assert forall|a: int, b: int| 0 <= a < b < out@.len() implies #[trigger] out@[a].task_id@
                    != #[trigger] out@[b].task_id@ by {
                    assert(out@[a].task_id@ == old_tasks[a].task_id@);
                    assert(out@[b].task_id@ == old_tasks[b].task_id@);
                }
            }
            assert forall|q: Seq<char>| lookup(out@, q) == (match lookup(old_tasks, q) {
                Some(_) => Some(true),
                None => None::<bool>,
            }) by {
                lemma_lookup_all_cancelled(old_tasks, q);
            }
            if n > 0 {
                let k = old_tasks[0].task_id@;
                lemma_lookup_some(old_tasks, k);
                assert(old(self)@.contains_key(k));
            }
            if exists|k: Seq<char>| old(self)@.contains_key(k) {
                let k = choose|k: Seq<char>| old(self)@.contains_key(k);
                lemma_lookup_some(old_tasks, k);
            }
        }
        self.tasks = out;
        proof {
            assert(self@.dom() =~= old(self)@.dom());
        }
        n
    }
}

/// What a cancel request does: an identifier cancels that task; a blank
/// one cancels every task. Returns whether anything was cancelled.
pub fn cancel_write_request(manager: &mut TaskManager, task_id: &str) -> (r: bool)
    requires
        old(manager).wf(),
    ensures
        final(manager).wf(),
        trim(task_id@).len() > 0 ==> r == old(manager)@.contains_key(task_id@) && final(manager)@ == (
        if r {
            old(manager)@.insert(task_id@, true)
        } else {
            old(manager)@
        }),
        trim(task_id@).len() == 0 ==> (r <==> (exists|k: Seq<char>| old(manager)@.contains_key(k)))
            && final(manager)@.dom() == old(manager)@.dom() && (forall|k: Seq<char>|
            #[trigger] final(manager)@.contains_key(k) ==> final(manager)@[k]),
{
    let t = trim_chars(to_chars(task_id).as_slice());
    if t.len() == 0 {
        manager.cancel_all_tasks() > 0
    } else {
        manager.cancel_task(task_id)
    }
}

/// The programs stopped when a write is cancelled, so that the step in
/// progress ends.
pub fn cancel_write_kill_list() -> (r: Vec<&'static str>)
    ensures
        r@.len() == 4,
        r@[0]@ == "dism.exe"@,
        r@[1]@ == "diskpart.exe"@,
        r@[2]@ == "imagex_x86.exe"@,
        r@[3]@ == "imagex_amd64.exe"@,
{
    let mut r: Vec<&'static str> = Vec::new();
    r.push("dism.exe");
    r.push("diskpart.exe");
    r.push("imagex_x86.exe");
    r.push("imagex_amd64.exe");
    r
}

impl View for TaskManager {
    type V = Map<Seq<char>, bool>;

    closed spec fn view(&self) -> Map<Seq<char>, bool> {
        as_map(self.tasks@)
    }
}

/// Whether cancellation was requested for `task_id`; an identifier that is
/// not registered is not cancelled.
pub fn is_cancelled(manager: &TaskManager, task_id: &str) -> (r: bool)
    ensures
        r == (manager@.contains_key(task_id@) && manager@[task_id@]),
{
    let mut i: usize = manager.tasks.len();
    assert(manager.tasks@.take(i as int) =~= manager.tasks@);
    while i > 0
        invariant
            i <= manager.tasks@.len(),
            lookup(manager.tasks@, task_id@) == lookup(manager.tasks@.take(i as int), task_id@),
        decreases i,
    {
        let t = &manager.tasks[i - 1];
        assert(manager.tasks@.take(i as int).drop_last() =~= manager.tasks@.take(i - 1));
        if str_eq(t.task_id.as_str(), task_id) {
            return t.cancelled;
        }
        i = i - 1;
    }
    false
}

/// A task that was just registered is not cancelled, and a cancellation
/// request for it is then seen by the worker.
pub proof fn law_register_then_cancel(m: Map<Seq<char>, bool>, k: Seq<char>)
    ensures
        m.insert(k, false).contains_key(k),
        !m.insert(k, false)[k],
        m.insert(k, false).insert(k, true)[k],
{
}

/// Once a task is unregistered, a cancellation request for it is refused and
/// leaves the registry unchanged.
pub proof fn law_unregister_then_cancel(m: Map<Seq<char>, bool>, k: Seq<char>)
    ensures
        !m.remove(k).contains_key(k),
{
}

/// Cancelling or unregistering one task leaves every other task as it was.
pub proof fn law_other_tasks_unchanged(m: Map<Seq<char>, bool>, k: Seq<char>, q: Seq<char>)
    requires
        q != k,
        m.contains_key(q),
    ensures
        m.insert(k, true).contains_key(q) && m.insert(k, true)[q] == m[q],
        m.remove(k).contains_key(q) && m.remove(k)[q] == m[q],
        m.insert(k, false).contains_key(q) && m.insert(k, false)[q] == m[q],
{
}

} // verus!
