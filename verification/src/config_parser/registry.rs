//! The registry of tasks: every accepted configuration under its
//! identifier.

use super::types::Config;
use super::TaskId;
use vstd::prelude::*;

verus! {

/// The map that a list of tasks stands for: each task under its
/// identifier, a later one in place of an earlier one of the same
/// identifier.
pub open spec fn entries(tasks: Seq<Config>) -> Map<Seq<char>, Config>
    decreases tasks.len(),
{
    if tasks.len() == 0 {
        Map::empty()
    } else {
        entries(tasks.drop_last()).insert(tasks.last().id(), tasks.last())
    }
}

/// No two tasks of the list share an identifier.
pub open spec fn distinct_ids(tasks: Seq<Config>) -> bool {
    forall|i: int, j: int|
        0 <= i < j < tasks.len() ==> (#[trigger] tasks[i]).id() != (#[trigger] tasks[j]).id()
}

/// Every task of the list is valid.
pub open spec fn all_valid(tasks: Seq<Config>) -> bool {
    forall|i: int| 0 <= i < tasks.len() ==> (#[trigger] tasks[i]).is_valid()
}

/// The identifiers in `entries` are those of the listed tasks.
pub proof fn lemma_entries_dom(tasks: Seq<Config>, id: Seq<char>)
    ensures
        entries(tasks).dom().contains(id) <==> exists|i: int|
            0 <= i < tasks.len() && (#[trigger] tasks[i]).id() == id,
        entries(tasks).dom().contains(id) ==> tasks.contains(entries(tasks)[id]) && entries(
            tasks,
        )[id].id() == id,
    decreases tasks.len(),
{
    if tasks.len() > 0 {
        let front = tasks.drop_last();
        lemma_entries_dom(front, id);
        if tasks.last().id() == id {
            assert(tasks[tasks.len() - 1].id() == id);
        } else if entries(front).dom().contains(id) {
            let i = choose|i: int| 0 <= i < front.len() && (#[trigger] front[i]).id() == id;
            assert(tasks[i].id() == id);
            let j = choose|j: int| 0 <= j < front.len() && front[j] == entries(front)[id];
            assert(tasks[j] == entries(front)[id]);
        }
        if exists|i: int| 0 <= i < tasks.len() && (#[trigger] tasks[i]).id() == id {
            let i = choose|i: int| 0 <= i < tasks.len() && (#[trigger] tasks[i]).id() == id;
            if i < front.len() {
                assert(front[i].id() == id);
            }
        }
    }
}

/// Where identifiers are distinct, each task is found under its own.
pub proof fn lemma_entries_at(tasks: Seq<Config>, i: int)
    requires
        distinct_ids(tasks),
        0 <= i < tasks.len(),
    ensures
        entries(tasks).dom().contains(tasks[i].id()),
        entries(tasks)[tasks[i].id()] == tasks[i],
    decreases tasks.len(),
{
    let front = tasks.drop_last();
    if i < tasks.len() - 1 {
        assert(front[i] == tasks[i]);
        assert(tasks[i].id() != tasks[tasks.len() - 1].id());
        lemma_entries_at(front, i);
    }
}

/// Replacing a task by one of the same identifier is an insertion into
/// the map.
proof fn lemma_entries_update(tasks: Seq<Config>, i: int, task: Config)
    requires
        distinct_ids(tasks),
        0 <= i < tasks.len(),
        tasks[i].id() == task.id(),
    ensures
        entries(tasks.update(i, task)) == entries(tasks).insert(task.id(), task),
        distinct_ids(tasks.update(i, task)),
    decreases tasks.len(),
{
    let changed = tasks.update(i, task);
    let front = tasks.drop_last();
    let last = tasks.last();
    if i == tasks.len() - 1 {
        assert(changed.drop_last() =~= front);
        assert(entries(changed) =~= entries(tasks).insert(task.id(), task));
    } else {
        assert(front[i] == tasks[i]);
        assert(changed.drop_last() =~= front.update(i, task));
        assert(changed.last() == last);
        assert(tasks[i].id() != tasks[tasks.len() - 1].id());
        lemma_entries_update(front, i, task);
        assert(entries(changed) =~= entries(tasks).insert(task.id(), task));
    }
    assert forall|a: int, b: int| 0 <= a < b < changed.len() implies (#[trigger] changed[a]).id()
        != (#[trigger] changed[b]).id() by {
        assert(changed[a].id() == tasks[a].id());
        assert(changed[b].id() == tasks[b].id());
    }
}

/// The position of the task named `id` in `tasks`, if it is there.
pub(crate) fn position(tasks: &Vec<Config>, id: &TaskId) -> (r: Option<usize>)
    ensures
        r matches Some(i) ==> i < tasks.len() && tasks[i as int].id() == id@,
        r is None ==> forall|i: int| 0 <= i < tasks.len() ==> (#[trigger] tasks[i]).id() != id@,
{
    let n = tasks.len();
    let mut i: usize = 0;
    while i < n
        invariant
            n == tasks.len(),
            i <= n,
            forall|k: int| 0 <= k < i ==> (#[trigger] tasks[k]).id() != id@,
        decreases n - i,
    {
        if tasks[i].task_id() == *id {
            return Some(i);
        }
        i += 1;
    }
    None
}

/// Puts `task` into the list under its identifier, in place of the task
/// that had it before, if there was one.
pub(crate) fn put(tasks: &mut Vec<Config>, task: Config)
    requires
        distinct_ids(old(tasks)@),
        all_valid(old(tasks)@),
        task.is_valid(),
    ensures
        distinct_ids(final(tasks)@),
        all_valid(final(tasks)@),
        entries(final(tasks)@) == entries(old(tasks)@).insert(task.id(), task),
{
    let id = task.task_id();
    match position(tasks, &id) {
        Some(i) => {
            proof {
                lemma_entries_update(tasks@, i as int, task);
            }
            tasks.set(i, task);
        },
        None => {
            let ghost before = tasks@;
            tasks.push(task);
            assert(tasks@.drop_last() =~= before);
        },
    }
}

/// The tasks that the service knows, each under its identifier. Every
/// task in it is valid. It is filled once and only read afterwards.
pub struct TaskRegistry {
    tasks: Vec<Config>,
}

impl View for TaskRegistry {
    type V = Map<Seq<char>, Config>;

    closed spec fn view(&self) -> Map<Seq<char>, Config> {
        entries(self.tasks@)
    }
}

impl TaskRegistry {
    #[verifier::type_invariant]
    spec fn sound(&self) -> bool {
        distinct_ids(self.tasks@) && all_valid(self.tasks@)
    }

    /// The tasks of the registry, without repetition and in no
    /// particular order.
    pub closed spec fn listed(&self) -> Seq<Config> {
        self.tasks@
    }

    /// A registry of the listed tasks.
    pub(crate) fn from_tasks(tasks: Vec<Config>) -> (r: TaskRegistry)
        requires
            distinct_ids(tasks@),
            all_valid(tasks@),
        ensures
            r@ == entries(tasks@),
            r.listed() == tasks@,
    {
        TaskRegistry { tasks }
    }

    /// The task registered under `id`.
    pub fn get(&self, id: &TaskId) -> (r: Option<&Config>)
        ensures
            r is Some == self@.dom().contains(id@),
            r matches Some(task) ==> *task == self@[id@] && task.is_valid() && task.id() == id@,
    {
        proof {
            use_type_invariant(self);
            lemma_entries_dom(self.tasks@, id@);
        }
        match position(&self.tasks, id) {
            Some(i) => {
                proof {
                    lemma_entries_at(self.tasks@, i as int);
                }
                Some(&self.tasks[i])
            },
            None => None,
        }
    }

    /// Whether a task is registered under `id`.
    pub fn contains(&self, id: &TaskId) -> (r: bool)
        ensures
            r == self@.dom().contains(id@),
    {
        self.get(id).is_some()
    }

    /// The number of tasks.
    pub fn len(&self) -> (n: usize)
        ensures
            n == self.listed().len(),
    {
        self.tasks.len()
    }
}

/// All tasks of the registry: each registered task once, every one of
/// them valid, no two under the same identifier.
pub fn all_tasks(registry: &TaskRegistry) -> (tasks: &Vec<Config>)
    ensures
        tasks@ == registry.listed(),
        entries(tasks@) == registry@,
        distinct_ids(tasks@),
        all_valid(tasks@),
{
    proof {
        use_type_invariant(registry);
    }
    &registry.tasks
}

} // verus!
