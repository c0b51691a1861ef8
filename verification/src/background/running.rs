//! The set of tasks whose sync is in flight.

use crate::config_parser::TaskId;
use vstd::prelude::*;

verus! {

/// The identifiers of the tasks that are being synced right now.
pub struct RunningSet {
    ids: Vec<TaskId>,
}

/// Whether the identifier `t` occurs in `ids`.
pub open spec fn occurs(ids: Seq<TaskId>, t: Seq<char>) -> bool {
    exists|i: int| 0 <= i < ids.len() && #[trigger] ids[i]@ == t
}

/// The identifiers that occur in `ids`.
pub open spec fn members(ids: Seq<TaskId>) -> Set<Seq<char>> {
    Set::new(|t: Seq<char>| occurs(ids, t))
}

proof fn lemma_occurs_push(ids: Seq<TaskId>, x: TaskId, t: Seq<char>)
    ensures
        occurs(ids.push(x), t) == (occurs(ids, t) || x@ == t),
{
    let more = ids.push(x);
    if occurs(more, t) {
        let i = choose|i: int| 0 <= i < more.len() && #[trigger] more[i]@ == t;
        if i < ids.len() {
            assert(ids[i]@ == t);
        }
    }
    if occurs(ids, t) {
        let i = choose|i: int| 0 <= i < ids.len() && #[trigger] ids[i]@ == t;
        assert(more[i]@ == t);
    }
    if x@ == t {
        assert(more[ids.len() as int]@ == t);
    }
}

proof fn lemma_occurs_skip(ids: Seq<TaskId>, n: int, t: Seq<char>)
    requires
        0 <= n < ids.len(),
    ensures
        occurs(ids.skip(n), t) == (ids[n]@ == t || occurs(ids.skip(n + 1), t)),
{
    let a = ids.skip(n);
    let b = ids.skip(n + 1);
    if occurs(a, t) {
        let i = choose|i: int| 0 <= i < a.len() && #[trigger] a[i]@ == t;
        if i > 0 {
            assert(b[i - 1]@ == t);
        }
    }
    if occurs(b, t) {
        let i = choose|i: int| 0 <= i < b.len() && #[trigger] b[i]@ == t;
        assert(a[i + 1]@ == t);
    }
    if ids[n]@ == t {
        assert(a[0]@ == t);
    }
}

impl View for RunningSet {
    type V = Set<Seq<char>>;

    closed spec fn view(&self) -> Set<Seq<char>> {
        members(self.ids@)
    }
}

impl RunningSet {
    /// The empty set.
    pub fn new() -> (s: RunningSet)
        ensures
            s@ == Set::<Seq<char>>::empty(),
    {
        let s = RunningSet { ids: Vec::new() };
        assert(s@ =~= Set::<Seq<char>>::empty());
        s
    }

    /// Whether `id` is in the set.
    pub fn contains(&self, id: &TaskId) -> (r: bool)
        ensures
            r == self@.contains(id@),
    {
        let n = self.ids.len();
        let mut i: usize = 0;
        while i < n
            invariant
                n == self.ids.len(),
                i <= n,
                forall|k: int| 0 <= k < i ==> (#[trigger] self.ids[k])@ != id@,
            decreases n - i,
        {
            if self.ids[i] == *id {
                return true;
            }
            i += 1;
        }
        false
    }

    /// Adds `id`. Returns whether it was new.
    pub fn insert(&mut self, id: TaskId) -> (r: bool)
        ensures
            r == !old(self)@.contains(id@),
            final(self)@ == old(self)@.insert(id@),
    {
        if self.contains(&id) {
            assert(old(self)@.insert(id@) =~= old(self)@);
            false
        } else {
            let ghost before = self.ids@;
            self.ids.push(id);
            proof {
                assert forall|t: Seq<char>| occurs(self.ids@, t) == (occurs(before, t) || id@
                    == t) by {
                    lemma_occurs_push(before, id, t);
                }
                assert(members(self.ids@) =~= members(before).insert(id@));
            }
            true
        }
    }

    /// Takes `id` out. Returns whether it was there.
    pub fn remove(&mut self, id: &TaskId) -> (r: bool)
        ensures
            r == old(self)@.contains(id@),
            final(self)@ == old(self)@.remove(id@),
    {
        let ghost before = self.ids@;
        let mut kept: Vec<TaskId> = Vec::new();
        let mut found = false;
        assert(before.skip(before.len() as int) =~= Seq::<TaskId>::empty());
        while self.ids.len() > 0
            invariant
                self.ids@.len() <= before.len(),
                self.ids@ == before.take(self.ids@.len() as int),
                found == occurs(before.skip(self.ids@.len() as int), id@),
                forall|t: Seq<char>|
                    occurs(kept@, t) == (t != id@ && occurs(
                        before.skip(self.ids@.len() as int),
                        t,
                    )),
            decreases self.ids@.len(),
        {
            let ghost prev_kept = kept@;
            let last = self.ids.pop().unwrap();
            let ghost n = self.ids@.len() as int;
            assert(last == before[n]);
            assert(self.ids@ =~= before.take(n));
            let same = last == *id;
            if same {
                found = true;
            } else {
                kept.push(last);
            }
            proof {
                lemma_occurs_skip(before, n, id@);
                assert forall|t: Seq<char>| occurs(kept@, t) == (t != id@ && occurs(
                    before.skip(n),
                    t,
                )) by {
                    lemma_occurs_skip(before, n, t);
                    if !same {
                        lemma_occurs_push(prev_kept, last, t);
                    }
                }
            }
        }
        self.ids = kept;
        proof {
            assert(before.skip(0) =~= before);
            assert(members(self.ids@) =~= members(before).remove(id@));
        }
        found
    }

    /// Whether no task is running.
    pub fn is_empty(&self) -> (r: bool)
        ensures
            r == (self@ == Set::<Seq<char>>::empty()),
    {
        let r = self.ids.len() == 0;
        proof {
            if r {
                assert(self@ =~= Set::<Seq<char>>::empty());
            } else {
                assert(self.ids@[0]@ == self.ids@[0]@);
                assert(occurs(self.ids@, self.ids@[0]@));
                assert(self@.contains(self.ids@[0]@));
            }
        }
        r
    }
}

} // verus!
