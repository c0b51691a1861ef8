//! What holds of every run of the dispatcher.

use super::types::Event;
use super::{polls, Decision, DispatchState, Step};
use vstd::prelude::*;

verus! {

/// Whatever happens to a dispatcher, its queue stays within its capacity
/// and its capacity stays what it was.
pub proof fn lemma_run_bounded(start: DispatchState, steps: Seq<Step>)
    requires
        start.wf(),
    ensures
        start.run(steps).wf(),
        start.run(steps).limit == start.limit,
    decreases steps.len(),
{
    if steps.len() > 0 {
        lemma_run_bounded(start, steps.drop_last());
    }
}

/// An event offered to a full queue is lost: the dispatcher is as it was
/// before.
pub proof fn lemma_full_queue_drops(state: DispatchState, event: Event)
    requires
        state.wf(),
        state.queue.len() == state.limit,
    ensures
        !state.accepts(),
        state.push(event) == state,
{
}

/// At no moment is more than one sync of a task in flight: after every
/// sequence of pushes, polls and reports, and so also while a sync of the
/// task runs and more triggers for it come in. A task that is not in the
/// running set has none.
pub proof fn lemma_one_sync_per_task(start: DispatchState, steps: Seq<Step>, task: Seq<char>)
    ensures
        start.active(steps, task) <= 1,
        !start.run(steps).running.contains(task) ==> start.active(steps, task) <= 0,
    decreases steps.len(),
{
    if steps.len() > 0 {
        lemma_one_sync_per_task(start, steps.drop_last(), task);
    }
}

/// Where only workers that were started report back, the running set
/// names exactly the tasks that have a sync in flight.
pub proof fn lemma_running_set_is_exact(start: DispatchState, steps: Seq<Step>, task: Seq<char>)
    requires
        start.orderly(steps),
    ensures
        start.active(steps, task) == (if start.run(steps).running.contains(task) {
            1int
        } else {
            0int
        }),
    decreases steps.len(),
{
    if steps.len() > 0 {
        let earlier = steps.drop_last();
        let k = steps.len() - 1;
        assert forall|j: int| 0 <= j < earlier.len() implies (#[trigger] earlier[j] matches Step::Finish(
            t,
        ) ==> start.active(earlier.take(j), t) > 0) by {
            assert(earlier[j] == steps[j]);
            assert(earlier.take(j) =~= steps.take(j));
        }
        lemma_running_set_is_exact(start, earlier, task);
        match steps.last() {
            Step::Finish(t) => {
                assert(steps[k] == steps.last());
                assert(steps.take(k) =~= earlier);
            },
            _ => {},
        }
    }
}

/// A poll that finds the task of the oldest event busy neither drops the
/// event nor starts a worker: the event goes to the back of the queue and
/// the running tasks stay as they were.
pub proof fn lemma_busy_event_requeued(state: DispatchState, shutdown: bool)
    requires
        state.queue.len() > 0,
        state.queue[0].valid(),
        state.running.contains(state.queue[0].task()),
    ensures
        state.decide(shutdown) == Decision::Requeued(state.queue[0]),
        state.tick(shutdown).queue == state.queue.drop_first().push(state.queue[0]),
        state.tick(shutdown).queue.last() == state.queue[0],
        state.tick(shutdown).queue.len() == state.queue.len(),
        state.tick(shutdown).running == state.running,
{
}

/// A waiting event moves one place towards the front with every poll and
/// is overtaken by nothing: with `i` events before it, it is the oldest
/// after `i` polls, whatever was pushed or finished in between, so the
/// poll after those decides on it.
pub proof fn lemma_event_reaches_head(start: DispatchState, steps: Seq<Step>, i: int)
    requires
        start.wf(),
        0 <= i < start.queue.len(),
        polls(steps) <= i,
    ensures
        i - polls(steps) < start.run(steps).queue.len(),
        start.run(steps).queue[i - polls(steps)] == start.queue[i],
    decreases steps.len(),
{
    if steps.len() > 0 {
        let earlier = steps.drop_last();
        lemma_event_reaches_head(start, earlier, i);
        lemma_run_bounded(start, earlier);
    }
}

/// A poll ends the loop only when shutdown was asked for and nothing
/// waits.
pub proof fn lemma_stop_only_when_drained(state: DispatchState, shutdown: bool)
    ensures
        state.decide(shutdown) == Decision::Stop <==> shutdown && state.queue.len() == 0,
        state.decide(shutdown) == Decision::Stop ==> state.tick(shutdown) == state,
{
}

/// A poll loses no request: a valid event that waited before the poll
/// still waits after it, or is the one that a worker was started for.
/// Shutdown makes no difference.
pub proof fn lemma_tick_keeps_requests(state: DispatchState, shutdown: bool, i: int)
    requires
        0 <= i < state.queue.len(),
        state.queue[i].valid(),
    ensures
        state.tick(shutdown).queue.contains(state.queue[i]) || state.decide(shutdown)
            == Decision::Spawn(state.queue[i]),
{
    let after = state.tick(shutdown).queue;
    if i > 0 {
        assert(after[i - 1] == state.queue[i]);
    } else if state.running.contains(state.queue[0].task()) {
        assert(after[after.len() - 1] == state.queue[0]);
    }
}

/// `count` polls in a row, each with the shutdown flag as given.
pub open spec fn poll_times(count: nat, shutdown: bool) -> Seq<Step> {
    Seq::new(count, |i: int| Step::Tick(shutdown))
}

/// The queue holds requests only, for tasks that differ from one another
/// and of which none is running.
pub open spec fn ready_to_drain(state: DispatchState) -> bool {
    &&& forall|i: int| 0 <= i < state.queue.len() ==> (#[trigger] state.queue[i]).valid()
    &&& forall|i: int|
        0 <= i < state.queue.len() ==> !state.running.contains((#[trigger] state.queue[i]).task())
    &&& forall|i: int, j: int|
        0 <= i < j < state.queue.len() ==> (#[trigger] state.queue[i]).task() != (
        #[trigger] state.queue[j]).task()
}

/// Shutdown discards nothing: with the flag set, the polls start a worker
/// for each waiting request, oldest first, and only the poll after the
/// last of them ends the loop.
pub proof fn lemma_shutdown_drains(state: DispatchState, k: nat)
    requires
        ready_to_drain(state),
        k <= state.queue.len(),
    ensures
        state.run(poll_times(k, true)).queue == state.queue.skip(k as int),
        ready_to_drain(state.run(poll_times(k, true))),
        k < state.queue.len() ==> state.run(poll_times(k, true)).decide(true) == Decision::Spawn(
            state.queue[k as int],
        ),
        k == state.queue.len() ==> state.run(poll_times(k, true)).decide(true) == Decision::Stop,
        forall|i: int|
            0 <= i < k ==> state.run(poll_times(k, true)).running.contains(
                (#[trigger] state.queue[i]).task(),
            ),
    decreases k,
{
    let steps = poll_times(k, true);
    if k == 0 {
        assert(state.queue.skip(0) =~= state.queue);
    } else {
        let before = (k - 1) as nat;
        lemma_shutdown_drains(state, before);
        assert(steps.drop_last() =~= poll_times(before, true));
        assert(steps.last() == Step::Tick(true));
        let at = state.run(poll_times(before, true));
        let after = state.run(steps);
        assert(at.queue[0] == state.queue[before as int]);
        assert(after == at.tick(true));
        assert(after.queue =~= state.queue.skip(k as int));
        assert forall|i: int| 0 <= i < after.queue.len() implies (#[trigger] after.queue[i]).valid()
            && !after.running.contains(after.queue[i].task()) by {
            assert(after.queue[i] == at.queue[i + 1]);
        }
        assert forall|i: int, j: int| 0 <= i < j < after.queue.len() implies (
        #[trigger] after.queue[i]).task() != (#[trigger] after.queue[j]).task() by {
            assert(after.queue[i] == at.queue[i + 1]);
            assert(after.queue[j] == at.queue[j + 1]);
        }
        if k < state.queue.len() {
            assert(after.queue[0] == state.queue[k as int]);
        }
    }
}

} // verus!
