//! The background engine: trigger events, their queue, and the dispatcher
//! that turns them into sync runs.
//!
//! The dispatcher decides; it does not wait, sleep or start threads. The
//! program around it polls `Dispatcher::tick` on a fixed interval, starts a
//! worker where a tick says so, and reports back with `Dispatcher::finish`
//! when that worker is done, however it ended.

pub mod gitsync;
pub mod gitsync_laws;
pub mod laws;
pub mod queue;
pub mod running;
pub mod types;

use crate::config_parser::registry::TaskRegistry;
use crate::config_parser::TaskId;
use gitsync::{sync_git, GitSyncWorker, SyncModel, SyncPhase};
use queue::{EventQueue, MAX_QUEUE_CAPACITY};
use running::RunningSet;
use types::Event;
use vstd::prelude::*;

verus! {

/// The pause between two polls of the dispatcher, in milliseconds.
pub const POLL_INTERVAL_MS: u64 = 500;

/// The message with which a worker gives up on a task that is not
/// registered.
pub const TASK_NOT_FOUND: &'static str = "task not found";

/// What the dispatcher holds, as mathematics: the waiting events, oldest
/// first, the capacity of the queue, and the tasks with a sync in flight.
pub struct DispatchState {
    pub queue: Seq<Event>,
    pub limit: nat,
    pub running: Set<Seq<char>>,
}

/// What one poll of the dispatcher comes to.
pub enum Decision {
    /// Nothing waits and shutdown was asked for: the loop ends.
    Stop,
    /// Nothing waits: poll again later.
    Idle,
    /// The oldest event was the sentinel and is dropped.
    Ignored,
    /// The oldest event asks for a task that is being synced: the event
    /// went to the back of the queue.
    Requeued(Event),
    /// The oldest event leaves the queue and a worker starts on it.
    Spawn(Event),
}

/// What can happen to a dispatcher: an event is offered, the loop polls
/// with the shutdown flag as it then stands, or the worker of a task
/// reports that it is done.
pub enum Step {
    Push(Event),
    Tick(bool),
    Finish(Seq<char>),
}

impl DispatchState {
    /// The queue respects its capacity.
    pub open spec fn wf(self) -> bool {
        0 < self.limit && self.queue.len() <= self.limit
    }

    /// Whether an offered event would be taken.
    pub open spec fn accepts(self) -> bool {
        self.queue.len() < self.limit
    }

    /// The state after `event` was offered: appended where there is room,
    /// lost where there is none.
    pub open spec fn push(self, event: Event) -> DispatchState {
        if self.accepts() {
            DispatchState { queue: self.queue.push(event), ..self }
        } else {
            self
        }
    }

    /// The decision of a poll made in this state.
    pub open spec fn decide(self, shutdown: bool) -> Decision {
        if self.queue.len() == 0 {
            if shutdown {
                Decision::Stop
            } else {
                Decision::Idle
            }
        } else if !self.queue[0].valid() {
            Decision::Ignored
        } else if self.running.contains(self.queue[0].task()) {
            Decision::Requeued(self.queue[0])
        } else {
            Decision::Spawn(self.queue[0])
        }
    }

    /// The state after a poll.
    pub open spec fn tick(self, shutdown: bool) -> DispatchState {
        match self.decide(shutdown) {
            Decision::Stop | Decision::Idle => self,
            Decision::Ignored => DispatchState { queue: self.queue.drop_first(), ..self },
            Decision::Requeued(event) => DispatchState {
                queue: self.queue.drop_first().push(event),
                ..self
            },
            Decision::Spawn(event) => DispatchState {
                queue: self.queue.drop_first(),
                running: self.running.insert(event.task()),
                ..self
            },
        }
    }

    /// The state after the worker of `task` reported back.
    pub open spec fn finish(self, task: Seq<char>) -> DispatchState {
        DispatchState { running: self.running.remove(task), ..self }
    }

    /// The state after one step.
    pub open spec fn step(self, step: Step) -> DispatchState {
        match step {
            Step::Push(event) => self.push(event),
            Step::Tick(shutdown) => self.tick(shutdown),
            Step::Finish(task) => self.finish(task),
        }
    }

    /// The state after a sequence of steps, taken in order.
    pub open spec fn run(self, steps: Seq<Step>) -> DispatchState
        decreases steps.len(),
    {
        if steps.len() == 0 {
            self
        } else {
            self.run(steps.drop_last()).step(steps.last())
        }
    }

    /// Whether `step`, taken in this state, starts a worker for `task`.
    pub open spec fn starts(self, step: Step, task: Seq<char>) -> bool {
        step matches Step::Tick(shutdown) && self.decide(shutdown) matches Decision::Spawn(event)
            && event.task() == task
    }

    /// The number of syncs of `task` in flight after `steps`: one if the
    /// task was running at the start, one more for each worker started
    /// for it, one less for each that reported back.
    pub open spec fn active(self, steps: Seq<Step>, task: Seq<char>) -> int
        decreases steps.len(),
    {
        if steps.len() == 0 {
            if self.running.contains(task) {
                1
            } else {
                0
            }
        } else {
            let earlier = steps.drop_last();
            self.active(earlier, task) + (if self.run(earlier).starts(steps.last(), task) {
                1int
            } else {
                0int
            }) - (if steps.last() == Step::Finish(task) {
                1int
            } else {
                0int
            })
        }
    }

    /// Only workers that run report back: each `Finish` in `steps` comes
    /// while a sync of its task is in flight.
    pub open spec fn orderly(self, steps: Seq<Step>) -> bool {
        forall|k: int|
            0 <= k < steps.len() ==> (#[trigger] steps[k] matches Step::Finish(task)
                ==> self.active(steps.take(k), task) > 0)
    }
}

/// The number of polls among `steps`.
pub open spec fn polls(steps: Seq<Step>) -> nat
    decreases steps.len(),
{
    if steps.len() == 0 {
        0
    } else {
        polls(steps.drop_last()) + (if steps.last() is Tick {
            1nat
        } else {
            0nat
        })
    }
}

/// A trigger waiting for its worker: the task it is for and the event that
/// asked for it.
#[derive(Debug)]
pub struct Worker {
    task_id: TaskId,
    event: Event,
}

impl Worker {
    /// The normalized identifier of the task to sync.
    pub closed spec fn task(&self) -> Seq<char> {
        self.task_id@
    }

    /// The event that the worker was started for.
    pub closed spec fn trigger(&self) -> Event {
        self.event
    }

    pub fn new(task_id: TaskId, event: Event) -> (w: Worker)
        ensures
            w.task() == task_id@,
            w.trigger() == event,
    {
        Worker { task_id, event }
    }

    pub fn task_id(&self) -> (t: &TaskId)
        ensures
            t@ == self.task(),
    {
        &self.task_id
    }

    pub fn event(&self) -> (e: &Event)
        ensures
            *e == self.trigger(),
    {
        &self.event
    }

    /// Begins the sync of the worker's task, with the local mirrors under
    /// `clone_root`, or gives up where the task is not registered. The
    /// caller drives the sync to its end and then calls
    /// `Dispatcher::finish`, whatever the sync came to.
    pub fn run(&self, registry: &TaskRegistry, clone_root: &str) -> (r: Result<GitSyncWorker, String>)
        ensures
            r is Ok == registry@.dom().contains(self.task()),
            r matches Ok(sync) ==> sync@ == (SyncModel {
                task: registry@[self.task()],
                root: clone_root@,
                phase: SyncPhase::Probing,
                failure: Seq::<char>::empty(),
            }),
            r matches Err(e) ==> e@ == TASK_NOT_FOUND@,
    {
        if registry.contains(&self.task_id) {
            Ok(sync_git(registry, &self.task_id, clone_root))
        } else {
            Err(TASK_NOT_FOUND.to_owned())
        }
    }
}

/// What the caller of `Dispatcher::tick` has to do next.
#[derive(Debug)]
pub enum Dispatch {
    /// Leave the loop: nothing waits and shutdown was asked for.
    Stop,
    /// Nothing to do before the next poll.
    Idle,
    /// A sentinel was dropped; nothing to do.
    Ignored,
    /// The task is busy and its event went to the back of the queue.
    Requeued(TaskId),
    /// Start this worker. Call `Dispatcher::finish` when it is done.
    Spawn(Worker),
}

/// The queue of trigger events and the set of tasks in flight.
pub struct Dispatcher {
    queue: EventQueue,
    running: RunningSet,
}

impl View for Dispatcher {
    type V = DispatchState;

    closed spec fn view(&self) -> DispatchState {
        DispatchState { queue: self.queue@, limit: self.queue.limit(), running: self.running@ }
    }
}

impl Dispatcher {
    /// A dispatcher with nothing queued and nothing running.
    pub fn new(capacity: usize) -> (d: Dispatcher)
        requires
            0 < capacity <= MAX_QUEUE_CAPACITY,
        ensures
            d@.queue == Seq::<Event>::empty(),
            d@.limit == capacity,
            d@.running == Set::<Seq<char>>::empty(),
            d@.wf(),
    {
        Dispatcher { queue: EventQueue::new(capacity), running: RunningSet::new() }
    }

    /// Offers `event` to the queue. Returns whether it was taken; on a
    /// full queue it is lost and nothing changes.
    pub fn push_event(&mut self, event: Event) -> (taken: bool)
        ensures
            old(self)@.wf(),
            final(self)@.wf(),
            taken == old(self)@.accepts(),
            final(self)@ == old(self)@.push(event),
    {
        proof {
            use_type_invariant(&self.queue);
        }
        let r = self.queue.push(event);
        proof {
            use_type_invariant(&self.queue);
        }
        r.is_ok()
    }

    /// One poll of the queue. The shutdown flag is read by the caller and
    /// handed in as it stands at this poll.
    pub fn tick(&mut self, shutdown: bool) -> (d: Dispatch)
        ensures
            old(self)@.wf(),
            final(self)@.wf(),
            final(self)@ == old(self)@.tick(shutdown),
            match d {
                Dispatch::Stop => old(self)@.decide(shutdown) == Decision::Stop,
                Dispatch::Idle => old(self)@.decide(shutdown) == Decision::Idle,
                Dispatch::Ignored => old(self)@.decide(shutdown) == Decision::Ignored,
                Dispatch::Requeued(id) => old(self)@.decide(shutdown) == Decision::Requeued(
                    old(self)@.queue[0],
                ) && id@ == old(self)@.queue[0].task(),
                Dispatch::Spawn(w) => old(self)@.decide(shutdown) == Decision::Spawn(w.trigger())
                    && w.task() == w.trigger().task(),
            },
    {
        proof {
            use_type_invariant(&self.queue);
        }
        let popped = self.queue.pop();
        proof {
            use_type_invariant(&self.queue);
        }
        match popped {
            None => {
                if shutdown {
                    Dispatch::Stop
                } else {
                    Dispatch::Idle
                }
            },
            Some(event) => {
                if !event.is_valid() {
                    Dispatch::Ignored
                } else if self.running.contains(event.id()) {
                    let id = event.id().clone();
                    let back = self.queue.push(event);
                    proof {
                        use_type_invariant(&self.queue);
                    }
                    match back {
                        Ok(()) => Dispatch::Requeued(id),
                        Err(_) => {
                            // The pop above freed a slot: the push cannot have failed.
                            proof {
                                assert(false);
                            }
                            Dispatch::Ignored
                        },
                    }
                } else {
                    let id = event.id().clone();
                    self.running.insert(event.id().clone());
                    Dispatch::Spawn(Worker::new(id, event))
                }
            },
        }
    }

    /// Records that the worker of `id` is done, whether it succeeded or
    /// not: the task may be dispatched again.
    pub fn finish(&mut self, id: &TaskId)
        ensures
            old(self)@.wf(),
            final(self)@.wf(),
            final(self)@ == old(self)@.finish(id@),
    {
        proof {
            use_type_invariant(&self.queue);
        }
        self.running.remove(id);
    }

    /// Whether a sync of `id` is in flight.
    pub fn is_running(&self, id: &TaskId) -> (r: bool)
        ensures
            r == self@.running.contains(id@),
    {
        self.running.contains(id)
    }

    /// The number of events that wait.
    pub fn pending(&self) -> (n: usize)
        ensures
            n == self@.queue.len(),
            self@.wf(),
    {
        proof {
            use_type_invariant(&self.queue);
        }
        self.queue.len()
    }
}

/// Offers `event` to the dispatcher's queue. Returns whether it was taken:
/// an event offered to a full queue is lost.
pub fn push_event(dispatcher: &mut Dispatcher, event: Event) -> (taken: bool)
    ensures
        old(dispatcher)@.wf(),
        final(dispatcher)@.wf(),
        taken == old(dispatcher)@.accepts(),
        final(dispatcher)@ == old(dispatcher)@.push(event),
{
    dispatcher.push_event(event)
}

} // verus!
