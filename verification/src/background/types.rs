//! Trigger events.

use crate::config_parser::TaskId;
use std::time::Instant;
use vstd::prelude::*;

verus! {

/// `std::time::Instant`, a reading of the monotonic clock, as an opaque
/// type.
#[verifier::external_type_specification]
#[verifier::external_body]
pub struct ExInstant(Instant);

/// `Instant::now` of std: the current reading of the monotonic clock.
/// Nothing is known of the value.
#[verifier::external_body]
fn now() -> Instant {
    Instant::now()
}

/// A request to sync one task, stamped with the moment it was made.
///
/// An event made by `Event::new` is valid. `Event::default` makes the
/// sentinel: an event that is not valid and stands for no request.
#[derive(Debug, PartialEq, Eq, Hash)]
pub struct Event {
    valid: bool,
    id: TaskId,
    timestamp: Instant,
}

impl Clone for Event {
    fn clone(&self) -> (r: Self)
        ensures
            r == *self,
    {
        Event { valid: self.valid, id: self.id.clone(), timestamp: self.timestamp }
    }
}

impl Event {
    /// Whether the event is a real request.
    pub closed spec fn valid(&self) -> bool {
        self.valid
    }

    /// The normalized identifier of the task that the event asks for.
    pub closed spec fn task(&self) -> Seq<char> {
        self.id@
    }

    /// The moment at which the event was made.
    pub closed spec fn stamp(&self) -> Instant {
        self.timestamp
    }

    /// A valid event for the task `id`, stamped with the current time.
    pub fn new(id: TaskId) -> (e: Event)
        ensures
            e.valid(),
            e.task() == id@,
    {
        Event { valid: true, id, timestamp: now() }
    }

    pub fn is_valid(&self) -> (r: bool)
        ensures
            r == self.valid(),
    {
        self.valid
    }

    pub fn id(&self) -> (t: &TaskId)
        ensures
            t@ == self.task(),
    {
        &self.id
    }

    pub fn timestamp(&self) -> (t: Instant)
        ensures
            t == self.stamp(),
    {
        self.timestamp
    }
}

impl Default for Event {
    /// The sentinel: not valid, for the empty identifier.
    fn default() -> (e: Event)
        ensures
            !e.valid(),
            e.task() == Seq::<char>::empty(),
    {
        let id = TaskId::new("");
        proof {
            reveal_strlit("");
            assert(id@ =~= Seq::<char>::empty());
        }
        Event { valid: false, id, timestamp: now() }
    }
}

} // verus!
