//! The bounded queue of trigger events.

use super::types::Event;
use thingbuf::recycling::DefaultRecycle;
use thingbuf::ThingBuf;
use vstd::prelude::*;

verus! {

/// `thingbuf::ThingBuf`, the bounded queue of that crate, as an opaque
/// type.
#[verifier::external_type_specification]
#[verifier::external_body]
#[verifier::reject_recursive_types(T)]
#[verifier::reject_recursive_types(R)]
pub struct ExThingBuf<T, R>(ThingBuf<T, R>);

/// `thingbuf::recycling::DefaultRecycle`, the policy by which a
/// `ThingBuf` makes the elements of its empty slots, as an opaque type.
#[verifier::external_type_specification]
#[verifier::external_body]
pub struct ExDefaultRecycle(DefaultRecycle);

/// The events that a buffer holds, oldest first.
pub uninterp spec fn buffered(buffer: ThingBuf<Event>) -> Seq<Event>;

/// The number of events that a buffer was made to hold.
pub uninterp spec fn buffer_limit(buffer: ThingBuf<Event>) -> nat;

/// The largest capacity that a queue can be made with.
pub const MAX_QUEUE_CAPACITY: usize = 65536;

/// The capacity of a queue made without naming one.
pub const DEFAULT_QUEUE_CAPACITY: usize = 100;

/// `ThingBuf::new`: an empty buffer with room for `capacity` elements. The
/// call panics on a capacity of zero and allocates all slots at once, so
/// both ends are bounded here.
#[verifier::external_body]
fn buffer_new(capacity: usize) -> (b: ThingBuf<Event>)
    requires
        0 < capacity <= MAX_QUEUE_CAPACITY,
    ensures
        buffered(b) == Seq::<Event>::empty(),
        buffer_limit(b) == capacity,
{
    ThingBuf::new(capacity)
}

/// `ThingBuf::push` with nobody else at the buffer: where a slot is free
/// the element goes to the back; where none is, the buffer stays as it
/// was and the element comes back in the error. The call does not panic.
#[verifier::external_body]
fn buffer_push(b: &mut ThingBuf<Event>, event: Event) -> (r: Result<(), Event>)
    ensures
        buffer_limit(*final(b)) == buffer_limit(*old(b)),
        buffered(*old(b)).len() < buffer_limit(*old(b)) ==> r is Ok && buffered(*final(b))
            == buffered(*old(b)).push(event),
        buffered(*old(b)).len() >= buffer_limit(*old(b)) ==> r is Err && r->Err_0 == event
            && buffered(*final(b)) == buffered(*old(b)),
    no_unwind
{
    match b.push(event) {
        Ok(()) => Ok(()),
        Err(full) => Err(full.into_inner()),
    }
}

/// `ThingBuf::pop` with nobody else at the buffer: the oldest element
/// leaves and is returned, or `None` where the buffer is empty. The call
/// does not panic.
#[verifier::external_body]
fn buffer_pop(b: &mut ThingBuf<Event>) -> (r: Option<Event>)
    ensures
        buffer_limit(*final(b)) == buffer_limit(*old(b)),
        buffered(*old(b)).len() == 0 ==> r is None && buffered(*final(b)) == buffered(*old(b)),
        buffered(*old(b)).len() > 0 ==> r == Some(buffered(*old(b)).first()) && buffered(*final(b))
            == buffered(*old(b)).drop_first(),
    no_unwind
{
    b.pop()
}

/// `ThingBuf::len`: the number of elements in the buffer.
#[verifier::external_body]
fn buffer_len(b: &ThingBuf<Event>) -> (n: usize)
    ensures
        n == buffered(*b).len(),
{
    b.len()
}

/// `ThingBuf::capacity`: the number of slots that the buffer was made with.
#[verifier::external_body]
fn buffer_capacity(b: &ThingBuf<Event>) -> (n: usize)
    ensures
        n == buffer_limit(*b),
{
    b.capacity()
}

/// A first-in, first-out queue of trigger events with a fixed capacity.
/// A push on a full queue is refused; nothing ever waits.
pub struct EventQueue {
    buffer: ThingBuf<Event>,
}

impl View for EventQueue {
    type V = Seq<Event>;

    closed spec fn view(&self) -> Seq<Event> {
        buffered(self.buffer)
    }
}

impl EventQueue {
    /// The number of events that the queue can hold.
    pub closed spec fn limit(&self) -> nat {
        buffer_limit(self.buffer)
    }

    /// A queue has room for at least one event and never holds more than
    /// its capacity.
    #[verifier::type_invariant]
    pub open spec fn within_capacity(&self) -> bool {
        0 < self.limit() <= MAX_QUEUE_CAPACITY && self@.len() <= self.limit()
    }

    /// An empty queue for up to `capacity` events.
    pub fn new(capacity: usize) -> (q: EventQueue)
        requires
            0 < capacity <= MAX_QUEUE_CAPACITY,
        ensures
            q@ == Seq::<Event>::empty(),
            q.limit() == capacity,
    {
        EventQueue { buffer: buffer_new(capacity) }
    }

    /// An empty queue of the default capacity.
    pub fn with_default_capacity() -> (q: EventQueue)
        ensures
            q@ == Seq::<Event>::empty(),
            q.limit() == DEFAULT_QUEUE_CAPACITY,
    {
        EventQueue::new(DEFAULT_QUEUE_CAPACITY)
    }

    /// Appends `event` where there is room. On a full queue nothing
    /// changes and the event comes back.
    pub fn push(&mut self, event: Event) -> (r: Result<(), Event>)
        ensures
            final(self).limit() == old(self).limit(),
            final(self)@.len() <= final(self).limit(),
            old(self)@.len() < old(self).limit() ==> r is Ok && final(self)@ == old(self)@.push(
                event,
            ),
            old(self)@.len() >= old(self).limit() ==> r is Err && r->Err_0 == event
                && final(self)@ == old(self)@,
    {
        proof {
            use_type_invariant(&*self);
        }
        buffer_push(&mut self.buffer, event)
    }

    /// Removes and returns the oldest event, or `None` on an empty queue.
    pub fn pop(&mut self) -> (r: Option<Event>)
        ensures
            final(self).limit() == old(self).limit(),
            old(self)@.len() == 0 ==> r is None && final(self)@ == old(self)@,
            old(self)@.len() > 0 ==> r == Some(old(self)@.first()) && final(self)@
                == old(self)@.drop_first(),
    {
        proof {
            use_type_invariant(&*self);
        }
        buffer_pop(&mut self.buffer)
    }

    /// The number of events waiting.
    pub fn len(&self) -> (n: usize)
        ensures
            n == self@.len(),
            n <= self.limit(),
    {
        proof {
            use_type_invariant(self);
        }
        buffer_len(&self.buffer)
    }

    pub fn is_empty(&self) -> (r: bool)
        ensures
            r == (self@.len() == 0),
    {
        self.len() == 0
    }

    /// The number of events that the queue can hold.
    pub fn capacity(&self) -> (n: usize)
        ensures
            n == self.limit(),
    {
        proof {
            use_type_invariant(self);
        }
        buffer_capacity(&self.buffer)
    }
}

} // verus!
