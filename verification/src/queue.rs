//! The event queue shared between the OS callback (producer) and the
//! application's poll loop (consumer), with its mutual-exclusion contract
//! modeled explicitly.

use vstd::prelude::*;
use crate::event::MediaControlEvent;

verus! {

/// FIFO buffer of transport events, with an explicit model of the producer's
/// critical section.
///
/// Two actors share the queue: the OS callback thread appends, and the
/// application thread drains once per poll tick. The host glue that actually
/// shares the queue across threads guards it with a single mutual-exclusion
/// primitive whose consumer-side access is non-blocking: a drain attempted
/// while the producer is inside its critical section yields nothing this tick
/// and leaves the queue untouched, so a deferred event is delivered one tick
/// later, never lost. The producer-lock flag here models that critical
/// section, so the deferral policy is stated and checked; a simulated
/// producer (or a test) holds and releases it explicitly.
pub struct EventQueue {
    items: Vec<MediaControlEvent>,
    producer_locked: bool,
}

impl View for EventQueue {
    type V = Seq<MediaControlEvent>;

    /// The events currently queued, oldest first.
    closed spec fn view(&self) -> Seq<MediaControlEvent> {
        self.items@
    }
}

impl EventQueue {
    /// Whether the producer currently holds the queue's lock (is inside the
    /// bounded critical section of a push).
    pub closed spec fn producer_locked(&self) -> bool {
        self.producer_locked
    }

    /// An empty queue with the producer outside its critical section.
    pub fn new() -> (q: EventQueue)
        ensures
            q@ == Seq::<MediaControlEvent>::empty(),
            !q.producer_locked(),
    {
        EventQueue { items: Vec::new(), producer_locked: false }
    }

    /// Producer side: appends one event at the tail.
    ///
    /// Models a whole producer critical section (enter, append, leave), so it
    /// never reorders, drops or duplicates events and leaves the lock state
    /// as it found it.
    pub fn push(&mut self, event: MediaControlEvent)
        ensures
            final(self)@ == old(self)@.push(event),
            final(self).producer_locked() == old(self).producer_locked(),
    {
        self.items.push(event);
    }

    /// Marks the producer as inside its critical section, as when the OS
    /// callback is mid-push on its own thread.
    pub fn hold_producer_lock(&mut self)
        ensures
            final(self)@ == old(self)@,
            final(self).producer_locked(),
    {
        self.producer_locked = true;
    }

    /// Marks the producer as back outside its critical section.
    pub fn release_producer_lock(&mut self)
        ensures
            final(self)@ == old(self)@,
            !final(self).producer_locked(),
    {
        self.producer_locked = false;
    }

    /// Consumer side: a non-blocking drain attempt.
    ///
    /// If the producer holds the lock, returns at once with no events and the
    /// queue untouched: the tick is deferred, nothing is discarded. Otherwise
    /// removes and returns every queued event, oldest first.
    pub fn try_drain(&mut self) -> (drained: Vec<MediaControlEvent>)
        ensures
            old(self).producer_locked() ==> drained@ == Seq::<MediaControlEvent>::empty()
                && final(self)@ == old(self)@,
            !old(self).producer_locked() ==> drained@ == old(self)@
                && final(self)@ == Seq::<MediaControlEvent>::empty(),
            final(self).producer_locked() == old(self).producer_locked(),
    {
        if self.producer_locked {
            Vec::new()
        } else {
            let mut drained: Vec<MediaControlEvent> = Vec::new();
            core::mem::swap(&mut drained, &mut self.items);
            drained
        }
    }

    /// How many events are queued.
    pub fn len(&self) -> (n: usize)
        ensures
            n == self@.len(),
    {
        self.items.len()
    }
}

/// The queue contents after a sequence of pushes, in the order they are made.
pub open spec fn after_pushes(
    q: Seq<MediaControlEvent>,
    pushes: Seq<MediaControlEvent>,
) -> Seq<MediaControlEvent>
    decreases pushes.len(),
{
    if pushes.len() == 0 {
        q
    } else {
        after_pushes(q.push(pushes[0]), pushes.drop_first())
    }
}

/// Pushing a sequence of events appends it to the queue contents.
pub proof fn lemma_after_pushes_appends(
    q: Seq<MediaControlEvent>,
    pushes: Seq<MediaControlEvent>,
)
    ensures
        after_pushes(q, pushes) == q + pushes,
    decreases pushes.len(),
{
    if pushes.len() == 0 {
        assert(after_pushes(q, pushes) == q);
        assert(q + pushes == q);
    } else {
        lemma_after_pushes_appends(q.push(pushes[0]), pushes.drop_first());
        assert(q.push(pushes[0]) + pushes.drop_first() == q + pushes);
    }
}

/// FIFO law: any sequence of pushes into an empty queue, followed by an
/// uncontended drain, yields exactly those events in push order — none lost,
/// none duplicated, none reordered. The drain's own contract returns the
/// queue contents verbatim, so it suffices that the pushes build exactly the
/// pushed sequence.
pub proof fn lemma_fifo(pushes: Seq<MediaControlEvent>)
    ensures
        after_pushes(Seq::<MediaControlEvent>::empty(), pushes) == pushes,
{
    lemma_after_pushes_appends(Seq::<MediaControlEvent>::empty(), pushes);
    assert(Seq::<MediaControlEvent>::empty() + pushes == pushes);
}

} // verus!
