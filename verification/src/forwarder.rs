//! The firmware-update queue and forwarder.
//!
//! Update events must not be silently dropped under transient load, so they
//! travel through a bounded queue of capacity ten rather than a single slot.
//! The forwarder drains the queue one event at a time and hands each to the
//! update-apply interface sequentially; an apply failure discards that event
//! only and never stops the forwarder from attempting the next one.

use vstd::prelude::*;
use crate::event::UpdateEvent;

verus! {

/// Capacity of the update queue.
pub const UPDATE_QUEUE_CAPACITY: usize = 10;

/// A bounded first-in-first-out queue of firmware-update events.
pub struct UpdateQueue {
    items: Vec<UpdateEvent>,
}

impl View for UpdateQueue {
    type V = Seq<UpdateEvent>;

    closed spec fn view(&self) -> Seq<UpdateEvent> {
        self.items@
    }
}

/// Queue contents after a non-blocking send: a full queue drops the new
/// event; otherwise it is appended at the back.
pub open spec fn queue_after_send(q: Seq<UpdateEvent>, e: UpdateEvent) -> Seq<UpdateEvent> {
    if q.len() < UPDATE_QUEUE_CAPACITY {
        q.push(e)
    } else {
        q
    }
}

impl UpdateQueue {
    /// Every queue the library hands out stays within its capacity.
    pub open spec fn wf(&self) -> bool {
        self@.len() <= UPDATE_QUEUE_CAPACITY
    }

    /// An empty queue.
    pub fn new() -> (r: UpdateQueue)
        ensures
            r@ == Seq::<UpdateEvent>::empty(),
            r.wf(),
    {
        UpdateQueue { items: Vec::new() }
    }

    /// The number of queued events.
    pub fn len(&self) -> (n: usize)
        ensures
            n == self@.len(),
    {
        self.items.len()
    }

    /// Offers an event without blocking. A full queue returns false and
    /// drops the offered event (the peer retries update operations at the
    /// protocol level); otherwise the event is appended.
    pub fn try_send(&mut self, e: UpdateEvent) -> (accepted: bool)
        requires
            old(self).wf(),
        ensures
            final(self)@ == queue_after_send(old(self)@, e),
            accepted == (old(self)@.len() < UPDATE_QUEUE_CAPACITY),
            final(self).wf(),
    {
        if self.items.len() < UPDATE_QUEUE_CAPACITY {
            self.items.push(e);
            true
        } else {
            false
        }
    }

    /// Takes the oldest queued event, if any.
    pub fn try_receive(&mut self) -> (r: Option<UpdateEvent>)
        requires
            old(self).wf(),
        ensures
            old(self)@.len() == 0 ==> r is None && final(self)@ == old(self)@,
            old(self)@.len() > 0 ==> r == Some(old(self)@[0]) && final(self)@ == old(self)@.drop_first(),
            final(self).wf(),
    {
        if self.items.len() == 0 {
            None
        } else {
            let e = self.items.remove(0);
            proof {
                assert(self.items@ =~= old(self)@.drop_first());
            }
            Some(e)
        }
    }
}

/// Hands the forwarder its next event to apply. The outcome of the previous
/// apply is passed in but deliberately ignored: a failed apply is dropped
/// and never retried (retrying a partially applied firmware write is
/// unsafe), so the next attempt is always the oldest queued event, whatever
/// happened to the one before it.
pub fn forwarder_next(queue: &mut UpdateQueue, _previous_apply_failed: bool) -> (r: Option<
    UpdateEvent,
>)
    requires
        old(queue).wf(),
    ensures
        old(queue)@.len() == 0 ==> r is None && final(queue)@ == old(queue)@,
        old(queue)@.len() > 0 ==> r == Some(old(queue)@[0]) && final(queue)@ == old(
            queue,
        )@.drop_first(),
        final(queue).wf(),
{
    queue.try_receive()
}

/// The sequence of events the forwarder hands to the update-apply
/// interface when it drains a queue, given the apply outcome of each
/// attempt in turn (true = applied, false = apply failed).
pub open spec fn forwarder_attempts(queue: Seq<UpdateEvent>, outcomes: Seq<bool>) -> Seq<
    UpdateEvent,
>
    decreases queue.len(),
{
    if queue.len() == 0 {
        Seq::empty()
    } else {
        seq![queue[0]] + forwarder_attempts(queue.drop_first(), outcomes.drop_first())
    }
}

/// Law: update isolation. Draining a queue attempts every queued event in
/// order, whatever the apply outcomes were; in particular an apply failure
/// for one event never prevents the attempt of the events after it.
pub proof fn lemma_update_isolation(queue: Seq<UpdateEvent>, outcomes: Seq<bool>)
    ensures
        forwarder_attempts(queue, outcomes) == queue,
    decreases queue.len(),
{
    if queue.len() == 0 {
        assert(forwarder_attempts(queue, outcomes) =~= queue);
    } else {
        lemma_update_isolation(queue.drop_first(), outcomes.drop_first());
        assert(forwarder_attempts(queue, outcomes) =~= queue);
    }
}

} // verus!
