//! Bounded single-slot channels with fan-out.
//!
//! A `Slot` is a mailbox holding at most one pending value. A send on a full
//! slot never blocks and never overwrites: the producer's new value is the
//! one discarded. A `FanoutChannel` broadcasts each sent value to a set of
//! independent slots, one per consumer, so every consumer observes its own
//! view of the producer's stream and draining one view leaves the others
//! untouched.
//!
//! The operations here are the atomic slot transitions; waiting for a value
//! to arrive is the caller's concern.

use vstd::prelude::*;

verus! {

/// Slot contents after a send: a full slot keeps its pending value and the
/// new value is discarded; an empty slot takes the new value.
pub open spec fn slot_after_send<T>(slot: Option<T>, v: T) -> Option<T> {
    match slot {
        Some(pending) => Some(pending),
        None => Some(v),
    }
}

/// Law: sending to a full slot never overwrites the pending value; what a
/// subsequent receive drains is the originally pending value, not the
/// newly offered one.
pub proof fn lemma_channel_backpressure<T>(pending: T, newer: T)
    ensures
        slot_after_send(Some(pending), newer) == Some(pending),
{
}

/// A single-slot mailbox.
pub struct Slot<T> {
    value: Option<T>,
}

impl<T> View for Slot<T> {
    type V = Option<T>;

    closed spec fn view(&self) -> Option<T> {
        self.value
    }
}

impl<T> Slot<T> {
    /// An empty slot.
    pub fn new() -> (r: Slot<T>)
        ensures
            r@ is None,
    {
        Slot { value: None }
    }

    /// Offers a value without blocking. Returns false and discards the
    /// offered value if the slot is occupied; otherwise stores it.
    pub fn send(&mut self, v: T) -> (accepted: bool)
        ensures
            final(self)@ == slot_after_send(old(self)@, v),
            accepted == old(self)@ is None,
    {
        match self.value {
            Some(_) => false,
            None => {
                self.value = Some(v);
                true
            }
        }
    }

    /// Drains the slot: returns the pending value, if any, and leaves the
    /// slot empty.
    pub fn try_receive(&mut self) -> (r: Option<T>)
        ensures
            r == old(self)@,
            final(self)@ is None,
    {
        self.value.take()
    }
}

/// Fan-out slot states after a broadcast send: each empty view takes the
/// value, each full view keeps its pending value.
pub open spec fn fanout_after_send<T>(views: Seq<Option<T>>, v: T) -> Seq<Option<T>> {
    views.map_values(|slot: Option<T>| slot_after_send(slot, v))
}

/// Fan-out slot states after one view is drained: only that view changes.
pub open spec fn fanout_after_receive<T>(views: Seq<Option<T>>, i: int) -> Seq<Option<T>> {
    views.update(i, None)
}

/// Law: views of a fan-out channel are independent: draining view `i`
/// leaves the pending value of every other view unchanged, and a broadcast
/// send treats each view by the single-slot rule separately.
pub proof fn lemma_fanout_independence<T>(views: Seq<Option<T>>, i: int, j: int, v: T)
    requires
        0 <= i < views.len(),
        0 <= j < views.len(),
        i != j,
    ensures
        fanout_after_receive(views, i)[j] == views[j],
        fanout_after_send(views, v)[j] == slot_after_send(views[j], v),
{
}

/// A broadcast channel with one independent single-slot view per consumer.
pub struct FanoutChannel<T> {
    views: Vec<Option<T>>,
}

impl<T> View for FanoutChannel<T> {
    type V = Seq<Option<T>>;

    closed spec fn view(&self) -> Seq<Option<T>> {
        self.views@
    }
}

impl<T: Copy> FanoutChannel<T> {
    /// A channel with no consumer views yet.
    pub fn new() -> (r: FanoutChannel<T>)
        ensures
            r@ == Seq::<Option<T>>::empty(),
    {
        FanoutChannel { views: Vec::new() }
    }

    /// The number of consumer views.
    pub fn view_count(&self) -> (n: usize)
        ensures
            n == self@.len(),
    {
        self.views.len()
    }

    /// Adds an independent consumer view, initially empty, and returns its
    /// index.
    pub fn add_view(&mut self) -> (i: usize)
        ensures
            i == old(self)@.len(),
            final(self)@ == old(self)@.push(None),
    {
        let i = self.views.len();
        self.views.push(None);
        i
    }

    /// Broadcasts a value: every empty view takes it; every occupied view
    /// keeps its pending value (the new value is dropped for that view).
    /// Never blocks.
    pub fn send(&mut self, v: T)
        ensures
            final(self)@ == fanout_after_send(old(self)@, v),
    {
        let n = self.views.len();
        let mut i: usize = 0;
        while i < n
            invariant
                n == self.views.len(),
                i <= n,
                self@.len() == old(self)@.len(),
                forall|j: int| 0 <= j < i ==> self@[j] == slot_after_send(old(self)@[j], v),
                forall|j: int| i <= j < n ==> self@[j] == old(self)@[j],
            decreases n - i,
        {
            let cur = self.views[i];
            if cur.is_none() {
                self.views[i] = Some(v);
            }
            i = i + 1;
        }
        proof {
            assert(self@ =~= fanout_after_send(old(self)@, v));
        }
    }

    /// Drains view `i`: returns its pending value, if any, and leaves it
    /// empty. No other view is affected.
    pub fn try_receive(&mut self, i: usize) -> (r: Option<T>)
        requires
            i < old(self)@.len(),
        ensures
            r == old(self)@[i as int],
            final(self)@ == fanout_after_receive(old(self)@, i as int),
    {
        let r = self.views[i];
        self.views[i] = None;
        r
    }
}

} // verus!
