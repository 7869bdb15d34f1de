//! Producer steps.
//!
//! The button watcher waits on the two falling-edge inputs; on each edge it
//! increments the pressed button's counter and offers the whole counter
//! pair to the button channel without blocking. A view whose slot is still
//! occupied keeps its older pending pair and this newer one is dropped for
//! it: the consumer catches up on its next successful read, so count
//! delivery is best-effort by design. The edge waiting itself is the
//! caller's concern.

use vstd::prelude::*;
use crate::channel::{fanout_after_send, FanoutChannel};
use crate::event::{spec_record, ButtonEdge, PressCounts};

verus! {

/// Handles one falling edge: records the press and broadcasts the updated
/// counter pair to every consumer view, never blocking and never
/// overwriting a view's pending pair.
pub fn button_edge_step(
    presses: &mut PressCounts,
    edge: ButtonEdge,
    channel: &mut FanoutChannel<PressCounts>,
)
    ensures
        *final(presses) == spec_record(*old(presses), edge),
        final(channel)@ == fanout_after_send(old(channel)@, spec_record(*old(presses), edge)),
{
    presses.record(edge);
    channel.send(*presses);
}

} // verus!
