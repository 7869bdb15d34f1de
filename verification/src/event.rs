//! Event types flowing through the coordination subsystem.
//!
//! Producers publish `PressCounts` and `AccelSample` values into bounded
//! channels; the protocol session delivers `ProtocolEvent`s; the periodic
//! timer delivers ticks. A coordinator handles exactly one `Event` per
//! iteration.

use vstd::prelude::*;

verus! {

/// Cumulative press counters for the two buttons, published as a pair so a
/// consumer always sees a consistent snapshot.
#[derive(Clone, Copy, PartialEq, Eq, Structural, Debug)]
pub struct PressCounts {
    pub a: u32,
    pub b: u32,
}

/// Which button produced a falling edge.
#[derive(Clone, Copy, PartialEq, Eq, Structural, Debug)]
pub enum ButtonEdge {
    A,
    B,
}

impl PressCounts {
    /// Fresh counters, all zero.
    pub fn new() -> (r: PressCounts)
        ensures
            r == (PressCounts { a: 0, b: 0 }),
    {
        PressCounts { a: 0, b: 0 }
    }

    /// Records one falling edge on the given button. The counters are
    /// best-effort diagnostics and wrap around at the 32-bit limit rather
    /// than halting the producer.
    pub fn record(&mut self, edge: ButtonEdge)
        ensures
            *final(self) == spec_record(*old(self), edge),
    {
        match edge {
            ButtonEdge::A => {
                self.a = wrap_increment(self.a);
            }
            ButtonEdge::B => {
                self.b = wrap_increment(self.b);
            }
        }
    }
}

/// Counter pair after one recorded edge.
pub open spec fn spec_record(p: PressCounts, edge: ButtonEdge) -> PressCounts {
    match edge {
        ButtonEdge::A => PressCounts { a: spec_wrap_increment(p.a), b: p.b },
        ButtonEdge::B => PressCounts { a: p.a, b: spec_wrap_increment(p.b) },
    }
}

/// A 32-bit counter incremented with wrap-around.
pub open spec fn spec_wrap_increment(v: u32) -> u32 {
    if v == u32::MAX {
        0
    } else {
        (v + 1) as u32
    }
}

fn wrap_increment(v: u32) -> (r: u32)
    ensures
        r == spec_wrap_increment(v),
{
    if v == u32::MAX {
        0
    } else {
        v + 1
    }
}

/// One three-axis accelerometer sample.
#[derive(Clone, Copy, PartialEq, Eq, Structural, Debug)]
pub struct AccelSample {
    pub x: i16,
    pub y: i16,
    pub z: i16,
}

/// An opaque firmware-update protocol event. The coordinator and the update
/// forwarder never look inside it; the token identifies the event for
/// queueing and hand-off to the update-apply interface.
#[derive(Clone, Copy, PartialEq, Eq, Structural, Debug)]
pub struct UpdateEvent {
    pub token: u32,
}

/// An inbound protocol request, dispatched by subtype.
#[derive(Clone, Copy, PartialEq, Eq, Structural, Debug)]
pub enum ProtocolEvent {
    /// The peer toggled temperature notifications.
    TemperatureCccdWrite { notifications: bool },
    /// The peer wrote a new tick interval in seconds.
    IntervalWrite { seconds: u16 },
    /// The peer toggled button notifications.
    ButtonsCccdWrite { notifications: bool },
    /// The peer toggled accelerometer notifications.
    AccelCccdWrite { notifications: bool },
    /// A firmware-update event to forward to the update queue.
    Update { event: UpdateEvent },
    /// Any other subtype; ignored.
    Unrecognized,
}

/// One input to a coordinator iteration: exactly one of the four awaited
/// sources became ready, or the protocol session ended.
#[derive(Clone, Copy, PartialEq, Eq, Structural, Debug)]
pub enum Event {
    /// An inbound protocol request arrived on the open session.
    Protocol { event: ProtocolEvent },
    /// The protocol session ended, normally or with a session-level error.
    SessionEnd { error: bool },
    /// The periodic timer elapsed; carries the temperature read on this
    /// tick, in whole degrees Celsius.
    Tick { celsius: i8 },
    /// A counter snapshot arrived on the button channel.
    Buttons { presses: PressCounts },
    /// A sample arrived on the accelerometer channel.
    Accel { sample: AccelSample },
}

} // verus!
