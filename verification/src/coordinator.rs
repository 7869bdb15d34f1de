//! The per-connection coordinator state machine.
//!
//! While a connection is open, its coordinator waits on four sources —
//! inbound protocol requests, a reconfigurable periodic timer, the button
//! channel and the accelerometer channel — and handles exactly one event
//! per iteration. `ConnectionState::step` is that handling: it updates the
//! per-connection flags and tick interval, forwards firmware-update events
//! into the bounded update queue, and emits the outbound actions (value
//! publications and peer notifications) the caller must perform. The caller
//! owns the waiting; no ordering among simultaneously ready sources is
//! assumed.

use vstd::prelude::*;
use crate::event::{Event, PressCounts, ProtocolEvent, UpdateEvent};
use crate::forwarder::{queue_after_send, UpdateQueue};
use crate::payload::{accel_payload, accel_payload_spec, button_payload, button_payload_spec,
    fahrenheit_tenths, fahrenheit_tenths_spec};

verus! {

/// Tick interval a fresh connection starts with, in seconds.
pub const DEFAULT_TICK_INTERVAL_SECS: u64 = 5;

/// Mutable per-connection record, owned exclusively by one coordinator:
/// which notifications the peer enabled, and the current tick interval.
#[derive(Clone, Copy, PartialEq, Eq, Structural, Debug)]
pub struct ConnectionState {
    pub notify_buttons: bool,
    pub notify_temperature: bool,
    pub notify_accel: bool,
    pub tick_interval_secs: u64,
}

/// An outbound effect the coordinator asks its caller to perform.
#[derive(Debug)]
pub enum Action {
    /// Publish the current temperature value (tenths of a degree
    /// Fahrenheit) as the readable attribute value.
    SetTemperature { value: i16 },
    /// Notify the peer of the current temperature value.
    NotifyTemperature { value: i16 },
    /// Notify the peer with the 2-byte button payload.
    NotifyButtons { payload: Vec<u8> },
    /// Notify the peer with the 12-byte accelerometer payload.
    NotifyAccel { payload: Vec<u8> },
}

/// Mathematical model of an `Action`, with payloads as byte sequences.
pub enum ActionModel {
    SetTemperature { value: i16 },
    NotifyTemperature { value: i16 },
    NotifyButtons { payload: Seq<u8> },
    NotifyAccel { payload: Seq<u8> },
}

impl View for Action {
    type V = ActionModel;

    open spec fn view(&self) -> ActionModel {
        match self {
            Action::SetTemperature { value } => ActionModel::SetTemperature { value: *value },
            Action::NotifyTemperature { value } => ActionModel::NotifyTemperature {
                value: *value,
            },
            Action::NotifyButtons { payload } => ActionModel::NotifyButtons { payload: payload@ },
            Action::NotifyAccel { payload } => ActionModel::NotifyAccel { payload: payload@ },
        }
    }
}

/// State a fresh coordinator starts from: all notifications disabled, the
/// default tick interval.
pub open spec fn spec_initial_state() -> ConnectionState {
    ConnectionState {
        notify_buttons: false,
        notify_temperature: false,
        notify_accel: false,
        tick_interval_secs: DEFAULT_TICK_INTERVAL_SECS,
    }
}

/// Connection state after one event is handled. Only protocol writes change
/// it: notification toggles set the corresponding flag, an interval write
/// records the new tick interval.
pub open spec fn spec_next_state(s: ConnectionState, e: Event) -> ConnectionState {
    match e {
        Event::Protocol { event } => match event {
            ProtocolEvent::TemperatureCccdWrite { notifications } => ConnectionState {
                notify_temperature: notifications,
                ..s
            },
            ProtocolEvent::IntervalWrite { seconds } => ConnectionState {
                tick_interval_secs: seconds as u64,
                ..s
            },
            ProtocolEvent::ButtonsCccdWrite { notifications } => ConnectionState {
                notify_buttons: notifications,
                ..s
            },
            ProtocolEvent::AccelCccdWrite { notifications } => ConnectionState {
                notify_accel: notifications,
                ..s
            },
            ProtocolEvent::Update { .. } => s,
            ProtocolEvent::Unrecognized => s,
        },
        Event::SessionEnd { .. } => s,
        Event::Tick { .. } => s,
        Event::Buttons { .. } => s,
        Event::Accel { .. } => s,
    }
}

/// Outbound actions for one handled event. A tick always publishes the
/// converted temperature and additionally notifies the peer if enabled; a
/// button or accelerometer event notifies the peer exactly once if the
/// corresponding flag is set, and produces nothing otherwise.
pub open spec fn spec_actions(s: ConnectionState, e: Event) -> Seq<ActionModel> {
    match e {
        Event::Tick { celsius } => {
            let value = fahrenheit_tenths_spec(celsius);
            if s.notify_temperature {
                seq![
                    ActionModel::SetTemperature { value },
                    ActionModel::NotifyTemperature { value },
                ]
            } else {
                seq![ActionModel::SetTemperature { value }]
            }
        },
        Event::Buttons { presses } => {
            if s.notify_buttons {
                seq![ActionModel::NotifyButtons { payload: button_payload_spec(presses) }]
            } else {
                Seq::empty()
            }
        },
        Event::Accel { sample } => {
            if s.notify_accel {
                seq![ActionModel::NotifyAccel { payload: accel_payload_spec(sample) }]
            } else {
                Seq::empty()
            }
        },
        _ => Seq::empty(),
    }
}

/// Whether the event ends the coordinator: only the end of the protocol
/// session (normal or with a session-level error) does.
pub open spec fn spec_terminates(e: Event) -> bool {
    e is SessionEnd
}

/// Update-queue contents after one handled event: an update-subtype
/// protocol event is offered to the queue without blocking (a full queue
/// drops it); every other event leaves the queue alone.
pub open spec fn spec_forwarded(q: Seq<UpdateEvent>, e: Event) -> Seq<UpdateEvent> {
    match e {
        Event::Protocol { event: ProtocolEvent::Update { event } } => queue_after_send(q, event),
        _ => q,
    }
}

/// The timer rebuild one handled event requests: an interval write of `n`
/// seconds asks for a timer of `n` seconds before the next iteration;
/// nothing else touches the timer.
pub open spec fn spec_rebuild_interval(e: Event) -> Option<u64> {
    match e {
        Event::Protocol { event: ProtocolEvent::IntervalWrite { seconds } } => Some(
            seconds as u64,
        ),
        _ => None,
    }
}

/// What one coordinator iteration asks of its caller.
pub struct StepOutcome {
    /// Outbound effects to perform, in order.
    pub actions: Vec<Action>,
    /// True when the coordinator must exit (the session ended).
    pub terminate: bool,
    /// When an interval write was handled this iteration, the interval in
    /// seconds the periodic timer must be rebuilt with before the next
    /// wait; the current iteration's timing is unaffected.
    pub rebuild_interval: Option<u64>,
}

impl ConnectionState {
    /// The state a coordinator starts in when a connection is admitted.
    pub fn new() -> (r: ConnectionState)
        ensures
            r == spec_initial_state(),
    {
        ConnectionState {
            notify_buttons: false,
            notify_temperature: false,
            notify_accel: false,
            tick_interval_secs: DEFAULT_TICK_INTERVAL_SECS,
        }
    }

    /// Handles exactly one event: updates the per-connection state, offers
    /// an update-subtype event to the update queue, and returns the
    /// outbound actions to perform, whether to terminate, and any timer
    /// rebuild to apply before the next wait.
    pub fn step(&mut self, event: Event, updates: &mut UpdateQueue) -> (out: StepOutcome)
        requires
            old(updates).wf(),
        ensures
            *final(self) == spec_next_state(*old(self), event),
            out.actions@.map_values(|a: Action| a@) == spec_actions(*old(self), event),
            out.terminate == spec_terminates(event),
            final(updates)@ == spec_forwarded(old(updates)@, event),
            final(updates).wf(),
            out.rebuild_interval == spec_rebuild_interval(event),
    {
        let mut actions: Vec<Action> = Vec::new();
        let mut terminate = false;
        let mut rebuild_interval: Option<u64> = None;
        match event {
            Event::Protocol { event: pe } => match pe {
                ProtocolEvent::TemperatureCccdWrite { notifications } => {
                    self.notify_temperature = notifications;
                }
                ProtocolEvent::IntervalWrite { seconds } => {
                    self.tick_interval_secs = seconds as u64;
                    rebuild_interval = Some(seconds as u64);
                }
                ProtocolEvent::ButtonsCccdWrite { notifications } => {
                    self.notify_buttons = notifications;
                }
                ProtocolEvent::AccelCccdWrite { notifications } => {
                    self.notify_accel = notifications;
                }
                ProtocolEvent::Update { event: update } => {
                    let _ = updates.try_send(update);
                }
                ProtocolEvent::Unrecognized => {}
            },
            Event::SessionEnd { .. } => {
                terminate = true;
            }
            Event::Tick { celsius } => {
                let value = fahrenheit_tenths(celsius);
                actions.push(Action::SetTemperature { value });
                if self.notify_temperature {
                    actions.push(Action::NotifyTemperature { value });
                }
            }
            Event::Buttons { presses } => {
                if self.notify_buttons {
                    actions.push(Action::NotifyButtons { payload: button_payload(presses) });
                }
            }
            Event::Accel { sample } => {
                if self.notify_accel {
                    actions.push(Action::NotifyAccel { payload: accel_payload(sample) });
                }
            }
        }
        proof {
            assert(actions@.map_values(|a: Action| a@) =~= spec_actions(*old(self), event));
        }
        StepOutcome { actions, terminate, rebuild_interval }
    }
}

/// Law: interval reconfiguration. An interval write of `n` seconds during
/// an iteration takes effect from the next iteration on: the state after
/// the step carries interval `n` and the step requests a timer rebuild with
/// `n`, while the step itself performs no outbound action; and no event
/// other than an interval write ever changes the interval or requests a
/// rebuild, so the iteration that received the write keeps its own timing.
pub proof fn lemma_interval_reconfiguration(s: ConnectionState, n: u16, e: Event)
    requires
        forall|m: u16| e != (Event::Protocol { event: ProtocolEvent::IntervalWrite { seconds: m } }),
    ensures
        spec_next_state(
            s,
            Event::Protocol { event: ProtocolEvent::IntervalWrite { seconds: n } },
        ).tick_interval_secs == n as u64,
        spec_rebuild_interval(
            Event::Protocol { event: ProtocolEvent::IntervalWrite { seconds: n } },
        ) == Some(n as u64),
        spec_actions(s, Event::Protocol { event: ProtocolEvent::IntervalWrite { seconds: n } })
            == Seq::<ActionModel>::empty(),
        spec_next_state(s, e).tick_interval_secs == s.tick_interval_secs,
        spec_rebuild_interval(e) is None,
{
    assert(spec_actions(
        s,
        Event::Protocol { event: ProtocolEvent::IntervalWrite { seconds: n } },
    ) =~= Seq::<ActionModel>::empty());
    match e {
        Event::Protocol { event: ProtocolEvent::IntervalWrite { seconds } } => {
            assert(e == (Event::Protocol {
                event: ProtocolEvent::IntervalWrite { seconds },
            }));
            assert(false);
        },
        _ => {},
    }
}

/// Law: notification gating. With button notifications disabled, a button
/// event produces no action at all; after the peer toggles them on,
/// replaying the same event produces exactly one notification, carrying the
/// payload built from the current counters.
pub proof fn lemma_notification_gating(s: ConnectionState, presses: PressCounts)
    requires
        !s.notify_buttons,
    ensures
        spec_actions(s, Event::Buttons { presses }) == Seq::<ActionModel>::empty(),
        spec_actions(
            spec_next_state(
                s,
                Event::Protocol { event: ProtocolEvent::ButtonsCccdWrite { notifications: true } },
            ),
            Event::Buttons { presses },
        ) == seq![ActionModel::NotifyButtons { payload: button_payload_spec(presses) }],
{
    assert(spec_actions(s, Event::Buttons { presses }) =~= Seq::<ActionModel>::empty());
}

} // verus!
