use presenter_core::admission::AdmissionPool;
use presenter_core::coordinator::{Action, ConnectionState, DEFAULT_TICK_INTERVAL_SECS};
use presenter_core::event::{AccelSample, Event, PressCounts, ProtocolEvent, UpdateEvent};
use presenter_core::forwarder::{forwarder_next, UpdateQueue, UPDATE_QUEUE_CAPACITY};

fn fresh() -> (ConnectionState, UpdateQueue) {
    (ConnectionState::new(), UpdateQueue::new())
}

#[test]
fn fresh_state_has_defaults() {
    let (s, _) = fresh();
    assert!(!s.notify_buttons);
    assert!(!s.notify_temperature);
    assert!(!s.notify_accel);
    assert_eq!(s.tick_interval_secs, DEFAULT_TICK_INTERVAL_SECS);
    assert_eq!(s.tick_interval_secs, 5);
}

#[test]
fn tick_publishes_converted_temperature() {
    let (mut s, mut q) = fresh();
    let out = s.step(Event::Tick { celsius: 20 }, &mut q);
    assert!(!out.terminate);
    assert_eq!(out.rebuild_interval, None);
    assert_eq!(out.actions.len(), 1);
    assert!(matches!(out.actions[0], Action::SetTemperature { value: 392 }));
}

#[test]
fn tick_notifies_when_enabled() {
    let (mut s, mut q) = fresh();
    s.step(
        Event::Protocol { event: ProtocolEvent::TemperatureCccdWrite { notifications: true } },
        &mut q,
    );
    let out = s.step(Event::Tick { celsius: 20 }, &mut q);
    assert_eq!(out.actions.len(), 2);
    assert!(matches!(out.actions[0], Action::SetTemperature { value: 392 }));
    assert!(matches!(out.actions[1], Action::NotifyTemperature { value: 392 }));
}

#[test]
fn interval_write_takes_effect_for_the_next_iteration() {
    let (mut s, mut q) = fresh();
    assert_eq!(s.tick_interval_secs, 5);
    let out = s.step(
        Event::Protocol { event: ProtocolEvent::IntervalWrite { seconds: 9 } },
        &mut q,
    );
    // The iteration that received the write performs no outbound action;
    // the timer rebuild applies from the next wait on.
    assert!(out.actions.is_empty());
    assert_eq!(out.rebuild_interval, Some(9));
    assert_eq!(s.tick_interval_secs, 9);
    // Other events leave the interval alone and request no rebuild.
    let out = s.step(Event::Tick { celsius: 0 }, &mut q);
    assert_eq!(out.rebuild_interval, None);
    assert_eq!(s.tick_interval_secs, 9);
}

#[test]
fn button_notifications_are_gated() {
    let (mut s, mut q) = fresh();
    let presses = PressCounts { a: 300, b: 2 };
    // Disabled: replaying a button event produces nothing.
    let out = s.step(Event::Buttons { presses }, &mut q);
    assert!(out.actions.is_empty());
    // Enable, replay the same event: exactly one notification with the
    // current counters, each narrowed to its low byte.
    s.step(
        Event::Protocol { event: ProtocolEvent::ButtonsCccdWrite { notifications: true } },
        &mut q,
    );
    let out = s.step(Event::Buttons { presses }, &mut q);
    assert_eq!(out.actions.len(), 1);
    match &out.actions[0] {
        Action::NotifyButtons { payload } => assert_eq!(payload, &vec![44u8, 2u8]),
        other => panic!("unexpected action {:?}", other),
    }
}

#[test]
fn accel_notifications_are_gated() {
    let (mut s, mut q) = fresh();
    let sample = AccelSample { x: -1, y: 258, z: -32768 };
    let out = s.step(Event::Accel { sample }, &mut q);
    assert!(out.actions.is_empty());
    s.step(
        Event::Protocol { event: ProtocolEvent::AccelCccdWrite { notifications: true } },
        &mut q,
    );
    let out = s.step(Event::Accel { sample }, &mut q);
    assert_eq!(out.actions.len(), 1);
    match &out.actions[0] {
        Action::NotifyAccel { payload } => assert_eq!(
            payload,
            &vec![0xFF, 0xFF, 0, 0, 2, 1, 0, 0, 0, 0x80, 0, 0],
        ),
        other => panic!("unexpected action {:?}", other),
    }
}

#[test]
fn unrecognized_events_are_ignored() {
    let (mut s, mut q) = fresh();
    let before = s;
    let out = s.step(Event::Protocol { event: ProtocolEvent::Unrecognized }, &mut q);
    assert!(out.actions.is_empty());
    assert!(!out.terminate);
    assert_eq!(s, before);
    assert_eq!(q.len(), 0);
}

#[test]
fn session_end_terminates_the_coordinator() {
    let (mut s, mut q) = fresh();
    let out = s.step(Event::SessionEnd { error: true }, &mut q);
    assert!(out.terminate);
    assert!(out.actions.is_empty());
    let out = s.step(Event::SessionEnd { error: false }, &mut q);
    assert!(out.terminate);
}

#[test]
fn update_events_are_queued_and_dropped_when_full() {
    let (mut s, mut q) = fresh();
    for token in 0..(UPDATE_QUEUE_CAPACITY as u32) {
        s.step(
            Event::Protocol { event: ProtocolEvent::Update { event: UpdateEvent { token } } },
            &mut q,
        );
    }
    assert_eq!(q.len(), UPDATE_QUEUE_CAPACITY);
    // The queue is full: the next update event is dropped silently.
    let out = s.step(
        Event::Protocol { event: ProtocolEvent::Update { event: UpdateEvent { token: 99 } } },
        &mut q,
    );
    assert!(out.actions.is_empty());
    assert_eq!(q.len(), UPDATE_QUEUE_CAPACITY);
    // Drained in arrival order; the dropped event never shows up.
    for token in 0..(UPDATE_QUEUE_CAPACITY as u32) {
        assert_eq!(q.try_receive(), Some(UpdateEvent { token }));
    }
    assert_eq!(q.try_receive(), None);
}

#[test]
fn update_apply_failure_does_not_block_the_next_event() {
    let mut q = UpdateQueue::new();
    assert!(q.try_send(UpdateEvent { token: 1 }));
    assert!(q.try_send(UpdateEvent { token: 2 }));
    // Event 1 is attempted; suppose its apply failed.
    assert_eq!(forwarder_next(&mut q, false), Some(UpdateEvent { token: 1 }));
    // The failure changes nothing: event 2 is still attempted next.
    assert_eq!(forwarder_next(&mut q, true), Some(UpdateEvent { token: 2 }));
    assert_eq!(forwarder_next(&mut q, true), None);
}

#[test]
fn admission_is_bounded() {
    let mut pool = AdmissionPool::new(2);
    assert_eq!(pool.bound(), 2);
    assert!(pool.try_admit());
    assert!(pool.try_admit());
    // The pool is exhausted: admission fails cleanly and nothing changes.
    assert!(!pool.try_admit());
    assert_eq!(pool.active(), 2);
    // A coordinator exit frees a slot.
    pool.release();
    assert_eq!(pool.active(), 1);
    assert!(pool.try_admit());
    assert!(!pool.try_admit());
}

#[test]
fn releasing_an_empty_pool_is_harmless() {
    let mut pool = AdmissionPool::new(3);
    pool.release();
    assert_eq!(pool.active(), 0);
    assert!(pool.try_admit());
}
