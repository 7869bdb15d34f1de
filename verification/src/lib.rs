//! Core event-coordination logic for a sensor-presenting wireless device:
//! bounded single-slot channels with fan-out, a per-connection coordinator
//! state machine, wire payload construction, a firmware-update forwarder,
//! and a bounded admission pool.

pub mod event;
pub mod payload;
pub mod channel;
pub mod forwarder;
pub mod coordinator;
pub mod admission;
pub mod adv;
pub mod producer;
