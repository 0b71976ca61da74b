//! Resource ownership, command handling and link-control logic for a
//! microcontroller node that drives a display, a LoRa radio, a Wi-Fi/MQTT
//! uplink and a servo from cooperative tasks.
//!
//! The hardware and network calls that suspend (radio transactions, MQTT
//! round trips, Wi-Fi association) are performed by the firmware around this
//! crate; here each long-running task is a state machine that is told what
//! happened and answers with the next thing to do.

use vstd::prelude::*;

pub mod channel;
pub mod command;
pub mod display;
pub mod factory;
pub mod mqtt;
pub mod radio;
pub mod registry;
pub mod servo;
pub mod wifi;

verus! {

/// Heap setup hook for firmware images.
///
/// The allocator region is registered by the firmware entry point before any
/// task starts, so there is nothing left to do here; the function is kept so
/// that entry points can call it unconditionally.
pub fn init_heap() {
}

} // verus!
