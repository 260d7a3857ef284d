//! Control core of a user-space driver for a USB grid/pad controller.
//!
//! The crate turns controller gestures into MIDI control messages and OSC
//! telemetry, turns incoming OSC datagrams into light commands, and runs a
//! sixteen-step note sequencer. Every function here is a pure transition
//! over plain values: the caller owns the device, the sequencer port, the
//! socket and the clock, performs what the functions return, and hands back
//! what it read.

pub mod actions;
pub mod buttons;
pub mod handler;
pub mod mapper;
pub mod osc;
pub mod pads;
pub mod sequencer;
pub mod state;
pub mod text;

use vstd::prelude::*;

verus! {

/// Loopback port on which OSC datagrams are received.
pub const OSC_LISTEN_PORT: u16 = 42434;

/// Loopback port of the peer that receives the OSC mirror.
pub const OSC_PEER_PORT: u16 = 42435;

/// Upper bound on one readiness wait, cadence of the light refresh and
/// resolution of the step sequencer, in milliseconds.
pub const HEARTBEAT_MS: u64 = 16;

} // verus!
