//! The registers that button events write and later events read.

use vstd::prelude::*;

verus! {

/// Number of rollers that keep an overflow counter.
pub const ROLLER_COUNT: usize = 7;

/// What the transport buttons drive.
#[derive(Clone, Copy, Debug, PartialEq, Eq, Structural)]
pub enum PadMode {
    /// Transport buttons are passed on as MIDI control messages.
    Passthrough,
    /// Transport buttons start and stop the on-board step sequencer.
    Sequencer,
}

/// The state that outlives a single gesture.
///
/// `rollers[i]` is the overflow counter of roller `i + 1`. It is written
/// only by that roller's marker button and read only when the roller's
/// value button fires.
#[derive(Clone, Copy, Debug)]
pub struct ControllerState {
    /// Whether shift is held: it follows the last shift event, it is no toggle.
    pub modifier: bool,
    pub pad_mode: PadMode,
    pub rollers: [u8; 7],
    /// Whether the step sequencer runs.
    pub playing: bool,
    /// Half the length of one sequencer step, in milliseconds.
    pub tempo_ms: u32,
    /// Note number of the first pad.
    pub midi_note_base: u8,
}

impl ControllerState {
    /// The state at start-up: shift released, transport passed through,
    /// all rollers at rest, the sequencer stopped.
    pub fn new(tempo_ms: u32, midi_note_base: u8) -> (state: ControllerState)
        ensures
            !state.modifier,
            state.pad_mode == PadMode::Passthrough,
            state.rollers@ == Seq::new(ROLLER_COUNT as nat, |i: int| 0u8),
            !state.playing,
            state.tempo_ms == tempo_ms,
            state.midi_note_base == midi_note_base,
    {
        let state = ControllerState {
            modifier: false,
            pad_mode: PadMode::Passthrough,
            rollers: [0, 0, 0, 0, 0, 0, 0],
            playing: false,
            tempo_ms,
            midi_note_base,
        };
        assert(state.rollers@ =~= Seq::new(ROLLER_COUNT as nat, |i: int| 0u8));
        state
    }
}

} // verus!
