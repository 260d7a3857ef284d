//! The sixteen-step note sequencer and the timers of the event loop.
//!
//! Time is a count of milliseconds that the caller reads from a clock of
//! its choice and hands in with every call.

use vstd::prelude::*;
use crate::HEARTBEAT_MS;

verus! {

/// Number of steps in the pattern.
pub const STEP_COUNT: u8 = 16;

/// A note message for the note that the pattern holds at a step.
#[derive(Clone, Copy, Debug, PartialEq, Eq, Structural)]
pub enum Emission {
    NoteOn(u8),
    NoteOff(u8),
}

/// What the sequencer keeps between two ticks.
#[derive(Clone, Copy, Debug, PartialEq, Eq, Structural)]
pub struct ClockState {
    /// The current step.
    pub step: u8,
    /// Whether the note of the current step has been switched on in the
    /// current window.
    pub gate_open: bool,
    /// Whether the sequencer ran at the last tick.
    pub playing: bool,
    /// Whether a trailing note-off is owed once the sequencer stops.
    pub was_active: bool,
    /// When the lights were last written.
    pub last_light_refresh: u64,
    /// When the current step's window began.
    pub last_gate_event: u64,
}

/// What one tick reads from outside.
#[derive(Clone, Copy, Debug, PartialEq, Eq, Structural)]
pub struct TickInput {
    /// Whether the sequencer is to run.
    pub playing: bool,
    /// Half the length of a step's window, in milliseconds.
    pub tempo_ms: u32,
    /// Whether the pattern holds a note at the current step.
    pub has_note: bool,
    /// The time of the tick.
    pub now: u64,
}

/// What one pass of the event loop owes once its input is served.
#[derive(Debug)]
pub struct Heartbeat {
    /// Whether the lights are to be written to the device.
    pub write_lights: bool,
    /// The note messages to send, in order.
    pub notes: Vec<Emission>,
}

/// The sequencer's clock. Its step is always below [`STEP_COUNT`].
pub struct SequencerClock {
    state: ClockState,
}

/// The time from `since` to `now`; zero where the clock has gone back.
pub open spec fn elapsed(since: u64, now: u64) -> int {
    if now >= since {
        now - since
    } else {
        0
    }
}

/// Whether the midpoint of the current window has been reached.
pub open spec fn half_due(clock: ClockState, input: TickInput) -> bool {
    elapsed(clock.last_gate_event, input.now) >= input.tempo_ms
}

/// Whether the end of the current window has been reached.
pub open spec fn full_due(clock: ClockState, input: TickInput) -> bool {
    elapsed(clock.last_gate_event, input.now) >= 2 * input.tempo_ms
}

/// Whether this tick switches the current step's note on.
pub open spec fn opens_gate(clock: ClockState, input: TickInput) -> bool {
    input.playing && input.has_note && !clock.gate_open && half_due(clock, input)
}

/// Whether this tick ends the current step's window.
pub open spec fn ends_step(clock: ClockState, input: TickInput) -> bool {
    input.playing && full_due(clock, input)
}

/// The step behind `step`, the first one behind the last.
pub open spec fn step_after(step: u8) -> u8 {
    if step + 1 >= STEP_COUNT {
        0
    } else {
        (step + 1) as u8
    }
}

/// The note messages of one tick, in the order in which they go out.
///
/// While the sequencer runs, a step with a note gets its note-on at the
/// midpoint of its window and its note-off at the end; a tick that comes
/// after the end of a window whose note is not on yet sends both. When the
/// sequencer has stopped, the first tick sends one note-off for the
/// current step.
pub open spec fn tick_emissions(clock: ClockState, input: TickInput) -> Seq<Emission> {
    if input.playing {
        let on = if opens_gate(clock, input) {
            seq![Emission::NoteOn(clock.step)]
        } else {
            seq![]
        };
        let off = if ends_step(clock, input) && input.has_note {
            seq![Emission::NoteOff(clock.step)]
        } else {
            seq![]
        };
        on + off
    } else if clock.was_active {
        seq![Emission::NoteOff(clock.step)]
    } else {
        seq![]
    }
}

/// The clock after one tick. The window's timer starts anew only at the end
/// of a window, so a new tempo takes effect with the next window.
pub open spec fn next_clock(clock: ClockState, input: TickInput) -> ClockState {
    ClockState {
        step: if ends_step(clock, input) {
            step_after(clock.step)
        } else {
            clock.step
        },
        gate_open: !ends_step(clock, input) && (clock.gate_open || opens_gate(clock, input)),
        playing: input.playing,
        was_active: input.playing,
        last_light_refresh: clock.last_light_refresh,
        last_gate_event: if ends_step(clock, input) {
            input.now
        } else {
            clock.last_gate_event
        },
    }
}

impl View for SequencerClock {
    type V = ClockState;

    closed spec fn view(&self) -> ClockState {
        self.state
    }
}

impl SequencerClock {
    #[verifier::type_invariant]
    spec fn step_in_range(self) -> bool {
        self.state.step < STEP_COUNT
    }

    /// A stopped clock at step 0 whose timers start at `now`.
    pub fn new(now: u64) -> (clock: SequencerClock)
        ensures
            clock@ == (ClockState {
                step: 0,
                gate_open: false,
                playing: false,
                was_active: false,
                last_light_refresh: now,
                last_gate_event: now,
            }),
    {
        SequencerClock {
            state: ClockState {
                step: 0,
                gate_open: false,
                playing: false,
                was_active: false,
                last_light_refresh: now,
                last_gate_event: now,
            },
        }
    }

    /// The clock's state.
    pub fn state(&self) -> (state: ClockState)
        ensures
            state == self@,
            state.step < STEP_COUNT,
    {
        proof {
            use_type_invariant(self);
        }
        self.state
    }

    /// The current step.
    pub fn step(&self) -> (step: u8)
        ensures
            step == self@.step,
            step < STEP_COUNT,
    {
        proof {
            use_type_invariant(self);
        }
        self.state.step
    }

    /// Says whether the lights are due, which they are once
    /// [`HEARTBEAT_MS`] have gone by since they were last written, and
    /// if so starts the wait anew.
    pub fn refresh_lights(&mut self, now: u64) -> (due: bool)
        ensures
            due == (elapsed(old(self)@.last_light_refresh, now) >= HEARTBEAT_MS),
            final(self)@ == (ClockState {
                last_light_refresh: if due {
                    now
                } else {
                    old(self)@.last_light_refresh
                },
                ..old(self)@
            }),
    {
        proof {
            use_type_invariant(&*self);
        }
        let last: u64 = self.state.last_light_refresh;
        let due = now >= last && now - last >= HEARTBEAT_MS;
        if due {
            self.state.last_light_refresh = now;
        }
        due
    }

    /// The timed part of one pass of the event loop: the light refresh,
    /// then one tick of the sequencer, both at the time `now`.
    pub fn heartbeat(
        &mut self,
        playing: bool,
        tempo_ms: u32,
        has_note: bool,
        now: u64,
    ) -> (beat: Heartbeat)
        ensures
            ({
                let input = TickInput { playing, tempo_ms, has_note, now };
                let due = elapsed(old(self)@.last_light_refresh, now) >= HEARTBEAT_MS;
                &&& beat.write_lights == due
                &&& beat.notes@ == tick_emissions(old(self)@, input)
                &&& final(self)@ == (ClockState {
                    last_light_refresh: if due {
                        now
                    } else {
                        old(self)@.last_light_refresh
                    },
                    ..next_clock(old(self)@, input)
                })
            }),
            final(self)@.step < STEP_COUNT,
    {
        let write_lights = self.refresh_lights(now);
        let notes = self.tick(playing, tempo_ms, has_note, now);
        Heartbeat { write_lights, notes }
    }

    /// Advances the sequencer by one tick and returns the note messages to
    /// send, in order.
    pub fn tick(&mut self, playing: bool, tempo_ms: u32, has_note: bool, now: u64) -> (out: Vec<
        Emission,
    >)
        ensures
            ({
                let input = TickInput { playing, tempo_ms, has_note, now };
                &&& final(self)@ == next_clock(old(self)@, input)
                &&& out@ == tick_emissions(old(self)@, input)
            }),
            final(self)@.step < STEP_COUNT,
    {
        proof {
            use_type_invariant(&*self);
        }
        let mut out: Vec<Emission> = Vec::new();
        let step: u8 = self.state.step;
        if playing {
            let last: u64 = self.state.last_gate_event;
            let waited: u64 = if now >= last {
                now - last
            } else {
                0
            };
            let half = waited >= tempo_ms as u64;
            let full = waited >= 2 * (tempo_ms as u64);
            if has_note && half && !self.state.gate_open {
                out.push(Emission::NoteOn(step));
                self.state.gate_open = true;
            }
            if full {
                if has_note {
                    out.push(Emission::NoteOff(step));
                }
                self.state.last_gate_event = now;
                self.state.step = if step + 1 >= STEP_COUNT {
                    0
                } else {
                    step + 1
                };
                self.state.gate_open = false;
            }
        } else if self.state.was_active {
            out.push(Emission::NoteOff(step));
        }
        self.state.playing = playing;
        self.state.was_active = playing;
        out
    }
}

/// The clock after the ticks `inputs`, taken in order.
pub open spec fn run(start: ClockState, inputs: Seq<TickInput>) -> ClockState
    decreases inputs.len(),
{
    if inputs.len() == 0 {
        start
    } else {
        next_clock(run(start, inputs.drop_last()), inputs.last())
    }
}

/// Every note message that the ticks `inputs` send, in order.
pub open spec fn emitted(start: ClockState, inputs: Seq<TickInput>) -> Seq<Emission>
    decreases inputs.len(),
{
    if inputs.len() == 0 {
        seq![]
    } else {
        emitted(start, inputs.drop_last()) + tick_emissions(
            run(start, inputs.drop_last()),
            inputs.last(),
        )
    }
}

/// Whether the note of `step` is on at the end of `sent`: it was switched
/// on and not off since.
pub open spec fn sounding(sent: Seq<Emission>, step: u8) -> bool {
    exists|i: int|
        0 <= i < sent.len() && sent[i] == Emission::NoteOn(step) && forall|k: int|
            i < k < sent.len() ==> sent[k] != Emission::NoteOff(step)
}

/// Whether between any two note-ons for one step in `sent` there is a
/// note-off for that step.
pub open spec fn gate_exclusive(sent: Seq<Emission>) -> bool {
    forall|i: int, j: int|
        0 <= i < j < sent.len() && sent[i] is NoteOn && sent[j] == sent[i] ==> exists|k: int|
            i < k < j && sent[k] == Emission::NoteOff(sent[i]->NoteOn_0)
}

/// Whether the pattern keeps every note that is on until its window ends:
/// at no tick of `inputs` that ends a window is the current step's note
/// on while the pattern no longer holds it.
pub open spec fn notes_are_held(start: ClockState, inputs: Seq<TickInput>) -> bool
    decreases inputs.len(),
{
    if inputs.len() == 0 {
        true
    } else {
        let clock = run(start, inputs.drop_last());
        let input = inputs.last();
        &&& notes_are_held(start, inputs.drop_last())
        &&& (ends_step(clock, input) && sounding(emitted(start, inputs.drop_last()), clock.step)
            ==> input.has_note)
    }
}

/// A tick leaves the step below [`STEP_COUNT`].
pub proof fn tick_keeps_step_in_range(clock: ClockState, input: TickInput)
    requires
        clock.step < STEP_COUNT,
    ensures
        next_clock(clock, input).step < STEP_COUNT,
{
}

/// The step only ever moves to the one behind it, and from the last to the
/// first; it moves exactly when a window ends.
pub proof fn tick_advances_by_one(clock: ClockState, input: TickInput)
    requires
        clock.step < STEP_COUNT,
    ensures
        next_clock(clock, input).step == if ends_step(clock, input) {
            (clock.step + 1) % (STEP_COUNT as int)
        } else {
            clock.step as int
        },
{
}

/// Once the sequencer has stopped, one tick sends the trailing note-off and
/// every later tick without a restart sends nothing.
pub proof fn trailing_note_off_comes_once(clock: ClockState, first: TickInput, second: TickInput)
    requires
        !first.playing,
        !second.playing,
    ensures
        tick_emissions(clock, first) == if clock.was_active {
            seq![Emission::NoteOff(clock.step)]
        } else {
            seq![]
        },
        tick_emissions(next_clock(clock, first), second) == Seq::<Emission>::empty(),
{
}

/// Switching a note off where at most that note is on leaves no note on.
proof fn note_off_closes(sent: Seq<Emission>, step: u8)
    requires
        gate_exclusive(sent),
        forall|other: u8| sounding(sent, other) ==> other == step,
    ensures
        gate_exclusive(sent.push(Emission::NoteOff(step))),
        forall|other: u8| !sounding(sent.push(Emission::NoteOff(step)), other),
{
    let longer = sent.push(Emission::NoteOff(step));
    assert forall|i: int, j: int|
        0 <= i < j < longer.len() && longer[i] is NoteOn && longer[j] == longer[i] implies exists|
        k: int,
    |
        i < k < j && longer[k] == Emission::NoteOff(longer[i]->NoteOn_0) by {
        assert(sent[i] is NoteOn && sent[j] == sent[i]);
        let k = choose|k: int| i < k < j && sent[k] == Emission::NoteOff(sent[i]->NoteOn_0);
        assert(longer[k] == Emission::NoteOff(longer[i]->NoteOn_0));
    }
    assert forall|other: u8| !sounding(longer, other) by {
        if sounding(longer, other) {
            let i = choose|i: int|
                0 <= i < longer.len() && longer[i] == Emission::NoteOn(other) && forall|k: int|
                    i < k < longer.len() ==> longer[k] != Emission::NoteOff(other);
            assert(longer[sent.len() as int] == Emission::NoteOff(step));
            assert(other != step);
            assert(sent[i] == Emission::NoteOn(other));
            assert forall|k: int| i < k < sent.len() implies sent[k] != Emission::NoteOff(
                other,
            ) by {
                assert(longer[k] == sent[k]);
            }
            assert(sounding(sent, other));
        }
    }
}

/// Switching a note on where no note is on leaves that note on and no other.
proof fn note_on_opens(sent: Seq<Emission>, step: u8)
    requires
        gate_exclusive(sent),
        forall|other: u8| !sounding(sent, other),
    ensures
        gate_exclusive(sent.push(Emission::NoteOn(step))),
        forall|other: u8| sounding(sent.push(Emission::NoteOn(step)), other) ==> other == step,
{
    let longer = sent.push(Emission::NoteOn(step));
    assert forall|i: int, j: int|
        0 <= i < j < longer.len() && longer[i] is NoteOn && longer[j] == longer[i] implies exists|
        k: int,
    |
        i < k < j && longer[k] == Emission::NoteOff(longer[i]->NoteOn_0) by {
        if j < sent.len() {
            assert(sent[i] is NoteOn && sent[j] == sent[i]);
            let k = choose|k: int| i < k < j && sent[k] == Emission::NoteOff(sent[i]->NoteOn_0);
            assert(longer[k] == Emission::NoteOff(longer[i]->NoteOn_0));
        } else {
            assert(sent[i] == Emission::NoteOn(step));
            assert(!sounding(sent, step));
            let k = choose|k: int| i < k < sent.len() && sent[k] == Emission::NoteOff(step);
            assert(longer[k] == Emission::NoteOff(longer[i]->NoteOn_0));
        }
    }
    assert forall|other: u8| sounding(longer, other) implies other == step by {
        let i = choose|i: int|
            0 <= i < longer.len() && longer[i] == Emission::NoteOn(other) && forall|k: int|
                i < k < longer.len() ==> longer[k] != Emission::NoteOff(other);
        if i < sent.len() && other != step {
            assert(sent[i] == Emission::NoteOn(other));
            assert forall|k: int| i < k < sent.len() implies sent[k] != Emission::NoteOff(
                other,
            ) by {
                assert(longer[k] == sent[k]);
            }
            assert(sounding(sent, other));
        }
    }
}

/// What holds of the clock and of what was sent after any run that meets
/// [`notes_are_held`]: the gates are exclusive, and a note that is on is
/// the note of the current step, whose gate is open.
proof fn run_keeps_gates_exclusive(start: ClockState, inputs: Seq<TickInput>)
    requires
        start.step < STEP_COUNT,
        notes_are_held(start, inputs),
    ensures
        gate_exclusive(emitted(start, inputs)),
        forall|step: u8| #[trigger]
            sounding(emitted(start, inputs), step) ==> step == run(start, inputs).step && run(
                start,
                inputs,
            ).gate_open,
    decreases inputs.len(),
{
    if inputs.len() > 0 {
        let before = inputs.drop_last();
        let input = inputs.last();
        let clock = run(start, before);
        let sent = emitted(start, before);
        run_keeps_gates_exclusive(start, before);
        if input.playing {
            let with_on = if opens_gate(clock, input) {
                note_on_opens(sent, clock.step);
                sent.push(Emission::NoteOn(clock.step))
            } else {
                sent
            };
            let with_off = if ends_step(clock, input) && input.has_note {
                note_off_closes(with_on, clock.step);
                with_on.push(Emission::NoteOff(clock.step))
            } else {
                with_on
            };
            assert(emitted(start, inputs) =~= with_off);
        } else if clock.was_active {
            note_off_closes(sent, clock.step);
            assert(emitted(start, inputs) =~= sent.push(Emission::NoteOff(clock.step)));
        } else {
            assert(emitted(start, inputs) =~= sent);
        }
    }
}

/// No step gets two note-ons without a note-off for it in between,
/// whatever the ticks bring, as long as the pattern keeps every note that
/// is on until its window ends.
///
/// Where the pattern drops such a note, the window ends without a
/// note-off, and the step's next note-on follows the first directly:
/// that is why [`notes_are_held`] is asked for.
pub proof fn gates_are_exclusive(start: ClockState, inputs: Seq<TickInput>)
    requires
        start.step < STEP_COUNT,
        notes_are_held(start, inputs),
    ensures
        gate_exclusive(emitted(start, inputs)),
{
    run_keeps_gates_exclusive(start, inputs);
}

} // verus!
