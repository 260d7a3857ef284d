//! The dispatcher: from a gesture to MIDI and OSC, from OSC to lights.

use vstd::prelude::*;
use vstd::string::StringExecFns;
use crate::actions::{action_of, button_action, control_indices_are_laid_out, SpecialAction};
use crate::buttons::{
    btn_to_osc_button_map, button_named, osc_button_to_btn_map, tokens_are_distinct,
    MaschineButton,
};
use crate::mapper::{
    apply_curve, clamp_velocity, clamped_velocity, curve_value, light_color, mask_color,
    pack_color, packed_rgb, CurveValue, PressureShape, Rgb, GAMMA_TWO_FIFTHS, MAX_VELOCITY, WHITE,
};
use crate::osc::{
    check_framing, datagram_framed, decode_datagram, encode_message, osc_decoding, osc_encoding,
    OscArg, OscMessage, OutArg,
};
use crate::state::{ControllerState, PadMode};
use crate::text::starts_with;

verus! {

/// The highest status byte that still reaches the per-button dispatch.
pub const STATUS_LIMIT: u8 = 250;

/// One button report from the hardware.
#[derive(Clone, Copy, Debug, PartialEq, Eq, Structural)]
pub struct ButtonEvent {
    pub button: MaschineButton,
    pub raw_status: u8,
    pub is_down: bool,
}

/// A control message on MIDI channel 1.
#[allow(inconsistent_fields)]
#[derive(Clone, Copy, Debug, PartialEq, Eq, Structural)]
pub enum ControlMessage {
    /// A registered parameter with a 7-bit value.
    Seven { index: u8, value: u8 },
    /// A registered parameter with a 14-bit value.
    Fourteen { index: u8, value: u16 },
}

/// What one button event sends out.
#[derive(Debug)]
pub struct ButtonOutcome {
    /// The control message to send and flush, if the event has one.
    pub midi: Option<ControlMessage>,
    /// The datagram of the OSC mirror of the event, which goes out whether
    /// or not there is MIDI; `None` where it could not be encoded.
    pub mirror: Option<Vec<u8>>,
}

/// How bright a light is to be.
#[derive(Clone, Copy, Debug, PartialEq, Eq, Structural)]
pub enum Brightness {
    /// The single-precision number with this IEEE-754 bit pattern.
    Bits(u32),
    /// The single-precision number nearest to this whole number.
    Whole(i32),
}

/// Why a datagram was dropped.
#[derive(Clone, Copy, Debug, PartialEq, Eq, Structural)]
pub enum OscError {
    /// The datagram does not have the frame of an OSC message: a string
    /// without its end or its padding, type tags without their comma, an
    /// unknown type tag, or an argument that is cut short.
    Unframed,
    /// The datagram has the frame of a message and still cannot be decoded.
    Undecodable,
}

/// A light to set on the device.
#[derive(Clone, Copy, Debug, PartialEq, Eq, Structural)]
pub enum LightCommand {
    Button { button: MaschineButton, color: u32, brightness: Brightness },
    /// `pad` is the index as the message gave it: it may name no pad.
    Pad { pad: i32, color: u32, brightness: Brightness },
}

/// The dispatcher's own configuration and the controller state it owns.
#[derive(Clone, Copy, Debug)]
pub struct MHandler {
    /// Colour of the pads and buttons at rest.
    pub color: Rgb,
    pub pressure_shape: PressureShape,
    pub send_aftertouch: bool,
    pub state: ControllerState,
}

impl ButtonEvent {
    /// Whether the event reaches the per-button dispatch: it is a press,
    /// and its status is at most [`STATUS_LIMIT`].
    pub open spec fn dispatched(self) -> bool {
        self.is_down && self.raw_status <= STATUS_LIMIT
    }
}

/// Where a roller stands, from the byte its value button reports and the
/// overflow counter its marker button left behind.
pub open spec fn roller_position(raw_status: u8, overflow: u8) -> int {
    raw_status as int / 4 + overflow as int * 64
}

/// The control message that `ev` sends in `state`, if any.
pub open spec fn button_midi(state: ControllerState, ev: ButtonEvent) -> Option<ControlMessage> {
    let action = action_of(ev.button);
    let status = ev.raw_status;
    match action.control_index {
        None => None,
        Some(index) => match action.special {
            Some(SpecialAction::Reserved) => Some(
                ControlMessage::Seven { index, value: ((status as int * 8) % 256) as u8 },
            ),
            _ if !ev.dispatched() => None,
            None => if status > 0 {
                Some(ControlMessage::Seven { index, value: status })
            } else {
                None
            },
            Some(SpecialAction::Play) | Some(SpecialAction::Stop) => if status > 0
                && state.pad_mode != PadMode::Sequencer {
                Some(ControlMessage::Seven { index, value: status })
            } else {
                None
            },
            Some(SpecialAction::PadMode) => if status > 0 && !state.modifier {
                Some(ControlMessage::Seven { index, value: status })
            } else {
                None
            },
            Some(SpecialAction::RollerValue(roller)) => if roller == 1 && state.modifier {
                None
            } else {
                Some(
                    ControlMessage::Fourteen {
                        index,
                        value: (roller_position(status, state.rollers[roller - 1]) / 2) as u16,
                    },
                )
            },
            Some(SpecialAction::FreeRoller) => Some(
                ControlMessage::Fourteen { index, value: (status / 2) as u16 },
            ),
            Some(_) => None,
        },
    }
}

/// Shift after `ev`: the shift button sets it on every event, pressed or
/// not, to whether its status is above zero.
pub open spec fn modifier_after(state: ControllerState, ev: ButtonEvent) -> bool {
    if action_of(ev.button).special == Some(SpecialAction::Modifier) {
        ev.raw_status > 0
    } else {
        state.modifier
    }
}

/// The overflow counters after `ev`: a marker button writes the status
/// into its roller's counter on every event, pressed or not.
pub open spec fn rollers_after(state: ControllerState, ev: ButtonEvent) -> Seq<u8> {
    match action_of(ev.button).special {
        Some(SpecialAction::RollerMarker(roller)) => state.rollers@.update(
            roller - 1,
            ev.raw_status,
        ),
        _ => state.rollers@,
    }
}

/// The pad mode after `ev`.
pub open spec fn pad_mode_after(state: ControllerState, ev: ButtonEvent) -> PadMode {
    if ev.dispatched() && action_of(ev.button).special == Some(SpecialAction::PadMode)
        && state.modifier {
        PadMode::Sequencer
    } else {
        state.pad_mode
    }
}

/// Whether the sequencer runs after `ev`.
pub open spec fn playing_after(state: ControllerState, ev: ButtonEvent) -> bool {
    if !ev.dispatched() {
        state.playing
    } else {
        match action_of(ev.button).special {
            Some(SpecialAction::Play) => state.playing || state.pad_mode == PadMode::Sequencer,
            Some(SpecialAction::Stop) => state.playing && ev.raw_status > 0 && state.pad_mode
                != PadMode::Sequencer,
            _ => state.playing,
        }
    }
}

/// The tempo after `ev`: with shift held, the first roller's value button
/// writes the roller's position into it.
pub open spec fn tempo_after(state: ControllerState, ev: ButtonEvent) -> int {
    if ev.dispatched() && action_of(ev.button).special == Some(SpecialAction::RollerValue(1))
        && state.modifier {
        roller_position(ev.raw_status, state.rollers[0])
    } else {
        state.tempo_ms as int
    }
}

/// The note base after `ev`.
pub open spec fn note_base_after(state: ControllerState, ev: ButtonEvent) -> u8 {
    match action_of(ev.button).special {
        Some(SpecialAction::Group(base)) if ev.dispatched() => base,
        _ => state.midi_note_base,
    }
}

/// The address of the OSC mirror of `btn`.
pub open spec fn mirror_path(btn: MaschineButton) -> Seq<char> {
    "/"@ + btn.token()
}

/// Beginning of the address that sets a button's light; the button's name
/// follows it.
pub open spec fn button_address() -> Seq<char> {
    "/maschine/button/"@
}

/// Beginning of the address that sets a pad's light.
pub open spec fn pad_address() -> Seq<char> {
    "/maschine/pad"@
}

/// Beginning of the address that sets the note base.
pub open spec fn note_base_address() -> Seq<char> {
    "/maschine/midi_note_base"@
}

/// The light that a message with this address and these arguments sets, if
/// it sets one.
///
/// A button takes one number, its brightness in full white, or an integer
/// colour and a single-precision brightness. A pad takes an integer index,
/// an integer colour and a single-precision brightness. Of a colour the low
/// 24 bits count.
pub open spec fn osc_light(path: Seq<char>, arguments: Seq<OscArg>) -> Option<LightCommand> {
    if button_address().is_prefix_of(path) {
        match button_named(path.skip(button_address().len() as int)) {
            None => None,
            Some(button) => if arguments.len() == 1 {
                match arguments[0] {
                    OscArg::Int(level) => Some(
                        LightCommand::Button {
                            button,
                            color: WHITE,
                            brightness: Brightness::Whole(level),
                        },
                    ),
                    OscArg::Float(bits) => Some(
                        LightCommand::Button {
                            button,
                            color: WHITE,
                            brightness: Brightness::Bits(bits),
                        },
                    ),
                    _ => None,
                }
            } else if arguments.len() == 2 {
                match (arguments[0], arguments[1]) {
                    (OscArg::Int(color), OscArg::Float(bits)) => Some(
                        LightCommand::Button {
                            button,
                            color: light_color(color) as u32,
                            brightness: Brightness::Bits(bits),
                        },
                    ),
                    _ => None,
                }
            } else {
                None
            },
        }
    } else if pad_address().is_prefix_of(path) && arguments.len() == 3 {
        match (arguments[0], arguments[1], arguments[2]) {
            (OscArg::Int(pad), OscArg::Int(color), OscArg::Float(bits)) => Some(
                LightCommand::Pad {
                    pad,
                    color: light_color(color) as u32,
                    brightness: Brightness::Bits(bits),
                },
            ),
            _ => None,
        }
    } else {
        None
    }
}

/// The note base after a message with this address and these arguments:
/// the low eight bits of the one integer argument of a note base message,
/// else the note base as it was.
pub open spec fn osc_note_base(path: Seq<char>, arguments: Seq<OscArg>, current: u8) -> u8 {
    if note_base_address().is_prefix_of(path) && arguments.len() == 1 {
        match arguments[0] {
            OscArg::Int(base) => (base as int % 256) as u8,
            _ => current,
        }
    } else {
        current
    }
}

/// What a datagram holds: nothing unless it has the frame of a message,
/// else what decoding makes of it.
pub open spec fn received(datagram: Seq<u8>) -> Option<(Seq<char>, Seq<OscArg>)> {
    if datagram_framed(datagram) {
        osc_decoding(datagram)
    } else {
        None
    }
}

/// Address of the message that reports a turn of the encoder.
pub open spec fn encoder_address() -> Seq<char> {
    "/maschine/encoder"@
}

impl MHandler {
    /// A dispatcher with the given resting colour and start-up state, a
    /// pressure curve with the exponent 0.4, and aftertouch switched off.
    pub fn new(color: Rgb, state: ControllerState) -> (handler: MHandler)
        ensures
            handler.color == color,
            handler.pressure_shape == PressureShape::Exponential(GAMMA_TWO_FIFTHS),
            !handler.send_aftertouch,
            handler.state == state,
    {
        MHandler {
            color,
            pressure_shape: PressureShape::Exponential(GAMMA_TWO_FIFTHS),
            send_aftertouch: false,
            state,
        }
    }

    /// Puts the pressure with the bit pattern `pressure` through the
    /// dispatcher's curve.
    pub fn pressure_curve(&self, pressure: u32) -> (value: CurveValue)
        ensures
            value == curve_value(self.pressure_shape, pressure),
    {
        apply_curve(self.pressure_shape, pressure)
    }

    /// The resting colour as one `0xRRGGBB` word.
    pub fn pad_color(&self) -> (packed: u32)
        ensures
            packed == packed_rgb(self.color.r, self.color.g, self.color.b),
    {
        pack_color(self.color.r, self.color.g, self.color.b)
    }

    /// The note velocity for a pad pressure that the caller has put through
    /// [`MHandler::pressure_curve`], scaled by 127 and cut to a whole
    /// number.
    pub fn pressure_to_vel(&self, scaled: i32) -> (velocity: u8)
        ensures
            velocity == clamped_velocity(scaled as int),
            velocity <= MAX_VELOCITY,
    {
        clamp_velocity(scaled)
    }

    /// Handles one datagram from the OSC socket. A datagram that is no
    /// well-framed message, or that cannot be decoded, is reported and
    /// changes nothing; any other is handled as
    /// [`MHandler::handle_osc_messge`] handles its message.
    pub fn recv_osc_msg(&mut self, datagram: &[u8]) -> (light: Result<
        Option<LightCommand>,
        OscError,
    >)
        ensures
            !datagram_framed(datagram@) ==> light == Err::<Option<LightCommand>, OscError>(
                OscError::Unframed,
            ),
            datagram_framed(datagram@) && osc_decoding(datagram@) is None ==> light == Err::<
                Option<LightCommand>,
                OscError,
            >(OscError::Undecodable),
            light is Err ==> *final(self) == *old(self),
            match received(datagram@) {
                Some((path, arguments)) => {
                    &&& light == Ok::<Option<LightCommand>, OscError>(osc_light(path, arguments))
                    &&& *final(self) == (MHandler {
                        state: ControllerState {
                            midi_note_base: osc_note_base(
                                path,
                                arguments,
                                old(self).state.midi_note_base,
                            ),
                            ..old(self).state
                        },
                        ..*old(self)
                    })
                },
                None => light is Err,
            },
    {
        if !check_framing(datagram) {
            return Err(OscError::Unframed);
        }
        match decode_datagram(datagram) {
            Some(msg) => Ok(self.handle_osc_messge(&msg)),
            None => Err(OscError::Undecodable),
        }
    }

    /// Handles one decoded OSC message: returns the light it sets, if any,
    /// and takes over the note base it gives, if any. A message with an
    /// unknown address, an unknown button name or arguments of the wrong
    /// number or type changes nothing.
    pub fn handle_osc_messge(&mut self, msg: &OscMessage) -> (light: Option<LightCommand>)
        ensures
            light == osc_light(msg.path@, msg.arguments@),
            *final(self) == (MHandler {
                state: ControllerState {
                    midi_note_base: osc_note_base(
                        msg.path@,
                        msg.arguments@,
                        old(self).state.midi_note_base,
                    ),
                    ..old(self).state
                },
                ..*old(self)
            }),
    {
        proof {
            reveal_strlit("/maschine/button/");
            reveal_strlit("/maschine/pad");
            reveal_strlit("/maschine/midi_note_base");
        }
        let path: &str = msg.path.as_str();
        let count: usize = msg.arguments.len();
        if starts_with(path, "/maschine/button/") {
            assert(!note_base_address().is_prefix_of(path@)) by {
                assert(path@[10] == button_address()[10]);
            }
            let name: &str = path.substring_char(
                "/maschine/button/".unicode_len(),
                path.unicode_len(),
            );
            assert(name@ == path@.skip(button_address().len() as int));
            let button = match osc_button_to_btn_map(name) {
                Some(button) => button,
                None => { return None; },
            };
            if count == 1 {
                match msg.arguments[0] {
                    OscArg::Int(level) => Some(
                        LightCommand::Button {
                            button,
                            color: WHITE,
                            brightness: Brightness::Whole(level),
                        },
                    ),
                    OscArg::Float(bits) => Some(
                        LightCommand::Button {
                            button,
                            color: WHITE,
                            brightness: Brightness::Bits(bits),
                        },
                    ),
                    _ => None,
                }
            } else if count == 2 {
                match (msg.arguments[0], msg.arguments[1]) {
                    (OscArg::Int(color), OscArg::Float(bits)) => Some(
                        LightCommand::Button {
                            button,
                            color: mask_color(color),
                            brightness: Brightness::Bits(bits),
                        },
                    ),
                    _ => None,
                }
            } else {
                None
            }
        } else if starts_with(path, "/maschine/pad") {
            assert(!note_base_address().is_prefix_of(path@)) by {
                assert(path@[10] == pad_address()[10]);
            }
            if count == 3 {
                match (msg.arguments[0], msg.arguments[1], msg.arguments[2]) {
                    (OscArg::Int(pad), OscArg::Int(color), OscArg::Float(bits)) => Some(
                        LightCommand::Pad {
                            pad,
                            color: mask_color(color),
                            brightness: Brightness::Bits(bits),
                        },
                    ),
                    _ => None,
                }
            } else {
                None
            }
        } else {
            if starts_with(path, "/maschine/midi_note_base") && count == 1 {
                match msg.arguments[0] {
                    OscArg::Int(base) => {
                        assert(base & 0xff == base as int % 256) by (bit_vector);
                        self.state.midi_note_base = (base & 0xff) as u8;
                    },
                    _ => {},
                }
            }
            None
        }
    }

    /// The datagram that carries `arguments` to the address `path`, for
    /// the caller to send; `None` where it could not be encoded.
    pub fn send_osc_msg(&self, path: &str, arguments: Vec<OutArg>) -> (datagram: Option<Vec<u8>>)
        ensures
            match osc_encoding(path@, arguments@) {
                Some(bytes) => datagram matches Some(d) && d@ == bytes,
                None => datagram is None,
            },
    {
        encode_message(path, &arguments)
    }

    /// The datagram that reports a turn of the encoder by `delta` steps.
    pub fn send_osc_encoder_msg(&self, delta: i32) -> (datagram: Option<Vec<u8>>)
        ensures
            match osc_encoding(encoder_address(), seq![OutArg::Int(delta)]) {
                Some(bytes) => datagram matches Some(d) && d@ == bytes,
                None => datagram is None,
            },
    {
        let mut arguments: Vec<OutArg> = Vec::new();
        arguments.push(OutArg::Int(delta));
        self.send_osc_msg("/maschine/encoder", arguments)
    }

    /// The address of the OSC mirror of `btn`: a slash and the button's
    /// name.
    pub fn mirror_address(btn: MaschineButton) -> (path: String)
        ensures
            path@ == mirror_path(btn),
    {
        String::from_str("/").concat(btn_to_osc_button_map(btn))
    }

    /// Handles one button event: updates the controller state, and returns
    /// the control message to send, if any, together with the datagram of
    /// the OSC mirror, which carries the status as its one argument.
    ///
    /// The mirror goes out for every event, also for a release, for a
    /// status above [`STATUS_LIMIT`] and where no control message is sent.
    pub fn send_osc_button_msg(
        &mut self,
        btn: MaschineButton,
        status: u8,
        is_down: bool,
    ) -> (outcome: ButtonOutcome)
        ensures
            ({
                let ev = ButtonEvent { button: btn, raw_status: status, is_down };
                let before = old(self).state;
                let after = final(self).state;
                &&& outcome.midi == button_midi(before, ev)
                &&& match osc_encoding(mirror_path(btn), seq![OutArg::Float(status)]) {
                    Some(bytes) => outcome.mirror matches Some(d) && d@ == bytes,
                    None => outcome.mirror is None,
                }
                &&& after.modifier == modifier_after(before, ev)
                &&& after.rollers@ == rollers_after(before, ev)
                &&& after.pad_mode == pad_mode_after(before, ev)
                &&& after.playing == playing_after(before, ev)
                &&& after.tempo_ms == tempo_after(before, ev)
                &&& after.midi_note_base == note_base_after(before, ev)
            }),
            final(self).color == old(self).color,
            final(self).send_aftertouch == old(self).send_aftertouch,
    {
        let action = button_action(btn);
        let modifier = self.state.modifier;
        let dispatched = is_down && status <= STATUS_LIMIT;
        let mut midi: Option<ControlMessage> = None;
        proof {
            control_indices_are_laid_out(btn);
        }
        match (action.special, action.control_index) {
            (Some(SpecialAction::Modifier), _) => {
                self.state.modifier = status > 0;
            },
            (Some(SpecialAction::RollerMarker(roller)), _) => {
                self.state.rollers[(roller - 1) as usize] = status;
            },
            (Some(SpecialAction::Reserved), Some(index)) => {
                let wide: u16 = status as u16 * 8;
                midi = Some(ControlMessage::Seven { index, value: (wide % 256) as u8 });
            },
            _ => {},
        }
        if dispatched {
            match (action.special, action.control_index) {
                (None, Some(index)) => {
                    if status > 0 {
                        midi = Some(ControlMessage::Seven { index, value: status });
                    }
                },
                (Some(SpecialAction::Play), Some(index)) => {
                    if status > 0 && self.state.pad_mode != PadMode::Sequencer {
                        midi = Some(ControlMessage::Seven { index, value: status });
                    } else if self.state.pad_mode == PadMode::Sequencer {
                        self.state.playing = true;
                    }
                },
                (Some(SpecialAction::Stop), Some(index)) => {
                    if status > 0 && self.state.pad_mode != PadMode::Sequencer {
                        midi = Some(ControlMessage::Seven { index, value: status });
                    } else {
                        self.state.playing = false;
                    }
                },
                (Some(SpecialAction::PadMode), Some(index)) => {
                    if modifier {
                        self.state.pad_mode = PadMode::Sequencer;
                    } else if status > 0 {
                        midi = Some(ControlMessage::Seven { index, value: status });
                    }
                },
                (Some(SpecialAction::RollerValue(roller)), Some(index)) => {
                    let overflow: u8 = self.state.rollers[(roller - 1) as usize];
                    let position: u16 = status as u16 / 4 + overflow as u16 * 64;
                    if roller == 1 && modifier {
                        self.state.tempo_ms = position as u32;
                    } else {
                        midi = Some(ControlMessage::Fourteen { index, value: position / 2 });
                    }
                },
                (Some(SpecialAction::FreeRoller), Some(index)) => {
                    midi = Some(ControlMessage::Fourteen { index, value: status as u16 / 2 });
                },
                (Some(SpecialAction::Group(base)), _) => {
                    self.state.midi_note_base = base;
                },
                _ => {},
            }
        }
        let path = MHandler::mirror_address(btn);
        let mut arguments: Vec<OutArg> = Vec::new();
        arguments.push(OutArg::Float(status));
        let mirror = self.send_osc_msg(path.as_str(), arguments);
        ButtonOutcome { midi, mirror }
    }
}

/// A roller's position fits in fourteen bits, and what its value button
/// sends is half of it.
pub proof fn roller_position_fits(raw_status: u8, overflow: u8)
    ensures
        0 <= roller_position(raw_status, overflow) < 0x4000,
        0 <= roller_position(raw_status, overflow) / 2 < 0x2000,
{
}

/// One event writes at most one overflow counter, and only the event of a
/// marker button writes any.
pub proof fn event_writes_at_most_one_counter(state: ControllerState, ev: ButtonEvent)
    ensures
        rollers_after(state, ev).len() == state.rollers@.len(),
        match action_of(ev.button).special {
            Some(SpecialAction::RollerMarker(roller)) => forall|i: int|
                0 <= i < state.rollers@.len() && i != roller - 1 ==> rollers_after(state, ev)[i]
                    == state.rollers@[i],
            _ => rollers_after(state, ev) == state.rollers@,
        },
{
    control_indices_are_laid_out(ev.button);
}

/// A roller's overflow counter is read through that roller's value button
/// and through nothing else: two states that differ in that counter alone
/// are told apart by no other event.
pub proof fn counter_is_read_by_its_value_button(
    a: ControllerState,
    b: ControllerState,
    roller: u8,
    ev: ButtonEvent,
)
    requires
        1 <= roller <= 7,
        b.rollers@ == a.rollers@.update(roller - 1, b.rollers@[roller - 1]),
        b.modifier == a.modifier,
        b.pad_mode == a.pad_mode,
        b.playing == a.playing,
        b.tempo_ms == a.tempo_ms,
        b.midi_note_base == a.midi_note_base,
        action_of(ev.button).special != Some(SpecialAction::RollerValue(roller)),
    ensures
        button_midi(a, ev) == button_midi(b, ev),
        modifier_after(a, ev) == modifier_after(b, ev),
        pad_mode_after(a, ev) == pad_mode_after(b, ev),
        playing_after(a, ev) == playing_after(b, ev),
        tempo_after(a, ev) == tempo_after(b, ev),
        note_base_after(a, ev) == note_base_after(b, ev),
{
    control_indices_are_laid_out(ev.button);
}

/// The mirrors of two buttons go to two addresses.
pub proof fn mirror_addresses_are_distinct(a: MaschineButton, b: MaschineButton)
    requires
        mirror_path(a) == mirror_path(b),
    ensures
        a == b,
{
    reveal_strlit("/");
    assert(a.token() =~= mirror_path(a).skip(1));
    assert(b.token() =~= mirror_path(b).skip(1));
    tokens_are_distinct(a, b);
}

/// A message does one thing at most: one that sets a light leaves the
/// note base as it was.
pub proof fn light_leaves_note_base(path: Seq<char>, arguments: Seq<OscArg>, current: u8)
    requires
        osc_light(path, arguments) is Some,
    ensures
        osc_note_base(path, arguments, current) == current,
{
    reveal_strlit("/maschine/button/");
    reveal_strlit("/maschine/pad");
    reveal_strlit("/maschine/midi_note_base");
    if note_base_address().is_prefix_of(path) {
        assert(path[10] == note_base_address()[10]);
        if button_address().is_prefix_of(path) {
            assert(path[10] == button_address()[10]);
        }
        if pad_address().is_prefix_of(path) {
            assert(path[10] == pad_address()[10]);
        }
    }
}

} // verus!
