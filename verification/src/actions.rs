//! What each button does: the table behind the dispatch.

use vstd::prelude::*;
use crate::buttons::MaschineButton;

verus! {

/// Control index of the first roller, less one: roller `i` speaks on
/// `CONTROL_BASE + i`, and the reserved button on `CONTROL_BASE` itself.
pub const CONTROL_BASE: u8 = 15;

/// Resolution of the control message a button sends.
#[derive(Clone, Copy, Debug, PartialEq, Eq, Structural)]
pub enum BitWidth {
    Seven,
    Fourteen,
}

/// What sets a button apart from one that only sends its status on its
/// control index.
#[derive(Clone, Copy, Debug, PartialEq, Eq, Structural)]
pub enum SpecialAction {
    /// Starts the step sequencer when the pads are in sequencer mode.
    Play,
    /// Stops the step sequencer.
    Stop,
    /// With shift held, puts the pads in sequencer mode.
    PadMode,
    /// The value button of the roller with this number, 1 to 7.
    RollerValue(u8),
    /// The value button of the eighth roller, which has no overflow counter.
    FreeRoller,
    /// The marker button that writes the overflow counter of the roller
    /// with this number, 1 to 7.
    RollerMarker(u8),
    /// Speaks on the reserved control index on every event, up or down.
    Reserved,
    /// Shift.
    Modifier,
    /// Sets the note base to this note number.
    Group(u8),
}

/// One row of the dispatch table.
#[derive(Clone, Copy, Debug, PartialEq, Eq, Structural)]
pub struct ButtonAction {
    /// The control index the button speaks on, if it sends MIDI at all.
    pub control_index: Option<u8>,
    pub bit_width: BitWidth,
    pub special: Option<SpecialAction>,
}

/// The row of `btn`.
pub open spec fn action_of(btn: MaschineButton) -> ButtonAction {
    match btn {
        MaschineButton::Play => ButtonAction { control_index: Some(1), bit_width: BitWidth::Seven, special: Some(SpecialAction::Play) },
        MaschineButton::Stop => ButtonAction { control_index: Some(2), bit_width: BitWidth::Seven, special: Some(SpecialAction::Stop) },
        MaschineButton::Rec => ButtonAction { control_index: Some(3), bit_width: BitWidth::Seven, special: None },
        MaschineButton::Grid => ButtonAction { control_index: Some(4), bit_width: BitWidth::Seven, special: None },
        MaschineButton::StepLeft => ButtonAction { control_index: Some(5), bit_width: BitWidth::Seven, special: None },
        MaschineButton::StepRight => ButtonAction { control_index: Some(6), bit_width: BitWidth::Seven, special: None },
        MaschineButton::Restart => ButtonAction { control_index: Some(7), bit_width: BitWidth::Seven, special: None },
        MaschineButton::Browse => ButtonAction { control_index: Some(8), bit_width: BitWidth::Seven, special: None },
        MaschineButton::Sampling => ButtonAction { control_index: Some(9), bit_width: BitWidth::Seven, special: None },
        MaschineButton::NoteRepeat => ButtonAction { control_index: Some(10), bit_width: BitWidth::Seven, special: None },
        MaschineButton::Control => ButtonAction { control_index: Some(11), bit_width: BitWidth::Seven, special: None },
        MaschineButton::Nav => ButtonAction { control_index: Some(12), bit_width: BitWidth::Seven, special: None },
        MaschineButton::NavLeft => ButtonAction { control_index: Some(13), bit_width: BitWidth::Seven, special: None },
        MaschineButton::NavRight => ButtonAction { control_index: Some(14), bit_width: BitWidth::Seven, special: None },
        MaschineButton::Main => ButtonAction { control_index: Some(24), bit_width: BitWidth::Seven, special: None },
        MaschineButton::Scene => ButtonAction { control_index: Some(25), bit_width: BitWidth::Seven, special: None },
        MaschineButton::Pattern => ButtonAction { control_index: Some(26), bit_width: BitWidth::Seven, special: None },
        MaschineButton::PadMode => ButtonAction { control_index: Some(27), bit_width: BitWidth::Seven, special: Some(SpecialAction::PadMode) },
        MaschineButton::View => ButtonAction { control_index: Some(28), bit_width: BitWidth::Seven, special: None },
        MaschineButton::Duplicate => ButtonAction { control_index: Some(29), bit_width: BitWidth::Seven, special: None },
        MaschineButton::Select => ButtonAction { control_index: Some(30), bit_width: BitWidth::Seven, special: None },
        MaschineButton::Solo => ButtonAction { control_index: Some(31), bit_width: BitWidth::Seven, special: None },
        MaschineButton::Step => ButtonAction { control_index: Some(32), bit_width: BitWidth::Seven, special: None },
        MaschineButton::Mute => ButtonAction { control_index: Some(33), bit_width: BitWidth::Seven, special: None },
        MaschineButton::Navigate => ButtonAction { control_index: Some(34), bit_width: BitWidth::Seven, special: None },
        MaschineButton::Tempo => ButtonAction { control_index: Some(35), bit_width: BitWidth::Seven, special: None },
        MaschineButton::Enter => ButtonAction { control_index: Some(36), bit_width: BitWidth::Seven, special: None },
        MaschineButton::Auto => ButtonAction { control_index: Some(37), bit_width: BitWidth::Seven, special: None },
        MaschineButton::All => ButtonAction { control_index: Some(38), bit_width: BitWidth::Seven, special: None },
        MaschineButton::F1 => ButtonAction { control_index: Some(39), bit_width: BitWidth::Seven, special: None },
        MaschineButton::F2 => ButtonAction { control_index: Some(40), bit_width: BitWidth::Seven, special: None },
        MaschineButton::F3 => ButtonAction { control_index: Some(41), bit_width: BitWidth::Seven, special: None },
        MaschineButton::F4 => ButtonAction { control_index: Some(42), bit_width: BitWidth::Seven, special: None },
        MaschineButton::F5 => ButtonAction { control_index: Some(43), bit_width: BitWidth::Seven, special: None },
        MaschineButton::F6 => ButtonAction { control_index: Some(44), bit_width: BitWidth::Seven, special: None },
        MaschineButton::F7 => ButtonAction { control_index: Some(45), bit_width: BitWidth::Seven, special: None },
        MaschineButton::F8 => ButtonAction { control_index: Some(46), bit_width: BitWidth::Seven, special: None },
        MaschineButton::PageRight => ButtonAction { control_index: Some(47), bit_width: BitWidth::Seven, special: None },
        MaschineButton::PageLeft => ButtonAction { control_index: Some(48), bit_width: BitWidth::Seven, special: None },
        MaschineButton::Shift => ButtonAction { control_index: None, bit_width: BitWidth::Seven, special: Some(SpecialAction::Modifier) },
        MaschineButton::GroupA => ButtonAction { control_index: None, bit_width: BitWidth::Seven, special: Some(SpecialAction::Group(24)) },
        MaschineButton::GroupB => ButtonAction { control_index: None, bit_width: BitWidth::Seven, special: Some(SpecialAction::Group(36)) },
        MaschineButton::GroupC => ButtonAction { control_index: None, bit_width: BitWidth::Seven, special: Some(SpecialAction::Group(48)) },
        MaschineButton::GroupD => ButtonAction { control_index: None, bit_width: BitWidth::Seven, special: Some(SpecialAction::Group(60)) },
        MaschineButton::GroupE => ButtonAction { control_index: None, bit_width: BitWidth::Seven, special: Some(SpecialAction::Group(72)) },
        MaschineButton::GroupF => ButtonAction { control_index: None, bit_width: BitWidth::Seven, special: Some(SpecialAction::Group(84)) },
        MaschineButton::GroupG => ButtonAction { control_index: None, bit_width: BitWidth::Seven, special: Some(SpecialAction::Group(96)) },
        MaschineButton::GroupH => ButtonAction { control_index: None, bit_width: BitWidth::Seven, special: Some(SpecialAction::Group(108)) },
        MaschineButton::B6 => ButtonAction { control_index: Some(16), bit_width: BitWidth::Fourteen, special: Some(SpecialAction::RollerValue(1)) },
        MaschineButton::D6 => ButtonAction { control_index: Some(17), bit_width: BitWidth::Fourteen, special: Some(SpecialAction::RollerValue(2)) },
        MaschineButton::FF6 => ButtonAction { control_index: Some(18), bit_width: BitWidth::Fourteen, special: Some(SpecialAction::RollerValue(3)) },
        MaschineButton::H6 => ButtonAction { control_index: Some(19), bit_width: BitWidth::Fourteen, special: Some(SpecialAction::RollerValue(4)) },
        MaschineButton::J6 => ButtonAction { control_index: Some(20), bit_width: BitWidth::Fourteen, special: Some(SpecialAction::RollerValue(5)) },
        MaschineButton::L6 => ButtonAction { control_index: Some(21), bit_width: BitWidth::Fourteen, special: Some(SpecialAction::RollerValue(6)) },
        MaschineButton::N6 => ButtonAction { control_index: Some(22), bit_width: BitWidth::Fourteen, special: Some(SpecialAction::RollerValue(7)) },
        MaschineButton::P6 => ButtonAction { control_index: Some(23), bit_width: BitWidth::Fourteen, special: Some(SpecialAction::FreeRoller) },
        MaschineButton::C8 => ButtonAction { control_index: None, bit_width: BitWidth::Seven, special: Some(SpecialAction::RollerMarker(1)) },
        MaschineButton::E8 => ButtonAction { control_index: None, bit_width: BitWidth::Seven, special: Some(SpecialAction::RollerMarker(2)) },
        MaschineButton::G8 => ButtonAction { control_index: None, bit_width: BitWidth::Seven, special: Some(SpecialAction::RollerMarker(3)) },
        MaschineButton::I8 => ButtonAction { control_index: None, bit_width: BitWidth::Seven, special: Some(SpecialAction::RollerMarker(4)) },
        MaschineButton::K8 => ButtonAction { control_index: None, bit_width: BitWidth::Seven, special: Some(SpecialAction::RollerMarker(5)) },
        MaschineButton::M8 => ButtonAction { control_index: None, bit_width: BitWidth::Seven, special: Some(SpecialAction::RollerMarker(6)) },
        MaschineButton::O8 => ButtonAction { control_index: None, bit_width: BitWidth::Seven, special: Some(SpecialAction::RollerMarker(7)) },
        MaschineButton::A8 => ButtonAction { control_index: Some(15), bit_width: BitWidth::Seven, special: Some(SpecialAction::Reserved) },
        MaschineButton::C7 => ButtonAction { control_index: None, bit_width: BitWidth::Seven, special: None },
    }
}

/// Looks up the row of `btn`.
pub fn button_action(btn: MaschineButton) -> (action: ButtonAction)
    ensures
        action == action_of(btn),
{
    match btn {
        MaschineButton::Play => ButtonAction { control_index: Some(1), bit_width: BitWidth::Seven, special: Some(SpecialAction::Play) },
        MaschineButton::Stop => ButtonAction { control_index: Some(2), bit_width: BitWidth::Seven, special: Some(SpecialAction::Stop) },
        MaschineButton::Rec => ButtonAction { control_index: Some(3), bit_width: BitWidth::Seven, special: None },
        MaschineButton::Grid => ButtonAction { control_index: Some(4), bit_width: BitWidth::Seven, special: None },
        MaschineButton::StepLeft => ButtonAction { control_index: Some(5), bit_width: BitWidth::Seven, special: None },
        MaschineButton::StepRight => ButtonAction { control_index: Some(6), bit_width: BitWidth::Seven, special: None },
        MaschineButton::Restart => ButtonAction { control_index: Some(7), bit_width: BitWidth::Seven, special: None },
        MaschineButton::Browse => ButtonAction { control_index: Some(8), bit_width: BitWidth::Seven, special: None },
        MaschineButton::Sampling => ButtonAction { control_index: Some(9), bit_width: BitWidth::Seven, special: None },
        MaschineButton::NoteRepeat => ButtonAction { control_index: Some(10), bit_width: BitWidth::Seven, special: None },
        MaschineButton::Control => ButtonAction { control_index: Some(11), bit_width: BitWidth::Seven, special: None },
        MaschineButton::Nav => ButtonAction { control_index: Some(12), bit_width: BitWidth::Seven, special: None },
        MaschineButton::NavLeft => ButtonAction { control_index: Some(13), bit_width: BitWidth::Seven, special: None },
        MaschineButton::NavRight => ButtonAction { control_index: Some(14), bit_width: BitWidth::Seven, special: None },
        MaschineButton::Main => ButtonAction { control_index: Some(24), bit_width: BitWidth::Seven, special: None },
        MaschineButton::Scene => ButtonAction { control_index: Some(25), bit_width: BitWidth::Seven, special: None },
        MaschineButton::Pattern => ButtonAction { control_index: Some(26), bit_width: BitWidth::Seven, special: None },
        MaschineButton::PadMode => ButtonAction { control_index: Some(27), bit_width: BitWidth::Seven, special: Some(SpecialAction::PadMode) },
        MaschineButton::View => ButtonAction { control_index: Some(28), bit_width: BitWidth::Seven, special: None },
        MaschineButton::Duplicate => ButtonAction { control_index: Some(29), bit_width: BitWidth::Seven, special: None },
        MaschineButton::Select => ButtonAction { control_index: Some(30), bit_width: BitWidth::Seven, special: None },
        MaschineButton::Solo => ButtonAction { control_index: Some(31), bit_width: BitWidth::Seven, special: None },
        MaschineButton::Step => ButtonAction { control_index: Some(32), bit_width: BitWidth::Seven, special: None },
        MaschineButton::Mute => ButtonAction { control_index: Some(33), bit_width: BitWidth::Seven, special: None },
        MaschineButton::Navigate => ButtonAction { control_index: Some(34), bit_width: BitWidth::Seven, special: None },
        MaschineButton::Tempo => ButtonAction { control_index: Some(35), bit_width: BitWidth::Seven, special: None },
        MaschineButton::Enter => ButtonAction { control_index: Some(36), bit_width: BitWidth::Seven, special: None },
        MaschineButton::Auto => ButtonAction { control_index: Some(37), bit_width: BitWidth::Seven, special: None },
        MaschineButton::All => ButtonAction { control_index: Some(38), bit_width: BitWidth::Seven, special: None },
        MaschineButton::F1 => ButtonAction { control_index: Some(39), bit_width: BitWidth::Seven, special: None },
        MaschineButton::F2 => ButtonAction { control_index: Some(40), bit_width: BitWidth::Seven, special: None },
        MaschineButton::F3 => ButtonAction { control_index: Some(41), bit_width: BitWidth::Seven, special: None },
        MaschineButton::F4 => ButtonAction { control_index: Some(42), bit_width: BitWidth::Seven, special: None },
        MaschineButton::F5 => ButtonAction { control_index: Some(43), bit_width: BitWidth::Seven, special: None },
        MaschineButton::F6 => ButtonAction { control_index: Some(44), bit_width: BitWidth::Seven, special: None },
        MaschineButton::F7 => ButtonAction { control_index: Some(45), bit_width: BitWidth::Seven, special: None },
        MaschineButton::F8 => ButtonAction { control_index: Some(46), bit_width: BitWidth::Seven, special: None },
        MaschineButton::PageRight => ButtonAction { control_index: Some(47), bit_width: BitWidth::Seven, special: None },
        MaschineButton::PageLeft => ButtonAction { control_index: Some(48), bit_width: BitWidth::Seven, special: None },
        MaschineButton::Shift => ButtonAction { control_index: None, bit_width: BitWidth::Seven, special: Some(SpecialAction::Modifier) },
        MaschineButton::GroupA => ButtonAction { control_index: None, bit_width: BitWidth::Seven, special: Some(SpecialAction::Group(24)) },
        MaschineButton::GroupB => ButtonAction { control_index: None, bit_width: BitWidth::Seven, special: Some(SpecialAction::Group(36)) },
        MaschineButton::GroupC => ButtonAction { control_index: None, bit_width: BitWidth::Seven, special: Some(SpecialAction::Group(48)) },
        MaschineButton::GroupD => ButtonAction { control_index: None, bit_width: BitWidth::Seven, special: Some(SpecialAction::Group(60)) },
        MaschineButton::GroupE => ButtonAction { control_index: None, bit_width: BitWidth::Seven, special: Some(SpecialAction::Group(72)) },
        MaschineButton::GroupF => ButtonAction { control_index: None, bit_width: BitWidth::Seven, special: Some(SpecialAction::Group(84)) },
        MaschineButton::GroupG => ButtonAction { control_index: None, bit_width: BitWidth::Seven, special: Some(SpecialAction::Group(96)) },
        MaschineButton::GroupH => ButtonAction { control_index: None, bit_width: BitWidth::Seven, special: Some(SpecialAction::Group(108)) },
        MaschineButton::B6 => ButtonAction { control_index: Some(16), bit_width: BitWidth::Fourteen, special: Some(SpecialAction::RollerValue(1)) },
        MaschineButton::D6 => ButtonAction { control_index: Some(17), bit_width: BitWidth::Fourteen, special: Some(SpecialAction::RollerValue(2)) },
        MaschineButton::FF6 => ButtonAction { control_index: Some(18), bit_width: BitWidth::Fourteen, special: Some(SpecialAction::RollerValue(3)) },
        MaschineButton::H6 => ButtonAction { control_index: Some(19), bit_width: BitWidth::Fourteen, special: Some(SpecialAction::RollerValue(4)) },
        MaschineButton::J6 => ButtonAction { control_index: Some(20), bit_width: BitWidth::Fourteen, special: Some(SpecialAction::RollerValue(5)) },
        MaschineButton::L6 => ButtonAction { control_index: Some(21), bit_width: BitWidth::Fourteen, special: Some(SpecialAction::RollerValue(6)) },
        MaschineButton::N6 => ButtonAction { control_index: Some(22), bit_width: BitWidth::Fourteen, special: Some(SpecialAction::RollerValue(7)) },
        MaschineButton::P6 => ButtonAction { control_index: Some(23), bit_width: BitWidth::Fourteen, special: Some(SpecialAction::FreeRoller) },
        MaschineButton::C8 => ButtonAction { control_index: None, bit_width: BitWidth::Seven, special: Some(SpecialAction::RollerMarker(1)) },
        MaschineButton::E8 => ButtonAction { control_index: None, bit_width: BitWidth::Seven, special: Some(SpecialAction::RollerMarker(2)) },
        MaschineButton::G8 => ButtonAction { control_index: None, bit_width: BitWidth::Seven, special: Some(SpecialAction::RollerMarker(3)) },
        MaschineButton::I8 => ButtonAction { control_index: None, bit_width: BitWidth::Seven, special: Some(SpecialAction::RollerMarker(4)) },
        MaschineButton::K8 => ButtonAction { control_index: None, bit_width: BitWidth::Seven, special: Some(SpecialAction::RollerMarker(5)) },
        MaschineButton::M8 => ButtonAction { control_index: None, bit_width: BitWidth::Seven, special: Some(SpecialAction::RollerMarker(6)) },
        MaschineButton::O8 => ButtonAction { control_index: None, bit_width: BitWidth::Seven, special: Some(SpecialAction::RollerMarker(7)) },
        MaschineButton::A8 => ButtonAction { control_index: Some(15), bit_width: BitWidth::Seven, special: Some(SpecialAction::Reserved) },
        MaschineButton::C7 => ButtonAction { control_index: None, bit_width: BitWidth::Seven, special: None },
    }
}

/// A control index belongs to one button only.
pub proof fn control_indices_are_distinct(a: MaschineButton, b: MaschineButton)
    requires
        action_of(a).control_index is Some,
        action_of(a).control_index == action_of(b).control_index,
    ensures
        a == b,
{
}

/// Control indices run from 1 to 48; the rollers and the reserved button
/// hold the block from `CONTROL_BASE` to `CONTROL_BASE + 8`, and only
/// rollers speak with fourteen bits.
pub proof fn control_indices_are_laid_out(btn: MaschineButton)
    ensures
        match action_of(btn).control_index {
            Some(index) => 1 <= index <= 48,
            None => true,
        },
        match action_of(btn).special {
            Some(SpecialAction::RollerValue(roller)) => 1 <= roller <= 7 && action_of(
                btn,
            ).control_index == Some((CONTROL_BASE + roller) as u8),
            Some(SpecialAction::FreeRoller) => action_of(btn).control_index == Some(
                (CONTROL_BASE + 8) as u8,
            ),
            Some(SpecialAction::RollerMarker(roller)) => 1 <= roller <= 7 && action_of(
                btn,
            ).control_index is None,
            Some(SpecialAction::Reserved) => action_of(btn).control_index == Some(CONTROL_BASE),
            Some(SpecialAction::Modifier) | Some(SpecialAction::Group(_)) => action_of(
                btn,
            ).control_index is None,
            Some(SpecialAction::Play) | Some(SpecialAction::Stop) | Some(SpecialAction::PadMode)
            | None => true,
        },
        action_of(btn).bit_width == BitWidth::Fourteen <==> (action_of(btn).special matches Some(
            s,
        ) && (s is RollerValue || s is FreeRoller)),
{
}

/// Each roller has one marker button and one value button.
pub proof fn rollers_have_one_button_each(a: MaschineButton, b: MaschineButton)
    requires
        action_of(a).special == action_of(b).special,
        action_of(a).special matches Some(s) && (s is RollerValue || s is RollerMarker),
    ensures
        a == b,
{
}

} // verus!
