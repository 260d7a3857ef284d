//! The controller's buttons and the name each one carries in OSC paths.

use vstd::prelude::*;
use crate::text::same_text;

verus! {

/// Every physical button the controller reports.
///
/// The lower-case names are the transport, navigation and function keys, the
/// groups are the eight lettered keys that choose a note range, and the
/// letter-and-digit names are positions on the touch strip grid.
#[derive(Clone, Copy, Debug, PartialEq, Eq, Hash, Structural)]
pub enum MaschineButton {
    Play,
    Stop,
    Rec,
    Grid,
    StepLeft,
    StepRight,
    Restart,
    Browse,
    Sampling,
    NoteRepeat,
    Control,
    Nav,
    NavLeft,
    NavRight,
    Main,
    Scene,
    Pattern,
    PadMode,
    View,
    Duplicate,
    Select,
    Solo,
    Step,
    Mute,
    Navigate,
    Tempo,
    Enter,
    Auto,
    All,
    F1,
    F2,
    F3,
    F4,
    F5,
    F6,
    F7,
    F8,
    PageRight,
    PageLeft,
    Shift,
    GroupA,
    GroupB,
    GroupC,
    GroupD,
    GroupE,
    GroupF,
    GroupG,
    GroupH,
    B6,
    D6,
    FF6,
    H6,
    J6,
    L6,
    N6,
    P6,
    C8,
    E8,
    G8,
    I8,
    K8,
    M8,
    O8,
    A8,
    C7,
}

/// How many buttons there are.
pub const BUTTON_COUNT: u8 = 65;

impl MaschineButton {
    /// The button's name as it stands in an OSC path.
    pub open spec fn token(self) -> Seq<char> {
        match self {
            MaschineButton::Play => "play"@,
            MaschineButton::Stop => "stop"@,
            MaschineButton::Rec => "rec"@,
            MaschineButton::Grid => "grid"@,
            MaschineButton::StepLeft => "step_left"@,
            MaschineButton::StepRight => "step_right"@,
            MaschineButton::Restart => "restart"@,
            MaschineButton::Browse => "browse"@,
            MaschineButton::Sampling => "sampling"@,
            MaschineButton::NoteRepeat => "note_repeat"@,
            MaschineButton::Control => "control"@,
            MaschineButton::Nav => "nav"@,
            MaschineButton::NavLeft => "nav_left"@,
            MaschineButton::NavRight => "nav_right"@,
            MaschineButton::Main => "main"@,
            MaschineButton::Scene => "scene"@,
            MaschineButton::Pattern => "pattern"@,
            MaschineButton::PadMode => "pad_mode"@,
            MaschineButton::View => "view"@,
            MaschineButton::Duplicate => "duplicate"@,
            MaschineButton::Select => "select"@,
            MaschineButton::Solo => "solo"@,
            MaschineButton::Step => "step"@,
            MaschineButton::Mute => "mute"@,
            MaschineButton::Navigate => "navigate"@,
            MaschineButton::Tempo => "tempo"@,
            MaschineButton::Enter => "enter"@,
            MaschineButton::Auto => "auto"@,
            MaschineButton::All => "all"@,
            MaschineButton::F1 => "f1"@,
            MaschineButton::F2 => "f2"@,
            MaschineButton::F3 => "f3"@,
            MaschineButton::F4 => "f4"@,
            MaschineButton::F5 => "f5"@,
            MaschineButton::F6 => "f6"@,
            MaschineButton::F7 => "f7"@,
            MaschineButton::F8 => "f8"@,
            MaschineButton::PageRight => "page_right"@,
            MaschineButton::PageLeft => "page_left"@,
            MaschineButton::Shift => "shift"@,
            MaschineButton::GroupA => "group_a"@,
            MaschineButton::GroupB => "group_b"@,
            MaschineButton::GroupC => "group_c"@,
            MaschineButton::GroupD => "group_d"@,
            MaschineButton::GroupE => "group_e"@,
            MaschineButton::GroupF => "group_f"@,
            MaschineButton::GroupG => "group_g"@,
            MaschineButton::GroupH => "group_h"@,
            MaschineButton::B6 => "B6"@,
            MaschineButton::D6 => "D6"@,
            MaschineButton::FF6 => "FF6"@,
            MaschineButton::H6 => "H6"@,
            MaschineButton::J6 => "J6"@,
            MaschineButton::L6 => "L6"@,
            MaschineButton::N6 => "N6"@,
            MaschineButton::P6 => "P6"@,
            MaschineButton::C8 => "C8"@,
            MaschineButton::E8 => "E8"@,
            MaschineButton::G8 => "G8"@,
            MaschineButton::I8 => "I8"@,
            MaschineButton::K8 => "K8"@,
            MaschineButton::M8 => "M8"@,
            MaschineButton::O8 => "O8"@,
            MaschineButton::A8 => "A8"@,
            MaschineButton::C7 => "C7"@,
        }
    }

    /// The button's place in the fixed order of all buttons.
    pub open spec fn ordinal(self) -> nat {
        match self {
            MaschineButton::Play => 0,
            MaschineButton::Stop => 1,
            MaschineButton::Rec => 2,
            MaschineButton::Grid => 3,
            MaschineButton::StepLeft => 4,
            MaschineButton::StepRight => 5,
            MaschineButton::Restart => 6,
            MaschineButton::Browse => 7,
            MaschineButton::Sampling => 8,
            MaschineButton::NoteRepeat => 9,
            MaschineButton::Control => 10,
            MaschineButton::Nav => 11,
            MaschineButton::NavLeft => 12,
            MaschineButton::NavRight => 13,
            MaschineButton::Main => 14,
            MaschineButton::Scene => 15,
            MaschineButton::Pattern => 16,
            MaschineButton::PadMode => 17,
            MaschineButton::View => 18,
            MaschineButton::Duplicate => 19,
            MaschineButton::Select => 20,
            MaschineButton::Solo => 21,
            MaschineButton::Step => 22,
            MaschineButton::Mute => 23,
            MaschineButton::Navigate => 24,
            MaschineButton::Tempo => 25,
            MaschineButton::Enter => 26,
            MaschineButton::Auto => 27,
            MaschineButton::All => 28,
            MaschineButton::F1 => 29,
            MaschineButton::F2 => 30,
            MaschineButton::F3 => 31,
            MaschineButton::F4 => 32,
            MaschineButton::F5 => 33,
            MaschineButton::F6 => 34,
            MaschineButton::F7 => 35,
            MaschineButton::F8 => 36,
            MaschineButton::PageRight => 37,
            MaschineButton::PageLeft => 38,
            MaschineButton::Shift => 39,
            MaschineButton::GroupA => 40,
            MaschineButton::GroupB => 41,
            MaschineButton::GroupC => 42,
            MaschineButton::GroupD => 43,
            MaschineButton::GroupE => 44,
            MaschineButton::GroupF => 45,
            MaschineButton::GroupG => 46,
            MaschineButton::GroupH => 47,
            MaschineButton::B6 => 48,
            MaschineButton::D6 => 49,
            MaschineButton::FF6 => 50,
            MaschineButton::H6 => 51,
            MaschineButton::J6 => 52,
            MaschineButton::L6 => 53,
            MaschineButton::N6 => 54,
            MaschineButton::P6 => 55,
            MaschineButton::C8 => 56,
            MaschineButton::E8 => 57,
            MaschineButton::G8 => 58,
            MaschineButton::I8 => 59,
            MaschineButton::K8 => 60,
            MaschineButton::M8 => 61,
            MaschineButton::O8 => 62,
            MaschineButton::A8 => 63,
            MaschineButton::C7 => 64,
        }
    }

    /// The button at place `index`, if there is one.
    pub fn from_ordinal(index: u8) -> (button: Option<MaschineButton>)
        ensures
            match button {
                Some(b) => b.ordinal() == index,
                None => index >= BUTTON_COUNT,
            },
    {
        match index {
            0 => Some(MaschineButton::Play),
            1 => Some(MaschineButton::Stop),
            2 => Some(MaschineButton::Rec),
            3 => Some(MaschineButton::Grid),
            4 => Some(MaschineButton::StepLeft),
            5 => Some(MaschineButton::StepRight),
            6 => Some(MaschineButton::Restart),
            7 => Some(MaschineButton::Browse),
            8 => Some(MaschineButton::Sampling),
            9 => Some(MaschineButton::NoteRepeat),
            10 => Some(MaschineButton::Control),
            11 => Some(MaschineButton::Nav),
            12 => Some(MaschineButton::NavLeft),
            13 => Some(MaschineButton::NavRight),
            14 => Some(MaschineButton::Main),
            15 => Some(MaschineButton::Scene),
            16 => Some(MaschineButton::Pattern),
            17 => Some(MaschineButton::PadMode),
            18 => Some(MaschineButton::View),
            19 => Some(MaschineButton::Duplicate),
            20 => Some(MaschineButton::Select),
            21 => Some(MaschineButton::Solo),
            22 => Some(MaschineButton::Step),
            23 => Some(MaschineButton::Mute),
            24 => Some(MaschineButton::Navigate),
            25 => Some(MaschineButton::Tempo),
            26 => Some(MaschineButton::Enter),
            27 => Some(MaschineButton::Auto),
            28 => Some(MaschineButton::All),
            29 => Some(MaschineButton::F1),
            30 => Some(MaschineButton::F2),
            31 => Some(MaschineButton::F3),
            32 => Some(MaschineButton::F4),
            33 => Some(MaschineButton::F5),
            34 => Some(MaschineButton::F6),
            35 => Some(MaschineButton::F7),
            36 => Some(MaschineButton::F8),
            37 => Some(MaschineButton::PageRight),
            38 => Some(MaschineButton::PageLeft),
            39 => Some(MaschineButton::Shift),
            40 => Some(MaschineButton::GroupA),
            41 => Some(MaschineButton::GroupB),
            42 => Some(MaschineButton::GroupC),
            43 => Some(MaschineButton::GroupD),
            44 => Some(MaschineButton::GroupE),
            45 => Some(MaschineButton::GroupF),
            46 => Some(MaschineButton::GroupG),
            47 => Some(MaschineButton::GroupH),
            48 => Some(MaschineButton::B6),
            49 => Some(MaschineButton::D6),
            50 => Some(MaschineButton::FF6),
            51 => Some(MaschineButton::H6),
            52 => Some(MaschineButton::J6),
            53 => Some(MaschineButton::L6),
            54 => Some(MaschineButton::N6),
            55 => Some(MaschineButton::P6),
            56 => Some(MaschineButton::C8),
            57 => Some(MaschineButton::E8),
            58 => Some(MaschineButton::G8),
            59 => Some(MaschineButton::I8),
            60 => Some(MaschineButton::K8),
            61 => Some(MaschineButton::M8),
            62 => Some(MaschineButton::O8),
            63 => Some(MaschineButton::A8),
            64 => Some(MaschineButton::C7),
            _ => None,
        }
    }
}

/// The name under which `btn` appears in OSC paths.
pub fn btn_to_osc_button_map(btn: MaschineButton) -> (token: &'static str)
    ensures
        token@ == btn.token(),
{
    match btn {
        MaschineButton::Play => "play",
        MaschineButton::Stop => "stop",
        MaschineButton::Rec => "rec",
        MaschineButton::Grid => "grid",
        MaschineButton::StepLeft => "step_left",
        MaschineButton::StepRight => "step_right",
        MaschineButton::Restart => "restart",
        MaschineButton::Browse => "browse",
        MaschineButton::Sampling => "sampling",
        MaschineButton::NoteRepeat => "note_repeat",
        MaschineButton::Control => "control",
        MaschineButton::Nav => "nav",
        MaschineButton::NavLeft => "nav_left",
        MaschineButton::NavRight => "nav_right",
        MaschineButton::Main => "main",
        MaschineButton::Scene => "scene",
        MaschineButton::Pattern => "pattern",
        MaschineButton::PadMode => "pad_mode",
        MaschineButton::View => "view",
        MaschineButton::Duplicate => "duplicate",
        MaschineButton::Select => "select",
        MaschineButton::Solo => "solo",
        MaschineButton::Step => "step",
        MaschineButton::Mute => "mute",
        MaschineButton::Navigate => "navigate",
        MaschineButton::Tempo => "tempo",
        MaschineButton::Enter => "enter",
        MaschineButton::Auto => "auto",
        MaschineButton::All => "all",
        MaschineButton::F1 => "f1",
        MaschineButton::F2 => "f2",
        MaschineButton::F3 => "f3",
        MaschineButton::F4 => "f4",
        MaschineButton::F5 => "f5",
        MaschineButton::F6 => "f6",
        MaschineButton::F7 => "f7",
        MaschineButton::F8 => "f8",
        MaschineButton::PageRight => "page_right",
        MaschineButton::PageLeft => "page_left",
        MaschineButton::Shift => "shift",
        MaschineButton::GroupA => "group_a",
        MaschineButton::GroupB => "group_b",
        MaschineButton::GroupC => "group_c",
        MaschineButton::GroupD => "group_d",
        MaschineButton::GroupE => "group_e",
        MaschineButton::GroupF => "group_f",
        MaschineButton::GroupG => "group_g",
        MaschineButton::GroupH => "group_h",
        MaschineButton::B6 => "B6",
        MaschineButton::D6 => "D6",
        MaschineButton::FF6 => "FF6",
        MaschineButton::H6 => "H6",
        MaschineButton::J6 => "J6",
        MaschineButton::L6 => "L6",
        MaschineButton::N6 => "N6",
        MaschineButton::P6 => "P6",
        MaschineButton::C8 => "C8",
        MaschineButton::E8 => "E8",
        MaschineButton::G8 => "G8",
        MaschineButton::I8 => "I8",
        MaschineButton::K8 => "K8",
        MaschineButton::M8 => "M8",
        MaschineButton::O8 => "O8",
        MaschineButton::A8 => "A8",
        MaschineButton::C7 => "C7",
    }
}

/// The button that carries the name `name`, if one does.
pub open spec fn button_named(name: Seq<char>) -> Option<MaschineButton> {
    if exists|b: MaschineButton| b.token() == name {
        Some(choose|b: MaschineButton| b.token() == name)
    } else {
        None
    }
}

/// The button named `name`, if any button carries that name.
pub fn osc_button_to_btn_map(name: &str) -> (btn: Option<MaschineButton>)
    ensures
        btn == button_named(name@),
        match btn {
            Some(b) => b.token() == name@,
            None => forall|b: MaschineButton| b.token() != name@,
        },
{
    let mut index: u8 = 0;
    while index < BUTTON_COUNT
        invariant
            index <= BUTTON_COUNT,
            forall|b: MaschineButton| b.ordinal() < index ==> b.token() != name@,
        decreases BUTTON_COUNT - index,
    {
        match MaschineButton::from_ordinal(index) {
            Some(candidate) => {
                if same_text(btn_to_osc_button_map(candidate), name) {
                    proof {
                        tokens_are_distinct(candidate, button_named(name@).unwrap());
                    }
                    return Some(candidate);
                }
                proof {
                    assert forall|b: MaschineButton| b.ordinal() < index + 1 implies b.token()
                        != name@ by {
                        if b.ordinal() == index {
                            ordinals_are_distinct(b, candidate);
                        }
                    }
                }
            },
            None => {},
        }
        index += 1;
    }
    proof {
        assert forall|b: MaschineButton| b.token() != name@ by {
            ordinal_in_range(b);
        }
    }
    None
}

/// Every button has a place below [`BUTTON_COUNT`].
pub proof fn ordinal_in_range(b: MaschineButton)
    ensures
        b.ordinal() < BUTTON_COUNT,
{
}

/// No two buttons share a place in the order.
pub proof fn ordinals_are_distinct(a: MaschineButton, b: MaschineButton)
    requires
        a.ordinal() == b.ordinal(),
    ensures
        a == b,
{
}

/// The length of a name and its first seven characters, which together tell
/// every button name from every other.
spec fn leading_chars(s: Seq<char>) -> (nat, char, char, char, char, char, char, char) {
    (s.len(), s[0], s[1], s[2], s[3], s[4], s[5], s[6])
}

/// No two buttons share a name, so a name identifies at most one button and
/// looking up a button's own name gives that button back.
pub proof fn tokens_are_distinct(a: MaschineButton, b: MaschineButton)
    requires
        a.token() == b.token(),
    ensures
        a == b,
{
    assert(leading_chars(a.token()) == leading_chars(b.token()));
    reveal_strlit("play");
    reveal_strlit("stop");
    reveal_strlit("rec");
    reveal_strlit("grid");
    reveal_strlit("step_left");
    reveal_strlit("step_right");
    reveal_strlit("restart");
    reveal_strlit("browse");
    reveal_strlit("sampling");
    reveal_strlit("note_repeat");
    reveal_strlit("control");
    reveal_strlit("nav");
    reveal_strlit("nav_left");
    reveal_strlit("nav_right");
    reveal_strlit("main");
    reveal_strlit("scene");
    reveal_strlit("pattern");
    reveal_strlit("pad_mode");
    reveal_strlit("view");
    reveal_strlit("duplicate");
    reveal_strlit("select");
    reveal_strlit("solo");
    reveal_strlit("step");
    reveal_strlit("mute");
    reveal_strlit("navigate");
    reveal_strlit("tempo");
    reveal_strlit("enter");
    reveal_strlit("auto");
    reveal_strlit("all");
    reveal_strlit("f1");
    reveal_strlit("f2");
    reveal_strlit("f3");
    reveal_strlit("f4");
    reveal_strlit("f5");
    reveal_strlit("f6");
    reveal_strlit("f7");
    reveal_strlit("f8");
    reveal_strlit("page_right");
    reveal_strlit("page_left");
    reveal_strlit("shift");
    reveal_strlit("group_a");
    reveal_strlit("group_b");
    reveal_strlit("group_c");
    reveal_strlit("group_d");
    reveal_strlit("group_e");
    reveal_strlit("group_f");
    reveal_strlit("group_g");
    reveal_strlit("group_h");
    reveal_strlit("B6");
    reveal_strlit("D6");
    reveal_strlit("FF6");
    reveal_strlit("H6");
    reveal_strlit("J6");
    reveal_strlit("L6");
    reveal_strlit("N6");
    reveal_strlit("P6");
    reveal_strlit("C8");
    reveal_strlit("E8");
    reveal_strlit("G8");
    reveal_strlit("I8");
    reveal_strlit("K8");
    reveal_strlit("M8");
    reveal_strlit("O8");
    reveal_strlit("A8");
    reveal_strlit("C7");
}

} // verus!
