use maschine::actions::{button_action, BitWidth, SpecialAction, CONTROL_BASE};
use maschine::buttons::{
    btn_to_osc_button_map, osc_button_to_btn_map, MaschineButton, BUTTON_COUNT,
};
use maschine::text::{same_text, starts_with};

fn all_buttons() -> Vec<MaschineButton> {
    (0..BUTTON_COUNT).map(|i| MaschineButton::from_ordinal(i).unwrap()).collect()
}

#[test]
fn every_ordinal_below_the_count_names_a_button() {
    assert_eq!(BUTTON_COUNT, 65);
    assert_eq!(all_buttons().len(), 65);
    assert_eq!(MaschineButton::from_ordinal(0), Some(MaschineButton::Play));
    assert_eq!(MaschineButton::from_ordinal(64), Some(MaschineButton::C7));
    assert_eq!(MaschineButton::from_ordinal(65), None);
    assert_eq!(MaschineButton::from_ordinal(255), None);
}

#[test]
fn token_lookup_gives_the_button_back() {
    for button in all_buttons() {
        let token = btn_to_osc_button_map(button);
        assert_eq!(osc_button_to_btn_map(token), Some(button), "token {}", token);
    }
}

#[test]
fn tokens_are_pairwise_different() {
    let buttons = all_buttons();
    for (i, a) in buttons.iter().enumerate() {
        for b in buttons.iter().skip(i + 1) {
            assert_ne!(btn_to_osc_button_map(*a), btn_to_osc_button_map(*b));
        }
    }
}

#[test]
fn known_tokens() {
    assert_eq!(btn_to_osc_button_map(MaschineButton::Play), "play");
    assert_eq!(btn_to_osc_button_map(MaschineButton::NoteRepeat), "note_repeat");
    assert_eq!(btn_to_osc_button_map(MaschineButton::FF6), "FF6");
    assert_eq!(btn_to_osc_button_map(MaschineButton::GroupH), "group_h");
    assert_eq!(osc_button_to_btn_map("shift"), Some(MaschineButton::Shift));
    assert_eq!(osc_button_to_btn_map("page_left"), Some(MaschineButton::PageLeft));
}

#[test]
fn unknown_tokens_name_no_button() {
    assert_eq!(osc_button_to_btn_map(""), None);
    assert_eq!(osc_button_to_btn_map("Play"), None);
    assert_eq!(osc_button_to_btn_map("play "), None);
    assert_eq!(osc_button_to_btn_map("pla"), None);
    assert_eq!(osc_button_to_btn_map("f9"), None);
    assert_eq!(osc_button_to_btn_map("F6"), None);
    assert_eq!(osc_button_to_btn_map("pl\u{e4}y"), None);
}

#[test]
fn control_indices_follow_the_table() {
    let expect = [
        (MaschineButton::Play, 1),
        (MaschineButton::Stop, 2),
        (MaschineButton::Rec, 3),
        (MaschineButton::Grid, 4),
        (MaschineButton::StepLeft, 5),
        (MaschineButton::StepRight, 6),
        (MaschineButton::Restart, 7),
        (MaschineButton::Browse, 8),
        (MaschineButton::Sampling, 9),
        (MaschineButton::NoteRepeat, 10),
        (MaschineButton::Control, 11),
        (MaschineButton::Nav, 12),
        (MaschineButton::NavLeft, 13),
        (MaschineButton::NavRight, 14),
        (MaschineButton::A8, 15),
        (MaschineButton::B6, 16),
        (MaschineButton::P6, 23),
        (MaschineButton::Main, 24),
        (MaschineButton::PadMode, 27),
        (MaschineButton::All, 38),
        (MaschineButton::F1, 39),
        (MaschineButton::F8, 46),
        (MaschineButton::PageRight, 47),
        (MaschineButton::PageLeft, 48),
    ];
    for (button, index) in expect {
        assert_eq!(button_action(button).control_index, Some(index), "{:?}", button);
    }
    assert_eq!(CONTROL_BASE, 15);
}

#[test]
fn control_indices_are_unique_and_in_range() {
    let mut seen = [false; 256];
    for button in all_buttons() {
        if let Some(index) = button_action(button).control_index {
            assert!((1..=48).contains(&index));
            assert!(!seen[index as usize], "index {} twice", index);
            seen[index as usize] = true;
        }
    }
    assert_eq!(seen.iter().filter(|s| **s).count(), 48);
}

#[test]
fn rollers_speak_with_fourteen_bits() {
    let values = [
        MaschineButton::B6,
        MaschineButton::D6,
        MaschineButton::FF6,
        MaschineButton::H6,
        MaschineButton::J6,
        MaschineButton::L6,
        MaschineButton::N6,
    ];
    for (i, button) in values.iter().enumerate() {
        let action = button_action(*button);
        assert_eq!(action.special, Some(SpecialAction::RollerValue(i as u8 + 1)));
        assert_eq!(action.control_index, Some(CONTROL_BASE + i as u8 + 1));
        assert_eq!(action.bit_width, BitWidth::Fourteen);
    }
    assert_eq!(button_action(MaschineButton::P6).special, Some(SpecialAction::FreeRoller));
    assert_eq!(button_action(MaschineButton::P6).bit_width, BitWidth::Fourteen);
    let fourteen = all_buttons()
        .into_iter()
        .filter(|b| button_action(*b).bit_width == BitWidth::Fourteen)
        .count();
    assert_eq!(fourteen, 8);
}

#[test]
fn each_roller_has_one_marker() {
    let markers = [
        MaschineButton::C8,
        MaschineButton::E8,
        MaschineButton::G8,
        MaschineButton::I8,
        MaschineButton::K8,
        MaschineButton::M8,
        MaschineButton::O8,
    ];
    for (i, button) in markers.iter().enumerate() {
        let action = button_action(*button);
        assert_eq!(action.special, Some(SpecialAction::RollerMarker(i as u8 + 1)));
        assert_eq!(action.control_index, None);
    }
    let count = all_buttons()
        .into_iter()
        .filter(|b| matches!(button_action(*b).special, Some(SpecialAction::RollerMarker(_))))
        .count();
    assert_eq!(count, 7);
}

#[test]
fn groups_carry_their_note_base() {
    let groups = [
        (MaschineButton::GroupA, 24),
        (MaschineButton::GroupB, 36),
        (MaschineButton::GroupC, 48),
        (MaschineButton::GroupD, 60),
        (MaschineButton::GroupE, 72),
        (MaschineButton::GroupF, 84),
        (MaschineButton::GroupG, 96),
        (MaschineButton::GroupH, 108),
    ];
    for (button, base) in groups {
        assert_eq!(button_action(button).special, Some(SpecialAction::Group(base)));
        assert_eq!(button_action(button).control_index, None);
    }
}

#[test]
fn text_comparison() {
    assert!(same_text("", ""));
    assert!(same_text("play", "play"));
    assert!(!same_text("play", "plan"));
    assert!(!same_text("play", "playing"));
    assert!(!same_text("pl\u{e4}y", "play"));
    assert!(same_text("pl\u{e4}y", "pl\u{e4}y"));
    assert!(starts_with("/maschine/pad", "/maschine/pad"));
    assert!(starts_with("/maschine/pads", "/maschine/pad"));
    assert!(starts_with("anything", ""));
    assert!(!starts_with("/maschine/pa", "/maschine/pad"));
    assert!(!starts_with("/maschine/bad", "/maschine/pad"));
    assert!(!starts_with("", "x"));
}
