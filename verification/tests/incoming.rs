use maschine::buttons::MaschineButton;
use maschine::handler::{Brightness, LightCommand, MHandler, OscError};
use maschine::mapper::{Rgb, WHITE};
use maschine::osc::{check_framing, OscArg, OscMessage};
use maschine::state::ControllerState;
use tinyosc::{Argument, Message};

fn listener() -> MHandler {
    MHandler::new(Rgb { r: 153, g: 0, b: 0 }, ControllerState::new(100, 48))
}

fn datagram(path: &str, arguments: Vec<Argument>) -> Vec<u8> {
    Message { path, arguments }.serialize().unwrap()
}

fn message(path: &str, arguments: Vec<OscArg>) -> OscMessage {
    OscMessage { path: path.to_string(), arguments }
}

fn recv(h: &mut MHandler, datagram: &[u8]) -> Option<LightCommand> {
    h.recv_osc_msg(datagram).expect("a datagram that decodes")
}

fn bits(value: f32) -> Brightness {
    Brightness::Bits(value.to_bits())
}

#[test]
fn button_light_with_one_float() {
    let mut h = listener();
    let light = recv(&mut h, &datagram("/maschine/button/play", vec![Argument::f(100.0)]));
    assert_eq!(
        light,
        Some(LightCommand::Button {
            button: MaschineButton::Play,
            color: 0xFFFFFF,
            brightness: Brightness::Bits(0x42C8_0000),
        })
    );
    assert_eq!(WHITE, 0xFFFFFF);
}

#[test]
fn button_light_with_one_integer() {
    let mut h = listener();
    let light = recv(&mut h, &datagram("/maschine/button/play", vec![Argument::i(1)]));
    assert_eq!(
        light,
        Some(LightCommand::Button {
            button: MaschineButton::Play,
            color: 0xFFFFFF,
            brightness: Brightness::Whole(1),
        })
    );
}

#[test]
fn button_light_with_colour_and_brightness() {
    let mut h = listener();
    let light = recv(&mut h, &datagram(
        "/maschine/button/play",
        vec![Argument::i(0xFF0000), Argument::f(0.5)],
    ));
    assert_eq!(
        light,
        Some(LightCommand::Button {
            button: MaschineButton::Play,
            color: 0xFF0000,
            brightness: bits(0.5),
        })
    );
}

#[test]
fn button_light_with_three_arguments_is_ignored() {
    let mut h = listener();
    let before = h.state;
    let light = recv(&mut h, &datagram(
        "/maschine/button/play",
        vec![Argument::i(0xFF0000), Argument::f(0.5), Argument::f(0.5)],
    ));
    assert_eq!(light, None);
    assert_eq!(h.state.midi_note_base, before.midi_note_base);
    assert_eq!(h.state.rollers, before.rollers);
    assert_eq!(h.state.playing, before.playing);
}

#[test]
fn button_light_with_a_colour_that_is_no_integer_is_ignored() {
    let mut h = listener();
    let light = recv(&mut h, &datagram(
        "/maschine/button/play",
        vec![Argument::f(1.0), Argument::f(0.5)],
    ));
    assert_eq!(light, None);
    let light = recv(&mut h, &datagram(
        "/maschine/button/play",
        vec![Argument::s("red"), Argument::f(0.5)],
    ));
    assert_eq!(light, None);
    let light = recv(&mut h, &datagram(
        "/maschine/button/play",
        vec![Argument::i(1), Argument::i(1)],
    ));
    assert_eq!(light, None);
    assert_eq!(h.state.midi_note_base, 48);
}

#[test]
fn button_light_with_other_single_arguments_is_ignored() {
    let mut h = listener();
    for argument in [Argument::s("x"), Argument::T, Argument::F, Argument::None] {
        assert_eq!(recv(&mut h, &datagram("/maschine/button/play", vec![argument])), None);
    }
    assert_eq!(recv(&mut h, &datagram("/maschine/button/play", vec![])), None);
}

#[test]
fn button_light_for_an_unknown_button_is_ignored() {
    let mut h = listener();
    for path in [
        "/maschine/button/nosuch",
        "/maschine/button/",
        "/maschine/button",
        "/maschine/buttonXplay",
        "/maschine/button/play/",
        "/maschine/button/Play",
    ] {
        assert_eq!(recv(&mut h, &datagram(path, vec![Argument::f(1.0)])), None, "{}", path);
    }
}

#[test]
fn button_light_reaches_every_button() {
    let mut h = listener();
    for i in 0..maschine::buttons::BUTTON_COUNT {
        let button = MaschineButton::from_ordinal(i).unwrap();
        let path = format!("/maschine/button/{}", maschine::buttons::btn_to_osc_button_map(button));
        let light = recv(&mut h, &datagram(&path, vec![Argument::i(7), Argument::f(0.25)]));
        assert_eq!(
            light,
            Some(LightCommand::Button { button, color: 7, brightness: bits(0.25) })
        );
    }
}

#[test]
fn colours_keep_their_low_24_bits() {
    let mut h = listener();
    let cases: [(i32, u32); 6] = [
        (0, 0),
        (0x00FF_FFFF, 0xFF_FFFF),
        (0x0100_0000, 0),
        (0x7FAB_CDEF, 0xAB_CDEF),
        (-1, 0xFF_FFFF),
        (i32::MIN, 0),
    ];
    for (given, kept) in cases {
        let light = recv(&mut h, &datagram(
            "/maschine/button/solo",
            vec![Argument::i(given), Argument::f(1.0)],
        ));
        assert_eq!(
            light,
            Some(LightCommand::Button {
                button: MaschineButton::Solo,
                color: kept,
                brightness: bits(1.0),
            })
        );
    }
}

#[test]
fn pad_light_takes_exactly_three_arguments() {
    let mut h = listener();
    let light = recv(&mut h, &datagram(
        "/maschine/pad",
        vec![Argument::i(5), Argument::i(0x00FF00), Argument::f(0.75)],
    ));
    assert_eq!(light, Some(LightCommand::Pad { pad: 5, color: 0x00FF00, brightness: bits(0.75) }));
    let light = recv(&mut h, &datagram(
        "/maschine/pad",
        vec![Argument::i(-2), Argument::i(-1), Argument::f(0.0)],
    ));
    assert_eq!(light, Some(LightCommand::Pad { pad: -2, color: 0xFFFFFF, brightness: bits(0.0) }));
    for arguments in [
        vec![],
        vec![Argument::i(5)],
        vec![Argument::i(5), Argument::i(1)],
        vec![Argument::i(5), Argument::i(1), Argument::i(1)],
        vec![Argument::f(5.0), Argument::i(1), Argument::f(1.0)],
        vec![Argument::i(5), Argument::f(1.0), Argument::f(1.0)],
        vec![Argument::i(5), Argument::i(1), Argument::f(1.0), Argument::f(1.0)],
    ] {
        assert_eq!(recv(&mut h, &datagram("/maschine/pad", arguments)), None);
    }
}

#[test]
fn note_base_takes_one_integer() {
    let mut h = listener();
    assert_eq!(recv(&mut h, &datagram("/maschine/midi_note_base", vec![Argument::i(60)])), None);
    assert_eq!(h.state.midi_note_base, 60);
    recv(&mut h, &datagram("/maschine/midi_note_base", vec![Argument::f(61.0)]));
    assert_eq!(h.state.midi_note_base, 60);
    recv(&mut h, &datagram("/maschine/midi_note_base", vec![Argument::i(1), Argument::i(2)]));
    assert_eq!(h.state.midi_note_base, 60);
    recv(&mut h, &datagram("/maschine/midi_note_base", vec![]));
    assert_eq!(h.state.midi_note_base, 60);
}

#[test]
fn note_base_keeps_its_low_eight_bits() {
    let mut h = listener();
    recv(&mut h, &datagram("/maschine/midi_note_base", vec![Argument::i(300)]));
    assert_eq!(h.state.midi_note_base, 44);
    recv(&mut h, &datagram("/maschine/midi_note_base", vec![Argument::i(-1)]));
    assert_eq!(h.state.midi_note_base, 255);
    recv(&mut h, &datagram("/maschine/midi_note_base", vec![Argument::i(256)]));
    assert_eq!(h.state.midi_note_base, 0);
}

#[test]
fn other_addresses_are_ignored() {
    let mut h = listener();
    for path in ["/", "/maschine", "/maschine/encoder", "/other/pad", "maschine/pad", ""] {
        let light = recv(&mut h, &datagram(
            path,
            vec![Argument::i(1), Argument::i(2), Argument::f(3.0)],
        ));
        assert_eq!(light, None, "{}", path);
        assert_eq!(recv(&mut h, &datagram(path, vec![Argument::i(9)])), None, "{}", path);
    }
    assert_eq!(h.state.midi_note_base, 48);
}

#[test]
fn addresses_are_matched_by_their_beginning() {
    let mut h = listener();
    let light = recv(&mut h, &datagram(
        "/maschine/pad/3",
        vec![Argument::i(3), Argument::i(1), Argument::f(1.0)],
    ));
    assert_eq!(light, Some(LightCommand::Pad { pad: 3, color: 1, brightness: bits(1.0) }));
    recv(&mut h, &datagram("/maschine/midi_note_base/now", vec![Argument::i(36)]));
    assert_eq!(h.state.midi_note_base, 36);
}

#[test]
fn decoded_messages_are_handled_like_datagrams() {
    let mut h = listener();
    let light = h.handle_osc_messge(&message(
        "/maschine/button/play",
        vec![OscArg::Int(0xFF0000), OscArg::Float(0.5f32.to_bits())],
    ));
    assert_eq!(
        light,
        Some(LightCommand::Button {
            button: MaschineButton::Play,
            color: 0xFF0000,
            brightness: bits(0.5),
        })
    );
    let light = h.handle_osc_messge(&message("/maschine/button/play", vec![OscArg::Int(-3)]));
    assert_eq!(
        light,
        Some(LightCommand::Button {
            button: MaschineButton::Play,
            color: 0xFFFFFF,
            brightness: Brightness::Whole(-3),
        })
    );
    assert_eq!(h.handle_osc_messge(&message("/maschine/midi_note_base", vec![OscArg::Int(72)])), None);
    assert_eq!(h.state.midi_note_base, 72);
    assert_eq!(
        h.handle_osc_messge(&message("/maschine/button/play", vec![OscArg::Text])),
        None
    );
}

#[test]
fn a_well_formed_datagram_is_framed() {
    assert!(check_framing(&datagram("/maschine/button/play", vec![Argument::f(100.0)])));
    assert!(check_framing(&datagram("/a", vec![])));
    assert!(check_framing(&datagram("", vec![])));
    assert!(check_framing(&datagram(
        "/abc",
        vec![
            Argument::i(1),
            Argument::s("text"),
            Argument::T,
            Argument::F,
            Argument::None,
            Argument::f(2.5),
            Argument::s(""),
        ],
    )));
    assert!(check_framing(b"/ab\0,\0\0\0"));
    assert!(check_framing(b"/ab\0,\0\0\0trailing bytes"));
}

#[test]
fn a_datagram_with_a_broken_frame_is_not_framed() {
    let broken: [&[u8]; 14] = [
        b"",
        b"/ab",
        b"/a\0",
        b"/ab\0",
        b"/ab\0,",
        b"/ab\0,\0",
        b"/ab\0,\0\0",
        b"/ab\0\0\0\0\0",
        b"/ab\0i\0\0\0\0\0\0\x01",
        b"/ab\0,i\0\0\0\0\x01",
        b"/ab\0,x\0\0",
        b"/ab\0,s\0\0abc",
        b"/ab\0,s\0\0abcd\0\0",
        b"/ab\0,if\0\0\0\0\x01",
    ];
    let mut h = listener();
    for bytes in broken {
        assert!(!check_framing(bytes), "{:?}", bytes);
        assert_eq!(h.recv_osc_msg(bytes), Err(OscError::Unframed));
    }
}

#[test]
fn every_cut_of_a_datagram_is_survived() {
    let whole = datagram(
        "/maschine/pad",
        vec![Argument::i(5), Argument::i(0x00FF00), Argument::f(0.75), Argument::s("tail")],
    );
    let mut h = listener();
    for end in 0..whole.len() {
        assert!(!check_framing(&whole[..end]), "cut at {}", end);
        assert_eq!(h.recv_osc_msg(&whole[..end]), Err(OscError::Unframed));
    }
    assert!(check_framing(&whole));
    assert_eq!(h.state.midi_note_base, 48);
}

#[test]
fn any_short_datagram_is_survived() {
    let alphabet: [u8; 6] = [0, b',', b'i', b's', b'T', 0xC3];
    let mut h = listener();
    for len in 0..=8usize {
        let mut count: usize = 1;
        for _ in 0..len {
            count *= alphabet.len();
        }
        for mut n in 0..count {
            let mut bytes = Vec::new();
            for _ in 0..len {
                bytes.push(alphabet[n % alphabet.len()]);
                n /= alphabet.len();
            }
            let framed = check_framing(&bytes);
            match h.recv_osc_msg(&bytes) {
                Ok(light) => assert!(framed && light.is_none()),
                Err(OscError::Unframed) => assert!(!framed),
                Err(OscError::Undecodable) => assert!(framed),
            }
        }
    }
}

#[test]
fn a_framed_datagram_that_is_no_text_is_ignored() {
    let mut h = listener();
    let bytes: &[u8] = b"/\xFF\xFE\0,i\0\0\0\0\0\x07";
    assert!(check_framing(bytes));
    assert_eq!(h.recv_osc_msg(bytes), Err(OscError::Undecodable));
    let bytes: &[u8] = b"/maschine/midi_note_base\0\0\0\0,is\0\0\0\0\x07\xFF\0\0\0";
    assert!(check_framing(bytes));
    assert_eq!(h.recv_osc_msg(bytes), Err(OscError::Undecodable));
    assert_eq!(h.state.midi_note_base, 48);
}
