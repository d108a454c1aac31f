use zx_input::scancode::{
    KEY_A, KEY_DELETE, KEY_DOWN, KEY_F3, KEY_F4, KEY_F5, KEY_F6, KEY_INSERT, KEY_LALT, KEY_LCTRL,
    KEY_LEFT, KEY_LSHIFT, KEY_RALT, KEY_RCTRL, KEY_RETURN, KEY_RIGHT, KEY_RSHIFT, KEY_SPACE,
    KEY_UP, KEY_Z,
};
use zx_input::{
    DomainEvent, EventTranslator, MachineKey, MetaCommand, PeripheralKey, PhysicalKeyCode,
    RawInputSignal, SpeedSetting,
};

const KEY_F1: i32 = 58;
const KEY_TAB: i32 = 43;

fn key(code: i32, pressed: bool) -> RawInputSignal {
    RawInputSignal::KeyTransition { code: Some(PhysicalKeyCode(code)), pressed }
}

#[test]
fn machine_key_press_is_reported() {
    let t = EventTranslator::new();
    assert_eq!(t.translate(key(KEY_Z, true)), Some(DomainEvent::MachineKey(MachineKey::Z, true)));
}

#[test]
fn peripheral_key_release_is_reported() {
    let t = EventTranslator::new();
    assert_eq!(
        t.translate(key(KEY_UP, false)),
        Some(DomainEvent::PeripheralKey(PeripheralKey::Up, false))
    );
}

#[test]
fn max_speed_on_press_then_nothing_on_release() {
    let t = EventTranslator::new();
    assert_eq!(t.translate(key(KEY_F5, true)), Some(DomainEvent::ChangeSpeed(SpeedSetting::Max)));
    assert_eq!(t.translate(key(KEY_F5, false)), None);
}

#[test]
fn unbound_key_gives_nothing_on_either_edge() {
    let t = EventTranslator::new();
    assert_eq!(t.translate(key(KEY_F1, true)), None);
    assert_eq!(t.translate(key(KEY_F1, false)), None);
    assert_eq!(t.translate(key(KEY_TAB, true)), None);
    assert_eq!(t.translate(key(KEY_TAB, false)), None);
}

#[test]
fn quit_gives_exit_while_a_key_is_held() {
    let t = EventTranslator::new();
    assert_eq!(t.translate(key(KEY_A, true)), Some(DomainEvent::MachineKey(MachineKey::A, true)));
    assert_eq!(t.translate(RawInputSignal::QuitRequested), Some(DomainEvent::Exit));
    assert_eq!(t.translate(key(KEY_A, false)), Some(DomainEvent::MachineKey(MachineKey::A, false)));
}

#[test]
fn dropped_file_keeps_its_path() {
    let t = EventTranslator::new();
    let signal = RawInputSignal::FileDropped { path: String::from("/tmp/game.tap") };
    assert_eq!(t.translate(signal), Some(DomainEvent::OpenFile(String::from("/tmp/game.tap"))));
}

#[test]
fn dropped_file_path_is_not_normalised() {
    let t = EventTranslator::new();
    let odd = "  ./a/../b\u{e9} .TAP\n";
    let signal = RawInputSignal::FileDropped { path: String::from(odd) };
    match t.translate(signal) {
        Some(DomainEvent::OpenFile(path)) => assert_eq!(path.as_bytes(), odd.as_bytes()),
        other => panic!("unexpected event: {:?}", other),
    }
    let empty = RawInputSignal::FileDropped { path: String::new() };
    assert_eq!(t.translate(empty), Some(DomainEvent::OpenFile(String::new())));
}

#[test]
fn absent_code_gives_nothing() {
    let t = EventTranslator::new();
    let down = RawInputSignal::KeyTransition { code: None, pressed: true };
    let up = RawInputSignal::KeyTransition { code: None, pressed: false };
    assert_eq!(t.translate(down), None);
    assert_eq!(t.translate(up), None);
    assert_eq!(t.translate_key(None, true), None);
    assert_eq!(t.translate_key(None, false), None);
}

#[test]
fn other_signal_gives_nothing() {
    let t = EventTranslator::new();
    assert_eq!(t.translate(RawInputSignal::Other), None);
}

#[test]
fn nothing_polled_gives_nothing() {
    let t = EventTranslator::new();
    assert_eq!(t.pop_event(None), None);
}

#[test]
fn polled_signal_is_translated() {
    let t = EventTranslator::new();
    assert_eq!(t.pop_event(Some(RawInputSignal::QuitRequested)), Some(DomainEvent::Exit));
    assert_eq!(
        t.pop_event(Some(key(KEY_SPACE, true))),
        Some(DomainEvent::MachineKey(MachineKey::Space, true))
    );
    assert_eq!(t.pop_event(Some(key(KEY_INSERT, false))), None);
    assert_eq!(t.pop_event(Some(RawInputSignal::Other)), None);
}

#[test]
fn mapped_keys_report_both_edges_in_order() {
    let t = EventTranslator::new();
    let signals = vec![
        key(KEY_RETURN, true),
        key(KEY_RETURN, false),
        key(KEY_LEFT, true),
        key(KEY_LEFT, false),
    ];
    let mut events = Vec::new();
    for s in signals {
        events.push(t.translate(s));
    }
    assert_eq!(
        events,
        vec![
            Some(DomainEvent::MachineKey(MachineKey::Enter, true)),
            Some(DomainEvent::MachineKey(MachineKey::Enter, false)),
            Some(DomainEvent::PeripheralKey(PeripheralKey::Left, true)),
            Some(DomainEvent::PeripheralKey(PeripheralKey::Left, false)),
        ]
    );
}

#[test]
fn both_shifts_and_both_controls_are_bound() {
    let t = EventTranslator::new();
    for code in [KEY_LSHIFT, KEY_RSHIFT] {
        assert_eq!(
            t.translate(key(code, true)),
            Some(DomainEvent::MachineKey(MachineKey::Shift, true))
        );
    }
    for code in [KEY_LCTRL, KEY_RCTRL] {
        assert_eq!(
            t.translate(key(code, false)),
            Some(DomainEvent::MachineKey(MachineKey::SymShift, false))
        );
    }
    for code in [KEY_LALT, KEY_RALT] {
        assert_eq!(
            t.translate(key(code, true)),
            Some(DomainEvent::PeripheralKey(PeripheralKey::Fire, true))
        );
    }
}

#[test]
fn joystick_directions() {
    let t = EventTranslator::new();
    let expected = [
        (KEY_UP, PeripheralKey::Up),
        (KEY_DOWN, PeripheralKey::Down),
        (KEY_LEFT, PeripheralKey::Left),
        (KEY_RIGHT, PeripheralKey::Right),
    ];
    for (code, k) in expected {
        assert_eq!(t.translate(key(code, true)), Some(DomainEvent::PeripheralKey(k, true)));
        assert_eq!(t.translate(key(code, false)), Some(DomainEvent::PeripheralKey(k, false)));
    }
}

#[test]
fn meta_commands_on_press() {
    let t = EventTranslator::new();
    assert_eq!(
        t.translate(key(KEY_F3, true)),
        Some(DomainEvent::ChangeSpeed(SpeedSetting::Fixed(1)))
    );
    assert_eq!(
        t.translate(key(KEY_F4, true)),
        Some(DomainEvent::ChangeSpeed(SpeedSetting::Fixed(2)))
    );
    assert_eq!(t.translate(key(KEY_F5, true)), Some(DomainEvent::ChangeSpeed(SpeedSetting::Max)));
    assert_eq!(t.translate(key(KEY_F6, true)), Some(DomainEvent::ToggleDebugOverlay));
    assert_eq!(t.translate(key(KEY_INSERT, true)), Some(DomainEvent::RequestTapeInsert));
    assert_eq!(t.translate(key(KEY_DELETE, true)), Some(DomainEvent::RequestTapeStop));
}

#[test]
fn meta_commands_are_silent_on_release() {
    let t = EventTranslator::new();
    for code in [KEY_F3, KEY_F4, KEY_F5, KEY_F6, KEY_INSERT, KEY_DELETE] {
        assert_eq!(t.translate(key(code, false)), None);
    }
}

#[test]
fn codes_outside_the_code_space_are_unbound() {
    let t = EventTranslator::new();
    for code in [-1, i32::MIN, 512, 513, 100_000, i32::MAX] {
        assert_eq!(t.translate(key(code, true)), None);
        assert_eq!(t.translate(key(code, false)), None);
    }
}

#[test]
fn translation_has_no_memory() {
    let t = EventTranslator::new();
    let first = t.translate(key(KEY_Z, true));
    let _ = t.translate(key(KEY_F5, true));
    let _ = t.translate(RawInputSignal::Other);
    let again = t.translate(key(KEY_Z, true));
    assert_eq!(first, again);
}

#[test]
fn command_events() {
    assert_eq!(
        MetaCommand::ChangeSpeed(SpeedSetting::Fixed(2)).event(),
        DomainEvent::ChangeSpeed(SpeedSetting::Fixed(2))
    );
    assert_eq!(
        MetaCommand::ChangeSpeed(SpeedSetting::Max).event(),
        DomainEvent::ChangeSpeed(SpeedSetting::Max)
    );
    assert_eq!(MetaCommand::ToggleDebugOverlay.event(), DomainEvent::ToggleDebugOverlay);
    assert_eq!(MetaCommand::RequestTapeInsert.event(), DomainEvent::RequestTapeInsert);
    assert_eq!(MetaCommand::RequestTapeStop.event(), DomainEvent::RequestTapeStop);
}
