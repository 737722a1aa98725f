use kardashev_ui::input::keyboard::{KeyCode, KeyModifiers, KeyboardEvent};
use kardashev_ui::input::mouse::{MouseButton, MouseButtonState, WheelDeltaMode};

fn collect(mut it: kardashev_ui::input::mouse::MouseButtonStateIter) -> Vec<Option<MouseButton>> {
    let mut out = Vec::new();
    for _ in 0..7 {
        out.push(it.next());
    }
    out
}

#[test]
fn mouse_buttons_from_dom_numbers() {
    assert_eq!(MouseButton::from_websys(0), Some(MouseButton::Left));
    assert_eq!(MouseButton::from_websys(1), Some(MouseButton::Middle));
    assert_eq!(MouseButton::from_websys(2), Some(MouseButton::Right));
    assert_eq!(MouseButton::from_websys(3), Some(MouseButton::Back));
    assert_eq!(MouseButton::from_websys(4), Some(MouseButton::Forward));
    assert_eq!(MouseButton::from_websys(5), None);
    assert_eq!(MouseButton::from_websys(-1), None);
}

#[test]
fn mouse_button_bitmasks_are_single_bits() {
    let masks: Vec<u16> = MouseButton::buttons().iter().map(|b| b.bitmask()).collect();
    assert_eq!(masks, vec![0x01, 0x02, 0x04, 0x08, 0x10]);
}

#[test]
fn wheel_delta_modes() {
    assert!(matches!(WheelDeltaMode::from_websys(0), Some(WheelDeltaMode::Pixel)));
    assert!(matches!(WheelDeltaMode::from_websys(1), Some(WheelDeltaMode::Line)));
    assert!(matches!(WheelDeltaMode::from_websys(2), Some(WheelDeltaMode::Page)));
    assert!(WheelDeltaMode::from_websys(3).is_none());
}

#[test]
fn press_and_release_buttons() {
    let mut state = MouseButtonState::default();
    assert!(!state.is_down(MouseButton::Left));
    state.set_down(MouseButton::Left);
    state.set_down(MouseButton::Back);
    assert!(state.is_down(MouseButton::Left));
    assert!(state.is_down(MouseButton::Back));
    assert!(!state.is_down(MouseButton::Right));
    state.set_up(MouseButton::Left);
    assert!(!state.is_down(MouseButton::Left));
    assert!(state.is_down(MouseButton::Back));
    state.set_up(MouseButton::Middle);
    assert!(!state.is_down(MouseButton::Middle));
}

#[test]
fn down_and_up_iterators_walk_every_button() {
    let mut state = MouseButtonState::new();
    state.set_down(MouseButton::Middle);
    state.set_down(MouseButton::Forward);
    assert_eq!(
        collect(state.down_iter()),
        vec![None, Some(MouseButton::Middle), None, None, Some(MouseButton::Forward), None, None]
    );
    assert_eq!(
        collect(state.up_iter()),
        vec![Some(MouseButton::Left), None, Some(MouseButton::Right), Some(MouseButton::Back), None, None, None]
    );
}

#[test]
fn key_codes_from_dom_names() {
    assert_eq!(KeyCode::from_websys("KeyA"), Some(KeyCode::KeyA));
    assert_eq!(KeyCode::from_websys("Escape"), Some(KeyCode::Escape));
    assert_eq!(KeyCode::from_websys("ShiftLeft"), Some(KeyCode::ShiftLeft));
    assert_eq!(KeyCode::from_websys("keya"), None);
    assert_eq!(KeyCode::from_websys(""), None);
    assert_eq!(KeyCode::KeyA.to_websys(), "KeyA");
    assert_eq!(KeyCode::Space.to_websys(), "Space");
}

#[test]
fn key_names_round_trip() {
    for name in ["KeyZ", "Digit0", "ArrowUp", "F12", "Numpad5", "Backquote", "MetaLeft"] {
        let key = KeyCode::from_websys(name).unwrap();
        assert_eq!(key.to_websys(), name);
        assert_eq!(key.to_string(), name);
    }
}

#[test]
fn parse_errors_carry_the_name() {
    assert_eq!(KeyCode::from_str("Enter").unwrap(), KeyCode::Enter);
    let err = KeyCode::from_str("NotAKey").unwrap_err();
    assert_eq!(err.invalid_code(), "NotAKey");
    assert_eq!(err.message(), "Invalid keycode: NotAKey");
}

#[test]
fn modifiers_from_flags() {
    let m = KeyModifiers::from_flags(true, false, false, true);
    assert_eq!(m.bits(), 0b1010);
    assert!(m.contains(KeyModifiers::alt()));
    assert!(m.contains(KeyModifiers::shift()));
    assert!(!m.contains(KeyModifiers::ctrl()));
    assert!(!m.contains(KeyModifiers::meta()));
    assert_eq!(KeyModifiers::from_flags(false, true, true, false).bits(), 0b0101);
    assert_eq!(KeyModifiers::default().bits(), 0);
    assert_eq!(KeyModifiers::empty(), KeyModifiers::from_flags(false, false, false, false));
    let mut n = KeyModifiers::ctrl();
    n.insert(KeyModifiers::meta());
    assert_eq!(n.bits(), 0b0101);
    assert_eq!(KeyModifiers::alt().union(KeyModifiers::shift()).bits(), 0b1010);
}

#[test]
fn keyboard_events_from_dom() {
    let mods = KeyModifiers::shift();
    assert_eq!(
        KeyboardEvent::from_websys_key_up("KeyQ", mods),
        Some(KeyboardEvent::KeyUp { code: KeyCode::KeyQ, modifiers: mods })
    );
    assert_eq!(
        KeyboardEvent::from_websys_key_down("Tab", true, mods),
        Some(KeyboardEvent::KeyDown { code: KeyCode::Tab, repeat: true, modifiers: mods })
    );
    assert_eq!(KeyboardEvent::from_websys_key_down("Unidentified", false, mods), None);
    assert_eq!(KeyboardEvent::from_websys_key_up("", mods), None);
}

#[test]
fn key_codes_parse_through_from_str() {
    let key: KeyCode = "ControlRight".parse().unwrap();
    assert_eq!(key, KeyCode::ControlRight);
    let err = "Ctrl".parse::<KeyCode>().unwrap_err();
    assert_eq!(err.invalid_code(), "Ctrl");
}
