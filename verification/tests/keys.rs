use frontend::keys::{
    blocks_default, event_key, is_text_input, records_key_down, Key, PressedKeys,
};

#[test]
fn key_names_are_read() {
    assert_eq!(Key::from_code("Alt"), Key::Alt);
    assert_eq!(Key::from_code("AltRight"), Key::Alt);
    assert_eq!(Key::from_code("ControlLeft"), Key::Ctrl);
    assert_eq!(Key::from_code("Shift"), Key::Shift);
    assert_eq!(Key::from_code("Space"), Key::Space);
    assert_eq!(Key::from_code("Enter"), Key::Enter);
    assert_eq!(Key::from_code("Escape"), Key::Escape);
    assert_eq!(Key::from_code("Delete"), Key::Delete);
    assert_eq!(Key::from_code("ArrowUp"), Key::ArrowUp);
    assert_eq!(Key::from_code("ArrowDown"), Key::ArrowDown);
    assert_eq!(Key::from_code("ArrowLeft"), Key::ArrowLeft);
    assert_eq!(Key::from_code("ArrowRight"), Key::ArrowRight);
}

#[test]
fn key_codes_give_lower_case_characters() {
    assert_eq!(Key::from_code("KeyI"), Key::Character('i'));
    assert_eq!(Key::from_code("Keyp"), Key::Character('p'));
    assert_eq!(Key::from_code("Key1"), Key::Character('1'));
    assert_eq!(Key::from_code("s"), Key::Character('s'));
    assert_eq!(Key::from_code("S"), Key::Character('S'));
    assert_eq!(Key::from_code(" "), Key::Character(' '));
}

#[test]
fn unknown_keys() {
    assert_eq!(Key::from_code(""), Key::Unknown);
    assert_eq!(Key::from_code("F1"), Key::Unknown);
    assert_eq!(Key::from_code("é"), Key::Unknown);
    assert_eq!(Key::from_code("Keyé"), Key::Unknown);
    assert_eq!(Key::from_code("KeyAB"), Key::Unknown);
    assert_eq!(Key::from_code("Tab"), Key::Unknown);
}

#[test]
fn from_str_trait_reads_keys() {
    let k: Key = "KeyS".into();
    assert_eq!(k, Key::Character('s'));
    assert_eq!(Key::from("Control"), Key::Ctrl);
}

#[test]
fn event_key_prefers_known_name() {
    assert_eq!(event_key(Some("a"), Some("KeyQ")), Key::Character('a'));
    assert_eq!(event_key(Some("Dead"), Some("KeyQ")), Key::Character('q'));
    assert_eq!(event_key(None, Some("AltLeft")), Key::Alt);
    assert_eq!(event_key(None, None), Key::Unknown);
    assert_eq!(event_key(Some("Unidentified"), None), Key::Unknown);
}

#[test]
fn pressed_keys_track_down_and_up() {
    let mut keys = PressedKeys::new();
    assert!(!keys.key_pressed(Key::Character('i')));
    keys.on_key_down(Key::Character('i'), false, false, false);
    assert!(keys.key_pressed(Key::Character('i')));
    keys.on_key_up(Key::Character('i'), false, false, false);
    assert!(!keys.key_pressed(Key::Character('i')));
}

#[test]
fn modifiers_follow_event_flags() {
    let mut keys = PressedKeys::new();
    keys.on_key_down(Key::Character('x'), true, false, true);
    assert!(keys.key_pressed(Key::Alt));
    assert!(!keys.key_pressed(Key::Ctrl));
    assert!(keys.key_pressed(Key::Shift));
    keys.on_key_up(Key::Character('x'), false, false, false);
    assert!(!keys.key_pressed(Key::Alt));
    assert!(!keys.key_pressed(Key::Shift));
    keys.on_key_down(Key::Ctrl, false, false, false);
    assert!(keys.key_pressed(Key::Ctrl));
}

#[test]
fn other_keys_untouched_by_events() {
    let mut keys = PressedKeys::new();
    keys.on_key_down(Key::Enter, false, false, false);
    keys.on_key_down(Key::Space, false, false, false);
    keys.on_key_up(Key::Space, false, false, false);
    assert!(keys.key_pressed(Key::Enter));
    assert!(!keys.key_pressed(Key::Space));
}

#[test]
fn clearing_releases_everything() {
    let mut keys = PressedKeys::new();
    keys.on_key_down(Key::Enter, true, true, true);
    keys.clear();
    assert!(!keys.key_pressed(Key::Enter));
    assert!(!keys.key_pressed(Key::Alt));
    assert!(!keys.key_pressed(Key::Ctrl));
}

#[test]
fn set_records_state() {
    let mut keys = PressedKeys::new();
    keys.set(Key::Escape, true);
    keys.set(Key::Escape, true);
    assert!(keys.key_pressed(Key::Escape));
    keys.set(Key::Escape, false);
    assert!(!keys.key_pressed(Key::Escape));
}

#[test]
fn browser_default_blocked_for_alt_and_ctrl() {
    assert!(blocks_default(true, false, None));
    assert!(blocks_default(false, true, Some("KeyA")));
    assert!(blocks_default(false, false, Some("AltLeft")));
    assert!(blocks_default(false, false, Some("AltRight")));
    assert!(!blocks_default(false, false, Some("KeyA")));
    assert!(!blocks_default(false, false, None));
}

#[test]
fn text_fields_are_recognised() {
    assert!(is_text_input(true, false, None));
    assert!(is_text_input(false, true, None));
    assert!(is_text_input(false, false, Some("true")));
    assert!(!is_text_input(false, false, Some("false")));
    assert!(!is_text_input(false, false, None));
}

#[test]
fn key_downs_recorded_outside_text() {
    assert!(records_key_down(false, false));
    assert!(!records_key_down(true, false));
    assert!(!records_key_down(false, true));
}
