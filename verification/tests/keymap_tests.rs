use egui_speedy2d::keymap::{
    key_from_code, modifiers_from_keys, pointer_button_from_mouse, KeyCode, ModifierKeys,
    MouseButton, PointerButton, UiKey,
};

#[test]
fn letters_map_one_to_one() {
    assert_eq!(key_from_code(Some(KeyCode::A)), Some(UiKey::A));
    assert_eq!(key_from_code(Some(KeyCode::M)), Some(UiKey::M));
    assert_eq!(key_from_code(Some(KeyCode::Z)), Some(UiKey::Z));
}

#[test]
fn function_keys_map_up_to_twenty() {
    assert_eq!(key_from_code(Some(KeyCode::F1)), Some(UiKey::F1));
    assert_eq!(key_from_code(Some(KeyCode::F12)), Some(UiKey::F12));
    assert_eq!(key_from_code(Some(KeyCode::F20)), Some(UiKey::F20));
    assert_eq!(key_from_code(Some(KeyCode::F21)), None);
    assert_eq!(key_from_code(Some(KeyCode::F24)), None);
}

#[test]
fn navigation_keys_map() {
    assert_eq!(key_from_code(Some(KeyCode::Insert)), Some(UiKey::Insert));
    assert_eq!(key_from_code(Some(KeyCode::Home)), Some(UiKey::Home));
    assert_eq!(key_from_code(Some(KeyCode::Delete)), Some(UiKey::Delete));
    assert_eq!(key_from_code(Some(KeyCode::End)), Some(UiKey::End));
    assert_eq!(key_from_code(Some(KeyCode::PageUp)), Some(UiKey::PageUp));
    assert_eq!(key_from_code(Some(KeyCode::PageDown)), Some(UiKey::PageDown));
    assert_eq!(key_from_code(Some(KeyCode::Left)), Some(UiKey::ArrowLeft));
    assert_eq!(key_from_code(Some(KeyCode::Up)), Some(UiKey::ArrowUp));
    assert_eq!(key_from_code(Some(KeyCode::Right)), Some(UiKey::ArrowRight));
    assert_eq!(key_from_code(Some(KeyCode::Down)), Some(UiKey::ArrowDown));
}

#[test]
fn editing_keys_map() {
    assert_eq!(key_from_code(Some(KeyCode::Escape)), Some(UiKey::Escape));
    assert_eq!(key_from_code(Some(KeyCode::Backspace)), Some(UiKey::Backspace));
    assert_eq!(key_from_code(Some(KeyCode::Return)), Some(UiKey::Enter));
    assert_eq!(key_from_code(Some(KeyCode::Space)), Some(UiKey::Space));
    assert_eq!(key_from_code(Some(KeyCode::Tab)), Some(UiKey::Tab));
}

#[test]
fn numpad_digits_map_to_number_keys() {
    assert_eq!(key_from_code(Some(KeyCode::Numpad0)), Some(UiKey::Num0));
    assert_eq!(key_from_code(Some(KeyCode::Numpad5)), Some(UiKey::Num5));
    assert_eq!(key_from_code(Some(KeyCode::Numpad9)), Some(UiKey::Num9));
}

#[test]
fn unmapped_codes_yield_no_key() {
    // Top-row digits are not in the table, unlike the numpad digits.
    assert_eq!(key_from_code(Some(KeyCode::Key1)), None);
    assert_eq!(key_from_code(Some(KeyCode::LShift)), None);
    assert_eq!(key_from_code(Some(KeyCode::LControl)), None);
    assert_eq!(key_from_code(Some(KeyCode::NumpadEnter)), None);
    assert_eq!(key_from_code(Some(KeyCode::Caret)), None);
    assert_eq!(key_from_code(Some(KeyCode::Copy)), None);
    assert_eq!(key_from_code(None), None);
}

#[test]
fn mouse_buttons_map() {
    assert_eq!(
        pointer_button_from_mouse(MouseButton::Left),
        Some(PointerButton::Primary)
    );
    assert_eq!(
        pointer_button_from_mouse(MouseButton::Right),
        Some(PointerButton::Secondary)
    );
    assert_eq!(
        pointer_button_from_mouse(MouseButton::Middle),
        Some(PointerButton::Middle)
    );
    assert_eq!(pointer_button_from_mouse(MouseButton::Other(0)), None);
    assert_eq!(pointer_button_from_mouse(MouseButton::Other(4)), None);
}

#[test]
fn modifiers_command_is_ctrl_and_mac_cmd_is_false() {
    let keys = ModifierKeys {
        ctrl: true,
        alt: false,
        shift: true,
        logo: true,
    };
    let m = modifiers_from_keys(&keys);
    assert!(m.ctrl);
    assert!(!m.alt);
    assert!(m.shift);
    assert!(m.command);
    assert!(!m.mac_cmd);

    let keys = ModifierKeys {
        ctrl: false,
        alt: true,
        shift: false,
        logo: false,
    };
    let m = modifiers_from_keys(&keys);
    assert!(!m.ctrl);
    assert!(m.alt);
    assert!(!m.command);
    assert!(!m.mac_cmd);
}
