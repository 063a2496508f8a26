use quadwm::keys::{key_code_to_evdev, mouse_button_code, KeyCode, MouseButton, BTN_LEFT};

#[test]
fn letters_map_to_evdev_scancodes() {
    assert_eq!(key_code_to_evdev(KeyCode::KeyA), Some(30));
    assert_eq!(key_code_to_evdev(KeyCode::KeyQ), Some(16));
    assert_eq!(key_code_to_evdev(KeyCode::KeyZ), Some(44));
    assert_eq!(key_code_to_evdev(KeyCode::KeyM), Some(50));
}

#[test]
fn digits_and_punctuation_map_to_evdev_scancodes() {
    assert_eq!(key_code_to_evdev(KeyCode::Digit1), Some(2));
    assert_eq!(key_code_to_evdev(KeyCode::Digit0), Some(11));
    assert_eq!(key_code_to_evdev(KeyCode::Minus), Some(12));
    assert_eq!(key_code_to_evdev(KeyCode::Slash), Some(53));
    assert_eq!(key_code_to_evdev(KeyCode::Quote), Some(40));
}

#[test]
fn control_and_arrow_keys_map_to_evdev_scancodes() {
    assert_eq!(key_code_to_evdev(KeyCode::Escape), Some(1));
    assert_eq!(key_code_to_evdev(KeyCode::Enter), Some(28));
    assert_eq!(key_code_to_evdev(KeyCode::Backspace), Some(14));
    assert_eq!(key_code_to_evdev(KeyCode::Tab), Some(15));
    assert_eq!(key_code_to_evdev(KeyCode::Space), Some(57));
    assert_eq!(key_code_to_evdev(KeyCode::ArrowUp), Some(103));
    assert_eq!(key_code_to_evdev(KeyCode::ArrowDown), Some(108));
    assert_eq!(key_code_to_evdev(KeyCode::ArrowLeft), Some(105));
    assert_eq!(key_code_to_evdev(KeyCode::ArrowRight), Some(106));
}

#[test]
fn unmapped_keys_are_not_forwarded() {
    assert_eq!(key_code_to_evdev(KeyCode::ShiftLeft), None);
    assert_eq!(key_code_to_evdev(KeyCode::Other), None);
}

#[test]
fn forwarded_keys_have_distinct_scancodes() {
    let all = [
        KeyCode::KeyA, KeyCode::KeyB, KeyCode::KeyC, KeyCode::KeyD, KeyCode::KeyE, KeyCode::KeyF,
        KeyCode::KeyG, KeyCode::KeyH, KeyCode::KeyI, KeyCode::KeyJ, KeyCode::KeyK, KeyCode::KeyL,
        KeyCode::KeyM, KeyCode::KeyN, KeyCode::KeyO, KeyCode::KeyP, KeyCode::KeyQ, KeyCode::KeyR,
        KeyCode::KeyS, KeyCode::KeyT, KeyCode::KeyU, KeyCode::KeyV, KeyCode::KeyW, KeyCode::KeyX,
        KeyCode::KeyY, KeyCode::KeyZ, KeyCode::Digit1, KeyCode::Digit2, KeyCode::Digit3,
        KeyCode::Digit4, KeyCode::Digit5, KeyCode::Digit6, KeyCode::Digit7, KeyCode::Digit8,
        KeyCode::Digit9, KeyCode::Digit0, KeyCode::Enter, KeyCode::Escape, KeyCode::Backspace,
        KeyCode::Tab, KeyCode::Space, KeyCode::Minus, KeyCode::Equal, KeyCode::BracketLeft,
        KeyCode::BracketRight, KeyCode::Backslash, KeyCode::Semicolon, KeyCode::Quote,
        KeyCode::Comma, KeyCode::Period, KeyCode::Slash, KeyCode::ArrowUp, KeyCode::ArrowDown,
        KeyCode::ArrowLeft, KeyCode::ArrowRight,
    ];
    let codes: Vec<u32> = all.iter().map(|k| key_code_to_evdev(*k).unwrap()).collect();
    for i in 0..codes.len() {
        for j in (i + 1)..codes.len() {
            assert_ne!(codes[i], codes[j]);
        }
    }
}

#[test]
fn mouse_buttons_map_to_linux_button_codes() {
    assert_eq!(mouse_button_code(MouseButton::Left), 0x110);
    assert_eq!(mouse_button_code(MouseButton::Right), 0x111);
    assert_eq!(mouse_button_code(MouseButton::Middle), 0x112);
    assert_eq!(mouse_button_code(MouseButton::Other), BTN_LEFT);
}
