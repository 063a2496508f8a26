use vstd::prelude::*;

verus! {

/// A physical key, as far as the compositor tells keys apart.
#[derive(Clone, Copy, Debug, PartialEq, Eq)]
pub enum KeyCode {
    KeyA, KeyB, KeyC, KeyD, KeyE, KeyF, KeyG, KeyH, KeyI, KeyJ, KeyK, KeyL, KeyM,
    KeyN, KeyO, KeyP, KeyQ, KeyR, KeyS, KeyT, KeyU, KeyV, KeyW, KeyX, KeyY, KeyZ,
    Digit1, Digit2, Digit3, Digit4, Digit5, Digit6, Digit7, Digit8, Digit9, Digit0,
    Enter, Escape, Backspace, Tab, Space, Minus, Equal, BracketLeft, BracketRight,
    Backslash, Semicolon, Quote, Comma, Period, Slash,
    ArrowUp, ArrowDown, ArrowLeft, ArrowRight,
    ShiftLeft,
    /// Any other key.
    Other,
}

/// The Linux evdev scancode of a key, where the compositor forwards it.
pub open spec fn evdev_code(key: KeyCode) -> Option<u32> {
    match key {
        KeyCode::KeyA => Some(30u32),
        KeyCode::KeyB => Some(48u32),
        KeyCode::KeyC => Some(46u32),
        KeyCode::KeyD => Some(32u32),
        KeyCode::KeyE => Some(18u32),
        KeyCode::KeyF => Some(33u32),
        KeyCode::KeyG => Some(34u32),
        KeyCode::KeyH => Some(35u32),
        KeyCode::KeyI => Some(23u32),
        KeyCode::KeyJ => Some(36u32),
        KeyCode::KeyK => Some(37u32),
        KeyCode::KeyL => Some(38u32),
        KeyCode::KeyM => Some(50u32),
        KeyCode::KeyN => Some(49u32),
        KeyCode::KeyO => Some(24u32),
        KeyCode::KeyP => Some(25u32),
        KeyCode::KeyQ => Some(16u32),
        KeyCode::KeyR => Some(19u32),
        KeyCode::KeyS => Some(31u32),
        KeyCode::KeyT => Some(20u32),
        KeyCode::KeyU => Some(22u32),
        KeyCode::KeyV => Some(47u32),
        KeyCode::KeyW => Some(17u32),
        KeyCode::KeyX => Some(45u32),
        KeyCode::KeyY => Some(21u32),
        KeyCode::KeyZ => Some(44u32),
        KeyCode::Digit1 => Some(2u32),
        KeyCode::Digit2 => Some(3u32),
        KeyCode::Digit3 => Some(4u32),
        KeyCode::Digit4 => Some(5u32),
        KeyCode::Digit5 => Some(6u32),
        KeyCode::Digit6 => Some(7u32),
        KeyCode::Digit7 => Some(8u32),
        KeyCode::Digit8 => Some(9u32),
        KeyCode::Digit9 => Some(10u32),
        KeyCode::Digit0 => Some(11u32),
        KeyCode::Enter => Some(28u32),
        KeyCode::Escape => Some(1u32),
        KeyCode::Backspace => Some(14u32),
        KeyCode::Tab => Some(15u32),
        KeyCode::Space => Some(57u32),
        KeyCode::Minus => Some(12u32),
        KeyCode::Equal => Some(13u32),
        KeyCode::BracketLeft => Some(26u32),
        KeyCode::BracketRight => Some(27u32),
        KeyCode::Backslash => Some(43u32),
        KeyCode::Semicolon => Some(39u32),
        KeyCode::Quote => Some(40u32),
        KeyCode::Comma => Some(51u32),
        KeyCode::Period => Some(52u32),
        KeyCode::Slash => Some(53u32),
        KeyCode::ArrowUp => Some(103u32),
        KeyCode::ArrowDown => Some(108u32),
        KeyCode::ArrowLeft => Some(105u32),
        KeyCode::ArrowRight => Some(106u32),
        KeyCode::ShiftLeft => None,
        KeyCode::Other => None,
    }
}

/// Converts a key to its Linux evdev scancode; `None` for keys that are not
/// forwarded to clients.
pub fn key_code_to_evdev(code: KeyCode) -> (res: Option<u32>)
    ensures
        res == evdev_code(code),
{
    match code {
        KeyCode::KeyA => Some(30),
        KeyCode::KeyB => Some(48),
        KeyCode::KeyC => Some(46),
        KeyCode::KeyD => Some(32),
        KeyCode::KeyE => Some(18),
        KeyCode::KeyF => Some(33),
        KeyCode::KeyG => Some(34),
        KeyCode::KeyH => Some(35),
        KeyCode::KeyI => Some(23),
        KeyCode::KeyJ => Some(36),
        KeyCode::KeyK => Some(37),
        KeyCode::KeyL => Some(38),
        KeyCode::KeyM => Some(50),
        KeyCode::KeyN => Some(49),
        KeyCode::KeyO => Some(24),
        KeyCode::KeyP => Some(25),
        KeyCode::KeyQ => Some(16),
        KeyCode::KeyR => Some(19),
        KeyCode::KeyS => Some(31),
        KeyCode::KeyT => Some(20),
        KeyCode::KeyU => Some(22),
        KeyCode::KeyV => Some(47),
        KeyCode::KeyW => Some(17),
        KeyCode::KeyX => Some(45),
        KeyCode::KeyY => Some(21),
        KeyCode::KeyZ => Some(44),
        KeyCode::Digit1 => Some(2),
        KeyCode::Digit2 => Some(3),
        KeyCode::Digit3 => Some(4),
        KeyCode::Digit4 => Some(5),
        KeyCode::Digit5 => Some(6),
        KeyCode::Digit6 => Some(7),
        KeyCode::Digit7 => Some(8),
        KeyCode::Digit8 => Some(9),
        KeyCode::Digit9 => Some(10),
        KeyCode::Digit0 => Some(11),
        KeyCode::Enter => Some(28),
        KeyCode::Escape => Some(1),
        KeyCode::Backspace => Some(14),
        KeyCode::Tab => Some(15),
        KeyCode::Space => Some(57),
        KeyCode::Minus => Some(12),
        KeyCode::Equal => Some(13),
        KeyCode::BracketLeft => Some(26),
        KeyCode::BracketRight => Some(27),
        KeyCode::Backslash => Some(43),
        KeyCode::Semicolon => Some(39),
        KeyCode::Quote => Some(40),
        KeyCode::Comma => Some(51),
        KeyCode::Period => Some(52),
        KeyCode::Slash => Some(53),
        KeyCode::ArrowUp => Some(103),
        KeyCode::ArrowDown => Some(108),
        KeyCode::ArrowLeft => Some(105),
        KeyCode::ArrowRight => Some(106),
        _ => None,
    }
}

/// The key whose evdev scancode is `code`; `KeyCode::Other` for a scancode
/// that no key of the table has.
pub open spec fn key_of_evdev(code: u32) -> KeyCode {
    match code {
        30 => KeyCode::KeyA,
        48 => KeyCode::KeyB,
        46 => KeyCode::KeyC,
        32 => KeyCode::KeyD,
        18 => KeyCode::KeyE,
        33 => KeyCode::KeyF,
        34 => KeyCode::KeyG,
        35 => KeyCode::KeyH,
        23 => KeyCode::KeyI,
        36 => KeyCode::KeyJ,
        37 => KeyCode::KeyK,
        38 => KeyCode::KeyL,
        50 => KeyCode::KeyM,
        49 => KeyCode::KeyN,
        24 => KeyCode::KeyO,
        25 => KeyCode::KeyP,
        16 => KeyCode::KeyQ,
        19 => KeyCode::KeyR,
        31 => KeyCode::KeyS,
        20 => KeyCode::KeyT,
        22 => KeyCode::KeyU,
        47 => KeyCode::KeyV,
        17 => KeyCode::KeyW,
        45 => KeyCode::KeyX,
        21 => KeyCode::KeyY,
        44 => KeyCode::KeyZ,
        2 => KeyCode::Digit1,
        3 => KeyCode::Digit2,
        4 => KeyCode::Digit3,
        5 => KeyCode::Digit4,
        6 => KeyCode::Digit5,
        7 => KeyCode::Digit6,
        8 => KeyCode::Digit7,
        9 => KeyCode::Digit8,
        10 => KeyCode::Digit9,
        11 => KeyCode::Digit0,
        28 => KeyCode::Enter,
        1 => KeyCode::Escape,
        14 => KeyCode::Backspace,
        15 => KeyCode::Tab,
        57 => KeyCode::Space,
        12 => KeyCode::Minus,
        13 => KeyCode::Equal,
        26 => KeyCode::BracketLeft,
        27 => KeyCode::BracketRight,
        43 => KeyCode::Backslash,
        39 => KeyCode::Semicolon,
        40 => KeyCode::Quote,
        51 => KeyCode::Comma,
        52 => KeyCode::Period,
        53 => KeyCode::Slash,
        103 => KeyCode::ArrowUp,
        108 => KeyCode::ArrowDown,
        105 => KeyCode::ArrowLeft,
        106 => KeyCode::ArrowRight,
        _ => KeyCode::Other,
    }
}

/// Every forwarded key is recovered from its scancode.
pub proof fn lemma_evdev_code_round_trip(key: KeyCode)
    requires
        evdev_code(key) is Some,
    ensures
        key_of_evdev(evdev_code(key)->0) == key,
{
}

/// No two keys are forwarded with the same scancode.
pub proof fn lemma_evdev_code_injective(a: KeyCode, b: KeyCode)
    requires
        evdev_code(a) is Some,
        evdev_code(a) == evdev_code(b),
    ensures
        a == b,
{
    lemma_evdev_code_round_trip(a);
    lemma_evdev_code_round_trip(b);
}

/// A mouse button, as far as the compositor tells buttons apart.
#[derive(Clone, Copy, Debug, PartialEq, Eq)]
pub enum MouseButton {
    Left,
    Right,
    Middle,
    /// Any other button.
    Other,
}

/// Linux evdev code of the left mouse button (`BTN_LEFT`).
pub const BTN_LEFT: u32 = 0x110;

/// Linux evdev code of the right mouse button (`BTN_RIGHT`).
pub const BTN_RIGHT: u32 = 0x111;

/// Linux evdev code of the middle mouse button (`BTN_MIDDLE`).
pub const BTN_MIDDLE: u32 = 0x112;

/// The evdev code sent to clients for a button: other buttons are sent as
/// the left button.
pub open spec fn button_code(button: MouseButton) -> u32 {
    match button {
        MouseButton::Left => BTN_LEFT,
        MouseButton::Right => BTN_RIGHT,
        MouseButton::Middle => BTN_MIDDLE,
        MouseButton::Other => BTN_LEFT,
    }
}

/// Converts a mouse button to the evdev code that clients receive.
pub fn mouse_button_code(button: MouseButton) -> (res: u32)
    ensures
        res == button_code(button),
{
    match button {
        MouseButton::Left => BTN_LEFT,
        MouseButton::Right => BTN_RIGHT,
        MouseButton::Middle => BTN_MIDDLE,
        MouseButton::Other => BTN_LEFT,
    }
}

} // verus!
