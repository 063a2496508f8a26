use quadwm::input::InputManager;
use quadwm::keys::{KeyCode, MouseButton};
use quadwm::movement::MovementKeys;
use quadwm::session::{Action, Attached, InputEvent, Session};

const ALL: Attached = Attached { compositor: true, renderer: true };

fn grabbed() -> Session {
    let mut s = Session::new();
    s.apply_cursor_grab(true, true);
    s
}

fn click(button: MouseButton, pressed: bool, target: Option<usize>) -> InputEvent {
    InputEvent::MouseInput { button, pressed, target }
}

fn key(key: KeyCode, pressed: bool) -> InputEvent {
    InputEvent::KeyboardInput { key, pressed }
}

#[test]
fn focus_change_is_reported_once() {
    let mut m = InputManager::new();
    assert_eq!(m.focused_surface, None);
    assert!(m.set_focus(Some(2)));
    assert_eq!(m.focused_surface, Some(2));
    assert!(!m.set_focus(Some(2)));
    assert!(m.set_focus(Some(1)));
    assert!(m.set_focus(None));
    assert!(!m.set_focus(None));
    assert_eq!(m.focused_surface, None);
}

#[test]
fn new_session_is_idle() {
    let s = Session::new();
    assert!(!s.is_cursor_grabbed);
    assert_eq!(s.input_manager.focused_surface, None);
    assert_eq!(s.movement, MovementKeys::new());
}

#[test]
fn grab_needs_a_window() {
    let mut s = Session::new();
    s.apply_cursor_grab(false, true);
    assert!(!s.is_cursor_grabbed);
    s.apply_cursor_grab(true, true);
    assert!(s.is_cursor_grabbed);
    s.apply_cursor_grab(false, false);
    assert!(s.is_cursor_grabbed);
    s.apply_cursor_grab(true, false);
    assert!(!s.is_cursor_grabbed);
}

#[test]
fn click_with_free_pointer_only_grabs() {
    let mut s = Session::new();
    let actions = s.handle_event(click(MouseButton::Left, true, Some(0)), ALL);
    assert_eq!(actions, vec![Action::GrabCursor(true)]);
    assert_eq!(s, Session::new());
}

#[test]
fn click_on_window_focuses_and_sends_button() {
    let mut s = grabbed();
    let actions = s.handle_event(click(MouseButton::Left, true, Some(3)), ALL);
    assert_eq!(
        actions,
        vec![Action::KeyboardFocus(Some(3)), Action::PointerButton { code: 0x110, pressed: true }]
    );
    assert_eq!(s.input_manager.focused_surface, Some(3));
    let actions = s.handle_event(click(MouseButton::Left, false, Some(3)), ALL);
    assert_eq!(actions, vec![Action::PointerButton { code: 0x110, pressed: false }]);
    assert_eq!(s.input_manager.focused_surface, Some(3));
}

#[test]
fn second_click_on_focused_window_sends_no_focus_change() {
    let mut s = grabbed();
    s.handle_event(click(MouseButton::Right, true, Some(1)), ALL);
    let actions = s.handle_event(click(MouseButton::Right, true, Some(1)), ALL);
    assert_eq!(actions, vec![Action::PointerButton { code: 0x111, pressed: true }]);
}

#[test]
fn click_in_empty_space_clears_focus() {
    let mut s = grabbed();
    s.handle_event(click(MouseButton::Left, true, Some(0)), ALL);
    let actions = s.handle_event(click(MouseButton::Middle, true, None), ALL);
    assert_eq!(actions, vec![Action::KeyboardFocus(None)]);
    assert_eq!(s.input_manager.focused_surface, None);
    let actions = s.handle_event(click(MouseButton::Middle, false, None), ALL);
    assert!(actions.is_empty());
}

#[test]
fn click_without_compositor_does_nothing() {
    let mut s = grabbed();
    let before = s;
    let actions =
        s.handle_event(click(MouseButton::Left, true, Some(0)), Attached { compositor: false, renderer: true });
    assert!(actions.is_empty());
    assert_eq!(s, before);
}

#[test]
fn escape_releases_pointer_and_is_not_forwarded() {
    let mut s = grabbed();
    s.handle_event(click(MouseButton::Left, true, Some(0)), ALL);
    let before = s;
    let actions = s.handle_event(key(KeyCode::Escape, true), ALL);
    assert_eq!(actions, vec![Action::GrabCursor(false)]);
    assert_eq!(s, before);
    let actions = s.handle_event(key(KeyCode::Escape, false), ALL);
    assert_eq!(actions, vec![Action::Key { code: 1, pressed: false }]);
}

#[test]
fn keys_go_to_focused_window_not_camera() {
    let mut s = grabbed();
    s.handle_event(click(MouseButton::Left, true, Some(0)), ALL);
    let actions = s.handle_event(key(KeyCode::KeyW, true), ALL);
    assert_eq!(actions, vec![Action::Key { code: 17, pressed: true }]);
    assert!(!s.movement.move_forward);
    let actions = s.handle_event(key(KeyCode::ShiftLeft, true), ALL);
    assert!(actions.is_empty());
    assert!(!s.movement.move_down);
}

#[test]
fn keys_steer_camera_without_focus() {
    let mut s = grabbed();
    for (k, pressed) in [(KeyCode::KeyW, true), (KeyCode::KeyA, true), (KeyCode::Space, true)] {
        let actions = s.handle_event(key(k, pressed), ALL);
        assert!(actions.is_empty());
    }
    assert!(s.movement.move_forward && s.movement.move_left && s.movement.move_up);
    assert_eq!(s.movement.axes(), (1, -1, 1));
    s.handle_event(key(KeyCode::KeyW, false), ALL);
    assert_eq!(s.movement.axes(), (0, -1, 1));
}

#[test]
fn focused_window_with_free_pointer_gets_keys_and_camera_moves() {
    let mut s = grabbed();
    s.handle_event(click(MouseButton::Left, true, Some(4)), ALL);
    s.apply_cursor_grab(true, false);
    let actions = s.handle_event(key(KeyCode::KeyD, true), ALL);
    assert_eq!(actions, vec![Action::Key { code: 32, pressed: true }]);
    assert!(s.movement.move_right);
}

#[test]
fn camera_keys_need_renderer() {
    let mut s = grabbed();
    s.handle_event(key(KeyCode::KeyS, true), Attached { compositor: true, renderer: false });
    assert!(!s.movement.move_backward);
}

#[test]
fn mouse_motion_rotates_only_when_grabbed() {
    let mut s = Session::new();
    assert!(s.handle_event(InputEvent::MouseMotion, ALL).is_empty());
    s.apply_cursor_grab(true, true);
    let before = s;
    assert_eq!(
        s.handle_event(InputEvent::MouseMotion, ALL),
        vec![Action::RotateCamera, Action::PointerMotion]
    );
    assert_eq!(s, before);
}

#[test]
fn tapping_a_movement_key_restores_keys() {
    let mut s = grabbed();
    let before = s;
    s.handle_event(key(KeyCode::KeyS, true), ALL);
    assert!(s.movement.move_backward);
    s.handle_event(key(KeyCode::KeyS, false), ALL);
    assert_eq!(s, before);
}

#[test]
fn opposite_keys_cancel() {
    let mut m = MovementKeys::new();
    m.set_key(KeyCode::KeyW, true);
    m.set_key(KeyCode::KeyS, true);
    m.set_key(KeyCode::KeyA, true);
    m.set_key(KeyCode::KeyD, true);
    m.set_key(KeyCode::Space, true);
    m.set_key(KeyCode::ShiftLeft, true);
    assert_eq!(m.axes(), (0, 0, 0));
    m.set_key(KeyCode::KeyQ, false);
    assert!(m.move_forward);
    assert_eq!(m.axes(), (0, 0, 0));
    m.set_key(KeyCode::ShiftLeft, false);
    assert_eq!(m.axes(), (0, 0, 1));
}
