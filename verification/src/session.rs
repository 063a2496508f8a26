use vstd::prelude::*;
use crate::input::{InputManager, SurfaceId};
use crate::keys::{button_code, evdev_code, key_code_to_evdev, mouse_button_code, KeyCode, MouseButton};
use crate::movement::{lemma_press_release_restores, movement_after, no_keys_held, MovementKeys};

verus! {

/// What the compositor decides on from the user's input: whether the
/// pointer is captured for crosshair aiming, which client surface has
/// keyboard focus, and which camera movement keys are held.
#[derive(Clone, Copy, Debug, PartialEq, Eq)]
pub struct Session {
    pub is_cursor_grabbed: bool,
    pub input_manager: InputManager,
    pub movement: MovementKeys,
}

/// An input event from the host window system.
#[derive(Clone, Copy, Debug, PartialEq, Eq)]
pub enum InputEvent {
    /// A mouse button went down or up; `target` is the window quad under the
    /// crosshair, if any.
    MouseInput { button: MouseButton, pressed: bool, target: Option<SurfaceId> },
    /// A key went down or up.
    KeyboardInput { key: KeyCode, pressed: bool },
    /// The mouse moved.
    MouseMotion,
}

/// Which parts of the compositor are running when an event arrives.
#[derive(Clone, Copy, Debug, PartialEq, Eq)]
pub struct Attached {
    /// The Wayland server state, through which clients get input.
    pub compositor: bool,
    /// The renderer, which holds the camera.
    pub renderer: bool,
}

/// What the caller must do after an event, in order.
#[derive(Clone, Copy, Debug, PartialEq, Eq)]
pub enum Action {
    /// Capture (`true`) or release (`false`) the host pointer.
    GrabCursor(bool),
    /// Tell the seat's keyboard that focus moved to this surface (or none).
    KeyboardFocus(Option<SurfaceId>),
    /// Send a pointer button (evdev code) to the focused client.
    PointerButton { code: u32, pressed: bool },
    /// Send a key (evdev scancode) to the focused client.
    Key { code: u32, pressed: bool },
    /// Turn the camera by the mouse delta.
    RotateCamera,
    /// Cast a ray from the crosshair and move the client pointer to the
    /// surface it hits.
    PointerMotion,
}

/// The focus notification that moving focus from `old` to `new` needs:
/// nothing when it stays where it was.
pub open spec fn focus_notice(old: Option<SurfaceId>, new: Option<SurfaceId>) -> Seq<Action> {
    if old == new {
        seq![]
    } else {
        seq![Action::KeyboardFocus(new)]
    }
}

/// The session with focus given to `surface`.
pub open spec fn with_focus(s: Session, surface: Option<SurfaceId>) -> Session {
    Session { input_manager: InputManager { focused_surface: surface }, ..s }
}

/// Whether a key event moves the camera: while no surface has focus, or
/// while the pointer is free, provided the renderer runs.
pub open spec fn steers_camera(s: Session, attached: Attached) -> bool {
    attached.renderer && (s.input_manager.focused_surface is None || !s.is_cursor_grabbed)
}

/// The session after an event.
pub open spec fn session_after(s: Session, event: InputEvent, attached: Attached) -> Session {
    match event {
        InputEvent::MouseInput { button, pressed, target } => {
            if s.is_cursor_grabbed && attached.compositor && pressed {
                with_focus(s, target)
            } else {
                s
            }
        },
        InputEvent::KeyboardInput { key, pressed } => {
            if pressed && key is Escape {
                s
            } else if steers_camera(s, attached) {
                Session { movement: movement_after(s.movement, key, pressed), ..s }
            } else {
                s
            }
        },
        InputEvent::MouseMotion => s,
    }
}

/// The actions an event calls for.
pub open spec fn session_actions(s: Session, event: InputEvent, attached: Attached) -> Seq<Action> {
    match event {
        InputEvent::MouseInput { button, pressed, target } => {
            if !s.is_cursor_grabbed {
                seq![Action::GrabCursor(true)]
            } else if !attached.compositor {
                seq![]
            } else {
                let notice = if pressed {
                    focus_notice(s.input_manager.focused_surface, target)
                } else {
                    seq![]
                };
                match target {
                    Some(_) => notice.push(Action::PointerButton { code: button_code(button), pressed }),
                    None => notice,
                }
            }
        },
        InputEvent::KeyboardInput { key, pressed } => {
            if pressed && key is Escape {
                seq![Action::GrabCursor(false)]
            } else if s.input_manager.focused_surface is Some && evdev_code(key) is Some
                && attached.compositor {
                seq![Action::Key { code: evdev_code(key)->0, pressed }]
            } else {
                seq![]
            }
        },
        InputEvent::MouseMotion => {
            if s.is_cursor_grabbed {
                seq![Action::RotateCamera, Action::PointerMotion]
            } else {
                seq![]
            }
        },
    }
}

impl Session {
    /// The pointer is free, no surface has focus and no key is held.
    pub fn new() -> (s: Self)
        ensures
            !s.is_cursor_grabbed,
            s.input_manager.focused_surface is None,
            s.movement == no_keys_held(),
    {
        Session { is_cursor_grabbed: false, input_manager: InputManager::new(), movement: MovementKeys::new() }
    }

    /// Records the outcome of a `GrabCursor(grab)` request: the pointer is
    /// only captured or released where a host window exists.
    pub fn apply_cursor_grab(&mut self, window_present: bool, grab: bool)
        ensures
            final(self).is_cursor_grabbed == if window_present {
                grab
            } else {
                old(self).is_cursor_grabbed
            },
            final(self).input_manager == old(self).input_manager,
            final(self).movement == old(self).movement,
    {
        if window_present {
            self.is_cursor_grabbed = grab;
        }
    }

    /// Handles one input event: updates the session and returns the actions
    /// to perform, in order.
    ///
    /// A click while the pointer is free only asks to capture it. A click
    /// while it is captured focuses the surface under the crosshair (or
    /// clears focus over empty space) and sends the button to that surface.
    /// Escape releases the pointer. Other keys steer the camera while no
    /// surface has focus or the pointer is free, and go to the focused
    /// surface when one has focus.
    pub fn handle_event(&mut self, event: InputEvent, attached: Attached) -> (actions: Vec<Action>)
        ensures
            *final(self) == session_after(*old(self), event, attached),
            actions@ == session_actions(*old(self), event, attached),
    {
        let mut actions: Vec<Action> = Vec::new();
        match event {
            InputEvent::MouseInput { button, pressed, target } => {
                if !self.is_cursor_grabbed {
                    actions.push(Action::GrabCursor(true));
                } else if attached.compositor {
                    if pressed {
                        if self.input_manager.set_focus(target) {
                            actions.push(Action::KeyboardFocus(target));
                        }
                    }
                    if target.is_some() {
                        actions.push(
                            Action::PointerButton { code: mouse_button_code(button), pressed },
                        );
                    }
                }
            },
            InputEvent::KeyboardInput { key, pressed } => {
                if pressed && matches!(key, KeyCode::Escape) {
                    actions.push(Action::GrabCursor(false));
                } else {
                    let has_focus = self.input_manager.focused_surface.is_some();
                    if attached.renderer && (!has_focus || !self.is_cursor_grabbed) {
                        self.movement.set_key(key, pressed);
                    }
                    if has_focus {
                        match key_code_to_evdev(key) {
                            Some(code) => {
                                if attached.compositor {
                                    actions.push(Action::Key { code, pressed });
                                }
                            },
                            None => {},
                        }
                    }
                }
            },
            InputEvent::MouseMotion => {
                if self.is_cursor_grabbed {
                    actions.push(Action::RotateCamera);
                    actions.push(Action::PointerMotion);
                }
            },
        }
        actions
    }
}

/// While the pointer is free, a click only asks to capture it: nothing is
/// sent to any client and the session does not change.
pub proof fn lemma_free_pointer_click_only_grabs(
    s: Session,
    button: MouseButton,
    pressed: bool,
    target: Option<SurfaceId>,
    attached: Attached,
)
    requires
        !s.is_cursor_grabbed,
    ensures
        session_after(s, InputEvent::MouseInput { button, pressed, target }, attached) == s,
        session_actions(s, InputEvent::MouseInput { button, pressed, target }, attached)
            == seq![Action::GrabCursor(true)],
{
}

/// Pressing Escape releases the pointer and does nothing else: the key is
/// not sent to the focused client and the session does not change.
pub proof fn lemma_escape_releases_pointer(s: Session, attached: Attached)
    ensures
        session_after(s, InputEvent::KeyboardInput { key: KeyCode::Escape, pressed: true }, attached)
            == s,
        session_actions(
            s,
            InputEvent::KeyboardInput { key: KeyCode::Escape, pressed: true },
            attached,
        ) == seq![Action::GrabCursor(false)],
{
}

/// A press while the pointer is captured gives focus to what the crosshair
/// aims at: the surface hit, or nothing over empty space.
pub proof fn lemma_press_focuses_target(
    s: Session,
    button: MouseButton,
    target: Option<SurfaceId>,
    attached: Attached,
)
    requires
        s.is_cursor_grabbed,
        attached.compositor,
    ensures
        session_after(
            s,
            InputEvent::MouseInput { button, pressed: true, target },
            attached,
        ).input_manager.focused_surface == target,
{
}

/// Releasing a mouse button never moves focus.
pub proof fn lemma_release_keeps_focus(
    s: Session,
    button: MouseButton,
    target: Option<SurfaceId>,
    attached: Attached,
)
    ensures
        session_after(s, InputEvent::MouseInput { button, pressed: false, target }, attached).input_manager
            == s.input_manager,
{
}

/// The seat's keyboard is told of every change of focus, with the new
/// focus, and of nothing else.
pub proof fn lemma_focus_notice_iff_changed(s: Session, event: InputEvent, attached: Attached)
    ensures
        ({
            let next = session_after(s, event, attached);
            let actions = session_actions(s, event, attached);
            &&& next.input_manager.focused_surface != s.input_manager.focused_surface ==> actions.contains(
                Action::KeyboardFocus(next.input_manager.focused_surface),
            )
            &&& forall|i: int|
                0 <= i < actions.len() && #[trigger] actions[i] is KeyboardFocus ==> actions[i]
                    == Action::KeyboardFocus(next.input_manager.focused_surface)
                    && next.input_manager.focused_surface != s.input_manager.focused_surface
        }),
{
    let next = session_after(s, event, attached);
    let actions = session_actions(s, event, attached);
    if next.input_manager.focused_surface != s.input_manager.focused_surface {
        assert(actions[0] == Action::KeyboardFocus(next.input_manager.focused_surface));
    }
}

/// Keys reach a client only while a surface has focus, and as the scancode
/// of the key that went down or up.
pub proof fn lemma_keys_only_to_focus(s: Session, event: InputEvent, attached: Attached)
    ensures
        forall|i: int|
            0 <= i < session_actions(s, event, attached).len() && #[trigger] session_actions(
                s,
                event,
                attached,
            )[i] is Key ==> {
                &&& s.input_manager.focused_surface is Some
                &&& event matches InputEvent::KeyboardInput { key, pressed } && session_actions(
                    s,
                    event,
                    attached,
                )[i] == Action::Key { code: evdev_code(key)->0, pressed }
            },
{
}

/// Input events never capture or release the pointer by themselves: that
/// happens only when the host window carries out a `GrabCursor` action.
pub proof fn lemma_events_keep_grab(s: Session, event: InputEvent, attached: Attached)
    ensures
        session_after(s, event, attached).is_cursor_grabbed == s.is_cursor_grabbed,
{
}

/// Mouse motion changes nothing in the session.
pub proof fn lemma_motion_keeps_session(s: Session, attached: Attached)
    ensures
        session_after(s, InputEvent::MouseMotion, attached) == s,
{
}

/// While keys steer the camera, pressing and releasing a movement key that
/// was not held leaves the session as it was.
pub proof fn lemma_key_tap_restores(s: Session, key: KeyCode, attached: Attached)
    requires
        steers_camera(s, attached),
        movement_after(s.movement, key, false) == s.movement,
    ensures
        session_after(
            session_after(s, InputEvent::KeyboardInput { key, pressed: true }, attached),
            InputEvent::KeyboardInput { key, pressed: false },
            attached,
        ) == s,
{
    lemma_press_release_restores(s.movement, key);
}

/// With the renderer running, a key event other than an Escape press steers
/// the camera whenever no surface has focus or the pointer is free (whether
/// or not the pointer is captured, whether or not a surface has focus,
/// respectively): the key's own movement flag becomes `pressed` and every
/// other flag keeps its value.
pub proof fn lemma_keys_steer_camera_when_unfocused_or_free(
    s: Session,
    key: KeyCode,
    pressed: bool,
    attached: Attached,
)
    requires
        attached.renderer,
        s.input_manager.focused_surface is None || !s.is_cursor_grabbed,
        !(pressed && key is Escape),
    ensures
        ({
            let m = session_after(s, InputEvent::KeyboardInput { key, pressed }, attached).movement;
            &&& m.move_forward == if key is KeyW {
                pressed
            } else {
                s.movement.move_forward
            }
            &&& m.move_backward == if key is KeyS {
                pressed
            } else {
                s.movement.move_backward
            }
            &&& m.move_left == if key is KeyA {
                pressed
            } else {
                s.movement.move_left
            }
            &&& m.move_right == if key is KeyD {
                pressed
            } else {
                s.movement.move_right
            }
            &&& m.move_up == if key is Space {
                pressed
            } else {
                s.movement.move_up
            }
            &&& m.move_down == if key is ShiftLeft {
                pressed
            } else {
                s.movement.move_down
            }
        }),
{
}

/// While a surface has focus and the pointer is captured, keys do not move
/// the camera.
pub proof fn lemma_focused_captured_keys_keep_movement(
    s: Session,
    key: KeyCode,
    pressed: bool,
    attached: Attached,
)
    requires
        s.input_manager.focused_surface is Some,
        s.is_cursor_grabbed,
    ensures
        session_after(s, InputEvent::KeyboardInput { key, pressed }, attached).movement
            == s.movement,
{
}

/// A click on a window while the pointer is captured reaches the client as
/// the button that was clicked (left 0x110, right 0x111, middle 0x112, any
/// other button as left), with the event's pressed flag, after any focus
/// notice.
pub proof fn lemma_click_sends_clicked_button(
    s: Session,
    button: MouseButton,
    pressed: bool,
    t: SurfaceId,
    attached: Attached,
)
    requires
        s.is_cursor_grabbed,
        attached.compositor,
    ensures
        ({
            let actions = session_actions(
                s,
                InputEvent::MouseInput { button, pressed, target: Some(t) },
                attached,
            );
            let code: u32 = match button {
                MouseButton::Left => 0x110u32,
                MouseButton::Right => 0x111u32,
                MouseButton::Middle => 0x112u32,
                MouseButton::Other => 0x110u32,
            };
            &&& actions.len() >= 1
            &&& actions.last() == Action::PointerButton { code, pressed }
            &&& forall|i: int|
                0 <= i < actions.len() - 1 ==> #[trigger] actions[i] is KeyboardFocus
        }),
{
}

/// While a surface has focus and the compositor runs, every key event other
/// than an Escape press whose key has a scancode goes to that surface, and
/// nothing else happens: presses and releases alike, pointer captured or
/// free.
pub proof fn lemma_focused_surface_gets_every_key(
    s: Session,
    key: KeyCode,
    pressed: bool,
    attached: Attached,
)
    requires
        s.input_manager.focused_surface is Some,
        attached.compositor,
        evdev_code(key) is Some,
        !(pressed && key is Escape),
    ensures
        session_actions(s, InputEvent::KeyboardInput { key, pressed }, attached) == seq![
            Action::Key { code: evdev_code(key)->0, pressed },
        ],
{
}

} // verus!
