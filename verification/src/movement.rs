use vstd::prelude::*;
use crate::keys::KeyCode;

verus! {

/// Which fly-camera movement keys are held: W/S forward and backward, A/D
/// left and right, Space up and left Shift down.
#[derive(Clone, Copy, Debug, PartialEq, Eq)]
pub struct MovementKeys {
    pub move_forward: bool,
    pub move_backward: bool,
    pub move_left: bool,
    pub move_right: bool,
    pub move_up: bool,
    pub move_down: bool,
}

/// The movement keys after `key` went down (`pressed`) or up; keys that do
/// not steer the camera change nothing.
pub open spec fn movement_after(m: MovementKeys, key: KeyCode, pressed: bool) -> MovementKeys {
    match key {
        KeyCode::KeyW => MovementKeys { move_forward: pressed, ..m },
        KeyCode::KeyS => MovementKeys { move_backward: pressed, ..m },
        KeyCode::KeyA => MovementKeys { move_left: pressed, ..m },
        KeyCode::KeyD => MovementKeys { move_right: pressed, ..m },
        KeyCode::Space => MovementKeys { move_up: pressed, ..m },
        KeyCode::ShiftLeft => MovementKeys { move_down: pressed, ..m },
        _ => m,
    }
}

/// No movement key held.
pub open spec fn no_keys_held() -> MovementKeys {
    MovementKeys {
        move_forward: false,
        move_backward: false,
        move_left: false,
        move_right: false,
        move_up: false,
        move_down: false,
    }
}

/// Whether `key` steers the camera.
pub open spec fn is_movement_key(key: KeyCode) -> bool {
    key is KeyW || key is KeyS || key is KeyA || key is KeyD || key is Space || key is ShiftLeft
}

/// +1, -1 or 0 along one axis, from the keys for its two directions.
pub open spec fn axis(positive: bool, negative: bool) -> int {
    (if positive { 1int } else { 0int }) - (if negative { 1int } else { 0int })
}

fn axis_of(positive: bool, negative: bool) -> (a: i8)
    ensures
        a == axis(positive, negative),
{
    let p: i8 = if positive { 1 } else { 0 };
    let n: i8 = if negative { 1 } else { 0 };
    p - n
}

impl MovementKeys {
    /// No key held.
    pub fn new() -> (keys: Self)
        ensures
            keys == no_keys_held(),
    {
        MovementKeys {
            move_forward: false,
            move_backward: false,
            move_left: false,
            move_right: false,
            move_up: false,
            move_down: false,
        }
    }

    /// Records that `key` went down or up.
    pub fn set_key(&mut self, key: KeyCode, pressed: bool)
        ensures
            *final(self) == movement_after(*old(self), key, pressed),
    {
        match key {
            KeyCode::KeyW => self.move_forward = pressed,
            KeyCode::KeyS => self.move_backward = pressed,
            KeyCode::KeyA => self.move_left = pressed,
            KeyCode::KeyD => self.move_right = pressed,
            KeyCode::Space => self.move_up = pressed,
            KeyCode::ShiftLeft => self.move_down = pressed,
            _ => {},
        }
    }

    /// The direction to fly in, as coefficients of the camera's forward and
    /// right vectors and of the world's up vector; opposite keys cancel.
    pub fn axes(&self) -> (a: (i8, i8, i8))
        ensures
            a.0 == axis(self.move_forward, self.move_backward),
            a.1 == axis(self.move_right, self.move_left),
            a.2 == axis(self.move_up, self.move_down),
    {
        (
            axis_of(self.move_forward, self.move_backward),
            axis_of(self.move_right, self.move_left),
            axis_of(self.move_up, self.move_down),
        )
    }
}

/// Pressing and then releasing a key that was not held leaves the movement
/// keys as they were.
pub proof fn lemma_press_release_restores(m: MovementKeys, key: KeyCode)
    requires
        movement_after(m, key, false) == m,
    ensures
        movement_after(movement_after(m, key, true), key, false) == m,
{
}

/// A key that does not steer the camera changes no movement key.
pub proof fn lemma_other_keys_do_not_move(m: MovementKeys, key: KeyCode, pressed: bool)
    requires
        !is_movement_key(key),
    ensures
        movement_after(m, key, pressed) == m,
{
}

/// Holding both keys of an axis cancels movement along it.
pub proof fn lemma_opposite_keys_cancel(positive: bool, negative: bool)
    ensures
        positive == negative ==> axis(positive, negative) == 0,
        axis(positive, negative) == -axis(negative, positive),
{
}

/// A key steers exactly its own direction: W forward, S backward, A left,
/// D right, Space up and left Shift down. The key's own flag becomes
/// `pressed`; every other flag keeps its value.
pub proof fn lemma_each_key_sets_its_own_flag(m: MovementKeys, key: KeyCode, pressed: bool)
    ensures
        movement_after(m, key, pressed).move_forward == if key is KeyW {
            pressed
        } else {
            m.move_forward
        },
        movement_after(m, key, pressed).move_backward == if key is KeyS {
            pressed
        } else {
            m.move_backward
        },
        movement_after(m, key, pressed).move_left == if key is KeyA {
            pressed
        } else {
            m.move_left
        },
        movement_after(m, key, pressed).move_right == if key is KeyD {
            pressed
        } else {
            m.move_right
        },
        movement_after(m, key, pressed).move_up == if key is Space {
            pressed
        } else {
            m.move_up
        },
        movement_after(m, key, pressed).move_down == if key is ShiftLeft {
            pressed
        } else {
            m.move_down
        },
{
}

/// The fly direction: forward minus backward along the camera's forward
/// vector, right minus left along its right vector, up minus down along the
/// world's up vector; each coefficient is -1, 0 or 1.
pub proof fn lemma_axis_values(positive: bool, negative: bool)
    ensures
        positive && !negative ==> axis(positive, negative) == 1,
        !positive && negative ==> axis(positive, negative) == -1,
        positive == negative ==> axis(positive, negative) == 0,
{
}

} // verus!
