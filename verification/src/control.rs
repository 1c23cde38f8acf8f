use vstd::prelude::*;

verus! {

/// The physical keys that the viewer tells apart. Every other key is `Other`.
#[derive(Clone, Copy, Debug, PartialEq, Eq, Structural)]
pub enum KeyCode {
    KeyW,
    KeyS,
    KeyA,
    KeyD,
    Escape,
    Other,
}

/// Key that moves the camera forward.
pub const KEY_FORWARD: KeyCode = KeyCode::KeyW;

/// Key that moves the camera backward.
pub const KEY_BACKWARD: KeyCode = KeyCode::KeyS;

/// Key that strafes the camera to the left.
pub const KEY_LEFT: KeyCode = KeyCode::KeyA;

/// Key that strafes the camera to the right.
pub const KEY_RIGHT: KeyCode = KeyCode::KeyD;

/// Which movement keys are currently held down.
#[derive(Clone, Copy, Debug, PartialEq, Eq, Structural)]
pub struct InputState {
    pub forward: bool,
    pub backward: bool,
    pub left: bool,
    pub right: bool,
}

/// Whether `code` is bound to one of the four movement directions.
pub open spec fn is_bound(code: KeyCode) -> bool {
    code == KEY_FORWARD || code == KEY_BACKWARD || code == KEY_LEFT || code == KEY_RIGHT
}

impl InputState {
    /// The state in which no movement key is held.
    pub open spec fn released() -> InputState {
        InputState { forward: false, backward: false, left: false, right: false }
    }

    /// The state after a key event: the direction bound to `code` takes the
    /// value `pressed`; the other directions keep theirs. An unbound key
    /// changes nothing.
    pub open spec fn with_key(self, code: KeyCode, pressed: bool) -> InputState {
        InputState {
            forward: if code == KEY_FORWARD { pressed } else { self.forward },
            backward: if code == KEY_BACKWARD { pressed } else { self.backward },
            left: if code == KEY_LEFT { pressed } else { self.left },
            right: if code == KEY_RIGHT { pressed } else { self.right },
        }
    }

    /// Creates the state in which no key is held.
    pub fn new() -> (s: Self)
        ensures
            s == InputState::released(),
    {
        Self { forward: false, backward: false, left: false, right: false }
    }

    /// Records that `code` was pressed (`pressed == true`) or released.
    pub fn set_key(&mut self, code: KeyCode, pressed: bool)
        ensures
            *final(self) == old(self).with_key(code, pressed),
    {
        if code == KEY_FORWARD {
            self.forward = pressed;
        } else if code == KEY_BACKWARD {
            self.backward = pressed;
        } else if code == KEY_LEFT {
            self.left = pressed;
        } else if code == KEY_RIGHT {
            self.right = pressed;
        }
    }
}

/// A later event for the same key overrides an earlier one: the state depends
/// only on the last event of each key.
pub proof fn law_last_event_wins(s: InputState, code: KeyCode, first: bool, second: bool)
    ensures
        s.with_key(code, first).with_key(code, second) == s.with_key(code, second),
{
}

/// Events of two different keys do not interfere: their order does not matter.
pub proof fn law_keys_commute(s: InputState, a: KeyCode, pa: bool, b: KeyCode, pb: bool)
    requires
        a != b,
    ensures
        s.with_key(a, pa).with_key(b, pb) == s.with_key(b, pb).with_key(a, pa),
{
}

/// A key that is bound to no direction leaves the state unchanged.
pub proof fn law_unbound_key_is_ignored(s: InputState, code: KeyCode, pressed: bool)
    requires
        !is_bound(code),
    ensures
        s.with_key(code, pressed) == s,
{
}

/// Releasing a key that was pressed from the initial state brings the state
/// back to the initial one.
pub proof fn law_release_undoes_press(code: KeyCode)
    ensures
        InputState::released().with_key(code, true).with_key(code, false) == InputState::released(),
{
}


/// W moves forward, S backward, A left and D right: each records its own
/// direction and no other; Escape and any other key record nothing.
pub proof fn law_wasd_bindings(s: InputState, pressed: bool)
    ensures
        s.with_key(KeyCode::KeyW, pressed) == (InputState { forward: pressed, ..s }),
        s.with_key(KeyCode::KeyS, pressed) == (InputState { backward: pressed, ..s }),
        s.with_key(KeyCode::KeyA, pressed) == (InputState { left: pressed, ..s }),
        s.with_key(KeyCode::KeyD, pressed) == (InputState { right: pressed, ..s }),
        s.with_key(KeyCode::Escape, pressed) == s,
        s.with_key(KeyCode::Other, pressed) == s,
{
}

/// The initial state holds no key.
pub proof fn law_released_holds_nothing()
    ensures
        !InputState::released().forward && !InputState::released().backward
            && !InputState::released().left && !InputState::released().right,
{
}

} // verus!
