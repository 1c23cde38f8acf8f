use world_sandbox::control::{InputState, KeyCode, KEY_BACKWARD, KEY_FORWARD, KEY_LEFT, KEY_RIGHT};

fn released() -> InputState {
    InputState { forward: false, backward: false, left: false, right: false }
}

#[test]
fn new_input_holds_no_key() {
    assert_eq!(InputState::new(), released());
}

#[test]
fn bindings_are_wasd() {
    assert_eq!(KEY_FORWARD, KeyCode::KeyW);
    assert_eq!(KEY_BACKWARD, KeyCode::KeyS);
    assert_eq!(KEY_LEFT, KeyCode::KeyA);
    assert_eq!(KEY_RIGHT, KeyCode::KeyD);
}

#[test]
fn each_binding_sets_its_own_direction() {
    let mut s = InputState::new();
    s.set_key(KeyCode::KeyW, true);
    assert_eq!(s, InputState { forward: true, ..released() });
    s.set_key(KeyCode::KeyS, true);
    assert_eq!(s, InputState { forward: true, backward: true, ..released() });
    s.set_key(KeyCode::KeyA, true);
    s.set_key(KeyCode::KeyD, true);
    assert_eq!(s, InputState { forward: true, backward: true, left: true, right: true });
    s.set_key(KeyCode::KeyW, false);
    assert_eq!(s, InputState { forward: false, backward: true, left: true, right: true });
}

#[test]
fn unbound_keys_are_ignored() {
    let mut s = InputState { forward: true, ..released() };
    s.set_key(KeyCode::Escape, true);
    s.set_key(KeyCode::Other, false);
    assert_eq!(s, InputState { forward: true, ..released() });
}

#[test]
fn last_event_of_a_key_wins() {
    let mut s = InputState::new();
    s.set_key(KeyCode::KeyA, true);
    s.set_key(KeyCode::KeyA, true);
    assert!(s.left);
    s.set_key(KeyCode::KeyA, false);
    assert_eq!(s, released());
}

#[test]
fn events_of_different_keys_commute() {
    let mut a = InputState::new();
    a.set_key(KeyCode::KeyW, true);
    a.set_key(KeyCode::KeyD, true);
    let mut b = InputState::new();
    b.set_key(KeyCode::KeyD, true);
    b.set_key(KeyCode::KeyW, true);
    assert_eq!(a, b);
}
