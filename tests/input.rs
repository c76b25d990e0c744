use oxitrace::input::{Key, KeyResponse, MovementState};

#[test]
fn keys_drive_movement_axes() {
    let mut m = MovementState::new();
    assert!(!m.is_moving());
    assert_eq!(m.on_key(Key::W, true), KeyResponse::Continue);
    assert_eq!(m, MovementState { x: 0, y: 0, z: 1 });
    m.on_key(Key::A, true);
    m.on_key(Key::LControl, true);
    assert_eq!(m, MovementState { x: -1, y: -1, z: 1 });
    m.on_key(Key::W, false);
    m.on_key(Key::S, true);
    assert_eq!(m, MovementState { x: -1, y: -1, z: -1 });
    m.on_key(Key::D, true);
    m.on_key(Key::Space, true);
    assert_eq!(m, MovementState { x: 1, y: 1, z: -1 });
    assert!(m.is_moving());
}

#[test]
fn release_stops_axis_and_escape_exits() {
    let mut m = MovementState::new();
    m.on_key(Key::D, true);
    m.on_key(Key::D, false);
    assert!(!m.is_moving());
    assert_eq!(m.on_key(Key::Other, true), KeyResponse::Continue);
    assert_eq!(m.on_key(Key::Escape, true), KeyResponse::Exit);
    assert_eq!(m, MovementState::new());
}
