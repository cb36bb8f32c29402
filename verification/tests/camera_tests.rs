use irid::camera::{
    process_camera_events, CameraController, Control, ElementState, Key, KeyboardInput,
};

fn key(state: ElementState, k: Key) -> KeyboardInput {
    KeyboardInput { state, virtual_keycode: Some(k) }
}

#[test]
fn new_controller_has_nothing_pressed() {
    let c = CameraController::new(0.2f32);
    assert_eq!(*c.speed(), 0.2f32);
    for d in [Control::Up, Control::Down, Control::Forward, Control::Backward, Control::Left, Control::Right] {
        assert!(!c.is_pressed(d));
    }
}

#[test]
fn movement_keys_set_their_flags() {
    let mut c = CameraController::new(1u32);
    let cases = [
        (Key::Space, Control::Up),
        (Key::LShift, Control::Down),
        (Key::W, Control::Forward),
        (Key::Up, Control::Forward),
        (Key::A, Control::Left),
        (Key::Left, Control::Left),
        (Key::S, Control::Backward),
        (Key::Down, Control::Backward),
        (Key::D, Control::Right),
        (Key::Right, Control::Right),
    ];
    for (k, d) in cases {
        assert!(c.process_events(&key(ElementState::Pressed, k)));
        assert!(c.is_pressed(d));
        assert!(c.process_events(&key(ElementState::Released, k)));
        assert!(!c.is_pressed(d));
    }
}

#[test]
fn other_keys_are_not_handled() {
    let mut c = CameraController::new(1u32);
    c.process_events(&key(ElementState::Pressed, Key::W));
    assert!(!c.process_events(&key(ElementState::Pressed, Key::Escape)));
    assert!(!c.process_events(&key(ElementState::Pressed, Key::Other)));
    assert!(!c.process_events(&KeyboardInput { state: ElementState::Pressed, virtual_keycode: None }));
    assert!(c.is_pressed(Control::Forward));
    assert!(!c.is_pressed(Control::Left));
}

#[test]
fn press_only_touches_its_direction() {
    let mut c = CameraController::new(1u32);
    c.process_events(&key(ElementState::Pressed, Key::A));
    c.process_events(&key(ElementState::Pressed, Key::Space));
    c.process_events(&key(ElementState::Released, Key::Left));
    assert!(!c.is_pressed(Control::Left));
    assert!(c.is_pressed(Control::Up));
}

#[test]
fn renderer_without_controller_accepts_everything() {
    let mut none: Option<CameraController<f32>> = None;
    assert!(process_camera_events(&mut none, &key(ElementState::Pressed, Key::Escape)));
    let mut some = Some(CameraController::new(0.5f32));
    assert!(!process_camera_events(&mut some, &key(ElementState::Pressed, Key::Escape)));
    assert!(process_camera_events(&mut some, &key(ElementState::Pressed, Key::D)));
    assert!(some.as_ref().unwrap().is_pressed(Control::Right));
}
