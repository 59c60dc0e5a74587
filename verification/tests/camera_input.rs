use hydra::app::{ElementState, Key, MouseButton};
use hydra::camera::FlyCameraController;

#[test]
fn camera_starts_released() {
    let c = FlyCameraController::default();
    assert!(!c.left_pressed);
    assert!(!c.right_pressed);
    assert!(!c.front_pressed);
    assert!(!c.back_pressed);
    assert!(!c.mouse_pressed);
    assert_eq!(c.translation_steps(), (0, 0));
}

#[test]
fn wasd_keys_drive_movement_flags() {
    let mut c = FlyCameraController::default();
    c.on_key_fn(Key::KeyW, ElementState::Pressed);
    assert!(c.front_pressed);
    c.on_key_fn(Key::KeyA, ElementState::Pressed);
    assert!(c.left_pressed);
    c.on_key_fn(Key::KeyS, ElementState::Pressed);
    assert!(c.back_pressed);
    c.on_key_fn(Key::KeyD, ElementState::Pressed);
    assert!(c.right_pressed);
    c.on_key_fn(Key::KeyW, ElementState::Released);
    assert!(!c.front_pressed);
    assert!(c.back_pressed);
}

#[test]
fn other_keys_change_nothing() {
    let mut c = FlyCameraController::default();
    c.on_key_fn(Key::Other, ElementState::Pressed);
    assert_eq!(c, FlyCameraController::default());
}

#[test]
fn left_button_gates_rotation() {
    let mut c = FlyCameraController::default();
    assert!(!c.rotates_on_mouse_move());
    c.on_mouse_input_fn(ElementState::Pressed, MouseButton::Left);
    assert!(c.rotates_on_mouse_move());
    c.on_mouse_input_fn(ElementState::Pressed, MouseButton::Right);
    assert!(c.rotates_on_mouse_move());
    c.on_mouse_input_fn(ElementState::Released, MouseButton::Left);
    assert!(!c.rotates_on_mouse_move());
}

#[test]
fn translation_steps_combine_keys() {
    let mut c = FlyCameraController::default();
    c.on_key_fn(Key::KeyW, ElementState::Pressed);
    assert_eq!(c.translation_steps(), (1, 0));
    c.on_key_fn(Key::KeyS, ElementState::Pressed);
    assert_eq!(c.translation_steps(), (0, 0));
    c.on_key_fn(Key::KeyW, ElementState::Released);
    assert_eq!(c.translation_steps(), (-1, 0));
    c.on_key_fn(Key::KeyD, ElementState::Pressed);
    c.on_key_fn(Key::KeyA, ElementState::Pressed);
    assert_eq!(c.translation_steps(), (-1, 0));
    c.on_key_fn(Key::KeyA, ElementState::Released);
    assert_eq!(c.translation_steps(), (-1, 1));
}
