use hydra::app::{
    AppConfig, AppPhase, DeviceEvent, ElementState, Key, MouseButton, WindowEvent,
    handle_device_event, handle_resumed, handle_window_event,
};

fn running_phase() -> AppPhase {
    AppPhase { has_context: true, has_window: true, has_state: true, has_ui: false }
}

#[test]
fn config_defaults() {
    let c = AppConfig::new();
    assert_eq!(c.title, "hydra app");
    assert!(!c.has_update);
    assert!(!c.has_render);
    assert!(!c.has_render_with_ui);
    assert!(!c.has_on_key);
}

#[test]
fn config_builder_chain() {
    let c = AppConfig::new()
        .update()
        .render()
        .on_window_resize()
        .on_key()
        .on_cursor_move()
        .on_mouse_move()
        .on_mouse_input()
        .with_title(String::from("demo"));
    assert!(c.has_update);
    assert!(c.has_render);
    assert!(!c.has_render_with_ui);
    assert!(c.has_on_window_resize);
    assert!(c.has_on_key);
    assert!(c.has_on_cursor_move);
    assert!(c.has_on_mouse_move);
    assert!(c.has_on_mouse_input);
    assert_eq!(c.title, "demo");
}

#[test]
fn close_requested_exits() {
    let c = AppConfig::new();
    let a = handle_window_event(&c, &running_phase(), false, WindowEvent::CloseRequested);
    assert!(a.exit);
    assert!(!a.request_redraw);
    assert!(!a.call_update);
}

#[test]
fn ui_capture_suppresses_everything() {
    let c = AppConfig::new().update().render().on_key();
    let a = handle_window_event(&c, &running_phase(), true, WindowEvent::CloseRequested);
    assert!(!a.exit);
    let b = handle_window_event(&c, &running_phase(), true, WindowEvent::RedrawRequested);
    assert!(!b.request_redraw);
    assert!(!b.call_update);
    assert!(!b.call_render);
}

#[test]
fn redraw_requests_update_and_render() {
    let c = AppConfig::new().update().render();
    let a = handle_window_event(&c, &running_phase(), false, WindowEvent::RedrawRequested);
    assert!(a.request_redraw);
    assert!(a.call_update);
    assert!(a.call_render);
    assert!(!a.call_render_with_ui);
}

#[test]
fn redraw_before_state_does_nothing_but_redraw() {
    let c = AppConfig::new().update().render();
    let phase = AppPhase { has_context: true, has_window: true, has_state: false, has_ui: false };
    let a = handle_window_event(&c, &phase, false, WindowEvent::RedrawRequested);
    assert!(a.request_redraw);
    assert!(!a.call_update);
    assert!(!a.call_render);
}

#[test]
fn redraw_with_ui_render() {
    let c = AppConfig::new().render_with_ui();
    let phase = AppPhase { has_context: true, has_window: true, has_state: true, has_ui: true };
    let a = handle_window_event(&c, &phase, false, WindowEvent::RedrawRequested);
    assert!(a.call_render_with_ui);
    assert!(!a.call_render);
}

#[test]
fn key_event_reaches_callback() {
    let c = AppConfig::new().on_key();
    let a = handle_window_event(
        &c,
        &running_phase(),
        false,
        WindowEvent::KeyboardInput { key: Key::KeyW, state: ElementState::Pressed },
    );
    assert_eq!(a.call_on_key, Some((Key::KeyW, ElementState::Pressed)));
}

#[test]
fn key_event_without_callback_is_dropped() {
    let c = AppConfig::new();
    let a = handle_window_event(
        &c,
        &running_phase(),
        false,
        WindowEvent::KeyboardInput { key: Key::KeyW, state: ElementState::Pressed },
    );
    assert_eq!(a.call_on_key, None);
}

#[test]
fn cursor_move_needs_window_and_state() {
    let c = AppConfig::new().on_cursor_move();
    let a = handle_window_event(&c, &running_phase(), false, WindowEvent::CursorMoved);
    assert!(a.call_on_cursor_move);
    let no_window = AppPhase { has_context: true, has_window: false, has_state: true, has_ui: false };
    let b = handle_window_event(&c, &no_window, false, WindowEvent::CursorMoved);
    assert!(!b.call_on_cursor_move);
}

#[test]
fn mouse_input_reaches_callback() {
    let c = AppConfig::new().on_mouse_input();
    let a = handle_window_event(
        &c,
        &running_phase(),
        false,
        WindowEvent::MouseInput { button: MouseButton::Left, state: ElementState::Released },
    );
    assert_eq!(a.call_on_mouse_input, Some((MouseButton::Left, ElementState::Released)));
}

#[test]
fn resize_nonzero_reconfigures() {
    let c = AppConfig::new().on_window_resize();
    let a = handle_window_event(
        &c,
        &running_phase(),
        false,
        WindowEvent::Resized { width: 800, height: 600 },
    );
    assert_eq!(a.reconfigure, Some((800, 600)));
    assert!(a.request_redraw);
    assert_eq!(a.call_on_window_resize, Some((800, 600)));
}

#[test]
fn resize_to_zero_skips_reconfigure() {
    let c = AppConfig::new().on_window_resize();
    let a = handle_window_event(
        &c,
        &running_phase(),
        false,
        WindowEvent::Resized { width: 0, height: 600 },
    );
    assert_eq!(a.reconfigure, None);
    assert_eq!(a.call_on_window_resize, Some((0, 600)));
}

#[test]
fn scale_factor_change_is_ignored() {
    let c = AppConfig::new().update().render();
    let a = handle_window_event(&c, &running_phase(), false, WindowEvent::ScaleFactorChanged);
    assert!(!a.exit && !a.request_redraw && !a.call_update && !a.call_render);
}

#[test]
fn device_mouse_motion_reaches_callback() {
    let c = AppConfig::new().on_mouse_move();
    assert!(handle_device_event(&c, &running_phase(), false, DeviceEvent::MouseMotion));
    assert!(!handle_device_event(&c, &running_phase(), true, DeviceEvent::MouseMotion));
    assert!(!handle_device_event(&c, &running_phase(), false, DeviceEvent::Other));
    let no_cb = AppConfig::new();
    assert!(!handle_device_event(&no_cb, &running_phase(), false, DeviceEvent::MouseMotion));
}

#[test]
fn resumed_initialises_once() {
    let c = AppConfig::new().render_with_ui();
    let fresh = AppPhase { has_context: true, has_window: true, has_state: false, has_ui: false };
    let (create_ui, init_state) = handle_resumed(&c, &fresh, false);
    assert!(create_ui);
    assert!(init_state);
    let done = AppPhase { has_context: true, has_window: true, has_state: true, has_ui: true };
    let (create_ui2, init_state2) = handle_resumed(&c, &done, false);
    assert!(!create_ui2);
    assert!(!init_state2);
}
