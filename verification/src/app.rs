//! The decision core of the application event loop.
//!
//! The windowing library delivers events and the GPU plumbing performs
//! actions; both live outside this crate. What is decided here, and checked,
//! is the mapping in between: given which callbacks an application
//! registered, how far startup has progressed, and one incoming event, which
//! actions the loop must perform, in which order the executor applies them
//! (redraw request, then update, then render).

use vstd::prelude::*;

verus! {

/// A keyboard key, as far as the movement bindings care: the four movement
/// keys, and everything else.
#[derive(Clone, Copy, Debug, PartialEq, Eq, Structural)]
pub enum Key {
    KeyW,
    KeyA,
    KeyS,
    KeyD,
    Other,
}

/// Whether a key or button went down or up.
#[derive(Clone, Copy, Debug, PartialEq, Eq, Structural)]
pub enum ElementState {
    Pressed,
    Released,
}

/// A mouse button.
#[derive(Clone, Copy, Debug, PartialEq, Eq, Structural)]
pub enum MouseButton {
    Left,
    Right,
    Middle,
    Other,
}

/// One event aimed at the window. Payloads the decisions never read (cursor
/// positions, motion deltas) stay with the caller; the resize payload is kept
/// because the decision depends on it.
#[derive(Clone, Copy, Debug, PartialEq, Eq, Structural)]
pub enum WindowEvent {
    CloseRequested,
    KeyboardInput { key: Key, state: ElementState },
    CursorMoved,
    MouseInput { button: MouseButton, state: ElementState },
    Resized { width: u32, height: u32 },
    RedrawRequested,
    ScaleFactorChanged,
    Other,
}

/// One event from an input device rather than the window.
#[derive(Clone, Copy, Debug, PartialEq, Eq, Structural)]
pub enum DeviceEvent {
    MouseMotion,
    Other,
}

/// Which callbacks an application registered, and the window title. Built by
/// the same chain of calls an application would aim at the event loop.
#[derive(Clone, Debug)]
pub struct AppConfig {
    pub has_update: bool,
    pub has_render: bool,
    pub has_render_with_ui: bool,
    pub has_on_window_resize: bool,
    pub has_on_key: bool,
    pub has_on_cursor_move: bool,
    pub has_on_mouse_move: bool,
    pub has_on_mouse_input: bool,
    pub title: String,
}

/// How far startup has progressed: whether the GPU context, the window, the
/// application state, and the UI layer exist yet.
#[derive(Clone, Copy, Debug, PartialEq, Eq, Structural)]
pub struct AppPhase {
    pub has_context: bool,
    pub has_window: bool,
    pub has_state: bool,
    pub has_ui: bool,
}

/// The actions one window event asks of the executor. Booleans and payloads
/// only; the executor performs them in the order the fields are declared,
/// which is the order the loop performed them: exit, surface reconfiguration,
/// input callbacks, redraw request, update, render.
#[derive(Clone, Copy, Debug, PartialEq, Eq)]
pub struct EventActions {
    pub exit: bool,
    pub reconfigure: Option<(u32, u32)>,
    pub call_on_key: Option<(Key, ElementState)>,
    pub call_on_cursor_move: bool,
    pub call_on_mouse_input: Option<(MouseButton, ElementState)>,
    pub call_on_window_resize: Option<(u32, u32)>,
    pub request_redraw: bool,
    pub call_update: bool,
    pub call_render: bool,
    pub call_render_with_ui: bool,
}

impl EventActions {
    /// No action at all.
    pub open spec fn spec_empty() -> EventActions {
        EventActions {
            exit: false,
            reconfigure: None,
            call_on_key: None,
            call_on_cursor_move: false,
            call_on_mouse_input: None,
            call_on_window_resize: None,
            request_redraw: false,
            call_update: false,
            call_render: false,
            call_render_with_ui: false,
        }
    }

    /// Builds the all-false action set.
    pub fn empty() -> (r: EventActions)
        ensures
            r == EventActions::spec_empty(),
    {
        EventActions {
            exit: false,
            reconfigure: None,
            call_on_key: None,
            call_on_cursor_move: false,
            call_on_mouse_input: None,
            call_on_window_resize: None,
            request_redraw: false,
            call_update: false,
            call_render: false,
            call_render_with_ui: false,
        }
    }
}

impl AppConfig {
    /// A fresh configuration: no callbacks, and the default window title.
    pub fn new() -> (r: AppConfig)
        ensures
            !r.has_update,
            !r.has_render,
            !r.has_render_with_ui,
            !r.has_on_window_resize,
            !r.has_on_key,
            !r.has_on_cursor_move,
            !r.has_on_mouse_move,
            !r.has_on_mouse_input,
            r.title@ == "hydra app"@,
    {
        AppConfig {
            has_update: false,
            has_render: false,
            has_render_with_ui: false,
            has_on_window_resize: false,
            has_on_key: false,
            has_on_cursor_move: false,
            has_on_mouse_move: false,
            has_on_mouse_input: false,
            title: "hydra app".to_string(),
        }
    }

    /// Registers the per-frame update callback.
    pub fn update(self) -> (r: AppConfig)
        ensures
            r == (AppConfig { has_update: true, ..self }),
    {
        AppConfig { has_update: true, ..self }
    }

    /// Registers the render callback. An application picks either this or
    /// the UI render callback, never both.
    pub fn render(self) -> (r: AppConfig)
        requires
            !self.has_render_with_ui,
        ensures
            r == (AppConfig { has_render: true, ..self }),
    {
        AppConfig { has_render: true, ..self }
    }

    /// Registers the render-with-UI callback. An application picks either
    /// this or the plain render callback, never both.
    pub fn render_with_ui(self) -> (r: AppConfig)
        requires
            !self.has_render,
        ensures
            r == (AppConfig { has_render_with_ui: true, ..self }),
    {
        AppConfig { has_render_with_ui: true, ..self }
    }

    /// Registers the window resize callback.
    pub fn on_window_resize(self) -> (r: AppConfig)
        ensures
            r == (AppConfig { has_on_window_resize: true, ..self }),
    {
        AppConfig { has_on_window_resize: true, ..self }
    }

    /// Registers the keyboard callback.
    pub fn on_key(self) -> (r: AppConfig)
        ensures
            r == (AppConfig { has_on_key: true, ..self }),
    {
        AppConfig { has_on_key: true, ..self }
    }

    /// Registers the cursor position callback.
    pub fn on_cursor_move(self) -> (r: AppConfig)
        ensures
            r == (AppConfig { has_on_cursor_move: true, ..self }),
    {
        AppConfig { has_on_cursor_move: true, ..self }
    }

    /// Registers the raw mouse motion callback.
    pub fn on_mouse_move(self) -> (r: AppConfig)
        ensures
            r == (AppConfig { has_on_mouse_move: true, ..self }),
    {
        AppConfig { has_on_mouse_move: true, ..self }
    }

    /// Registers the mouse button callback.
    pub fn on_mouse_input(self) -> (r: AppConfig)
        ensures
            r == (AppConfig { has_on_mouse_input: true, ..self }),
    {
        AppConfig { has_on_mouse_input: true, ..self }
    }

    /// Replaces the window title.
    pub fn with_title(self, title: String) -> (r: AppConfig)
        ensures
            r == (AppConfig { title, ..self }),
    {
        AppConfig { title, ..self }
    }
}

/// What the loop does with one window event. When the UI layer captured the
/// event, nothing. A close request exits. Key, cursor and mouse-button events
/// reach their callbacks once the application state exists (the cursor
/// callback also needs the window, whose size it is handed). A resize
/// reconfigures the surface only at a nonzero size, asks for a redraw, and
/// reaches the resize callback whatever the size was. A redraw request asks
/// for the next frame and runs update, then whichever render callback is
/// registered.
pub open spec fn window_actions(
    config: AppConfig,
    phase: AppPhase,
    ui_captured: bool,
    event: WindowEvent,
) -> EventActions {
    if ui_captured {
        EventActions::spec_empty()
    } else {
        match event {
            WindowEvent::CloseRequested => EventActions {
                exit: true,
                ..EventActions::spec_empty()
            },
            WindowEvent::KeyboardInput { key, state } => EventActions {
                call_on_key: if config.has_on_key && phase.has_state {
                    Some((key, state))
                } else {
                    None
                },
                ..EventActions::spec_empty()
            },
            WindowEvent::CursorMoved => EventActions {
                call_on_cursor_move: config.has_on_cursor_move && phase.has_state
                    && phase.has_window,
                ..EventActions::spec_empty()
            },
            WindowEvent::MouseInput { button, state } => EventActions {
                call_on_mouse_input: if config.has_on_mouse_input && phase.has_state {
                    Some((button, state))
                } else {
                    None
                },
                ..EventActions::spec_empty()
            },
            WindowEvent::Resized { width, height } => EventActions {
                reconfigure: if width > 0 && height > 0 {
                    Some((width, height))
                } else {
                    None
                },
                request_redraw: phase.has_window,
                call_on_window_resize: if config.has_on_window_resize && phase.has_state {
                    Some((width, height))
                } else {
                    None
                },
                ..EventActions::spec_empty()
            },
            WindowEvent::RedrawRequested => EventActions {
                request_redraw: phase.has_window,
                call_update: config.has_update && phase.has_state,
                call_render: config.has_render && phase.has_state,
                call_render_with_ui: config.has_render_with_ui && phase.has_state,
                ..EventActions::spec_empty()
            },
            WindowEvent::ScaleFactorChanged => EventActions::spec_empty(),
            WindowEvent::Other => EventActions::spec_empty(),
        }
    }
}

/// Decides the actions for one window event. The context must exist before
/// the loop runs, and the UI layer must exist before a state-holding
/// application renders through it: on those inputs the loop would tear the
/// missing piece out of an empty option.
pub fn handle_window_event(
    config: &AppConfig,
    phase: &AppPhase,
    ui_captured: bool,
    event: WindowEvent,
) -> (a: EventActions)
    requires
        phase.has_context,
        config.has_render_with_ui && phase.has_state ==> phase.has_ui,
    ensures
        a == window_actions(*config, *phase, ui_captured, event),
{
    let mut a = EventActions::empty();
    if ui_captured {
        return a;
    }
    match event {
        WindowEvent::CloseRequested => {
            a.exit = true;
        },
        WindowEvent::KeyboardInput { key, state } => {
            if config.has_on_key && phase.has_state {
                a.call_on_key = Some((key, state));
            }
        },
        WindowEvent::CursorMoved => {
            if config.has_on_cursor_move && phase.has_state && phase.has_window {
                a.call_on_cursor_move = true;
            }
        },
        WindowEvent::MouseInput { button, state } => {
            if config.has_on_mouse_input && phase.has_state {
                a.call_on_mouse_input = Some((button, state));
            }
        },
        WindowEvent::Resized { width, height } => {
            if width > 0 && height > 0 {
                a.reconfigure = Some((width, height));
            }
            if phase.has_window {
                a.request_redraw = true;
            }
            if config.has_on_window_resize && phase.has_state {
                a.call_on_window_resize = Some((width, height));
            }
        },
        WindowEvent::RedrawRequested => {
            if phase.has_window {
                a.request_redraw = true;
            }
            if config.has_update && phase.has_state {
                a.call_update = true;
            }
            if config.has_render && phase.has_state {
                a.call_render = true;
            }
            if config.has_render_with_ui && phase.has_state {
                a.call_render_with_ui = true;
            }
        },
        WindowEvent::ScaleFactorChanged => {},
        WindowEvent::Other => {},
    }
    a
}

/// What the loop does with one device event: raw mouse motion reaches its
/// callback once the application state exists, unless the UI layer captured
/// the event.
pub open spec fn device_actions(
    config: AppConfig,
    phase: AppPhase,
    ui_captured: bool,
    event: DeviceEvent,
) -> bool {
    !ui_captured && event is MouseMotion && config.has_on_mouse_move && phase.has_state
}

/// Decides whether one device event reaches the mouse motion callback.
pub fn handle_device_event(
    config: &AppConfig,
    phase: &AppPhase,
    ui_captured: bool,
    event: DeviceEvent,
) -> (call_on_mouse_move: bool)
    ensures
        call_on_mouse_move == device_actions(*config, *phase, ui_captured, event),
{
    !ui_captured && matches!(event, DeviceEvent::MouseMotion) && config.has_on_mouse_move
        && phase.has_state
}

/// Decides what resuming does: the UI layer is created when a UI render
/// callback is registered and the layer does not exist yet, and the
/// application state is initialised when it does not exist yet. Both steps
/// happen at most once: platforms may deliver resume repeatedly, and a
/// repeat must not silently reset a running application's state. The context
/// must exist, since both steps read it.
pub fn handle_resumed(config: &AppConfig, phase: &AppPhase, ui_captured: bool) -> (r: (bool, bool))
    requires
        phase.has_context,
    ensures
        r.0 == (!ui_captured && config.has_render_with_ui && !phase.has_ui),
        r.1 == (!ui_captured && !phase.has_state),
{
    let create_ui = !ui_captured && config.has_render_with_ui && !phase.has_ui;
    let init_state = !ui_captured && !phase.has_state;
    (create_ui, init_state)
}

} // verus!
