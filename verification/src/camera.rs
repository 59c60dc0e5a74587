//! Input state of the flying first-person camera controller.
//!
//! The controller's angles, speeds and the trigonometry that moves the
//! camera are real-valued arithmetic and live outside this crate. What is
//! decided here, and checked, is the key and button bookkeeping, and which
//! way one update step moves the eye.

use vstd::prelude::*;

use crate::app::{ElementState, Key, MouseButton};

verus! {

/// Which movement keys and mouse buttons are currently held.
#[derive(Clone, Copy, Debug, PartialEq, Eq, Structural)]
pub struct FlyCameraController {
    pub left_pressed: bool,
    pub right_pressed: bool,
    pub front_pressed: bool,
    pub back_pressed: bool,
    pub mouse_moved: bool,
    pub mouse_pressed: bool,
}

impl Default for FlyCameraController {
    /// Nothing held.
    fn default() -> (r: FlyCameraController)
        ensures
            !r.left_pressed,
            !r.right_pressed,
            !r.front_pressed,
            !r.back_pressed,
            !r.mouse_moved,
            !r.mouse_pressed,
    {
        FlyCameraController {
            left_pressed: false,
            right_pressed: false,
            front_pressed: false,
            back_pressed: false,
            mouse_moved: false,
            mouse_pressed: false,
        }
    }
}

impl FlyCameraController {
    /// Tracks one key event: W, A, S and D drive the front, left, back and
    /// right flags to the key's new state, everything else changes nothing.
    pub fn on_key_fn(&mut self, key: Key, key_state: ElementState)
        ensures
            final(self).front_pressed == (if key is KeyW {
                key_state is Pressed
            } else {
                old(self).front_pressed
            }),
            final(self).left_pressed == (if key is KeyA {
                key_state is Pressed
            } else {
                old(self).left_pressed
            }),
            final(self).back_pressed == (if key is KeyS {
                key_state is Pressed
            } else {
                old(self).back_pressed
            }),
            final(self).right_pressed == (if key is KeyD {
                key_state is Pressed
            } else {
                old(self).right_pressed
            }),
            final(self).mouse_moved == old(self).mouse_moved,
            final(self).mouse_pressed == old(self).mouse_pressed,
    {
        match key {
            Key::KeyW => {
                match key_state {
                    ElementState::Pressed => {
                        self.front_pressed = true;
                    },
                    ElementState::Released => {
                        self.front_pressed = false;
                    },
                }
            },
            Key::KeyA => {
                match key_state {
                    ElementState::Pressed => {
                        self.left_pressed = true;
                    },
                    ElementState::Released => {
                        self.left_pressed = false;
                    },
                }
            },
            Key::KeyS => {
                match key_state {
                    ElementState::Pressed => {
                        self.back_pressed = true;
                    },
                    ElementState::Released => {
                        self.back_pressed = false;
                    },
                }
            },
            Key::KeyD => {
                match key_state {
                    ElementState::Pressed => {
                        self.right_pressed = true;
                    },
                    ElementState::Released => {
                        self.right_pressed = false;
                    },
                }
            },
            Key::Other => {},
        }
    }

    /// Tracks one mouse button event: the left button drives the mouse-held
    /// flag to the button's new state, other buttons change nothing.
    pub fn on_mouse_input_fn(&mut self, state: ElementState, button: MouseButton)
        ensures
            final(self).mouse_pressed == (if button is Left {
                state is Pressed
            } else {
                old(self).mouse_pressed
            }),
            final(self).left_pressed == old(self).left_pressed,
            final(self).right_pressed == old(self).right_pressed,
            final(self).front_pressed == old(self).front_pressed,
            final(self).back_pressed == old(self).back_pressed,
            final(self).mouse_moved == old(self).mouse_moved,
    {
        match button {
            MouseButton::Left => {
                match state {
                    ElementState::Pressed => {
                        self.mouse_pressed = true;
                    },
                    ElementState::Released => {
                        self.mouse_pressed = false;
                    },
                }
            },
            _ => {},
        }
    }

    /// Whether mouse motion rotates the camera right now: only while the
    /// left button is held.
    pub fn rotates_on_mouse_move(&self) -> (r: bool)
        ensures
            r == self.mouse_pressed,
    {
        self.mouse_pressed
    }

    /// Which way one update step moves the eye, in whole steps of the
    /// translation speed: first along the forward axis (front key minus back
    /// key), then along the right axis (right key minus left key). Opposite
    /// keys held together cancel.
    pub fn translation_steps(&self) -> (r: (i8, i8))
        ensures
            r.0 == (if self.front_pressed {
                1int
            } else {
                0int
            }) - (if self.back_pressed {
                1int
            } else {
                0int
            }),
            r.1 == (if self.right_pressed {
                1int
            } else {
                0int
            }) - (if self.left_pressed {
                1int
            } else {
                0int
            }),
    {
        let forward: i8 = (if self.front_pressed {
            1i8
        } else {
            0i8
        }) - (if self.back_pressed {
            1i8
        } else {
            0i8
        });
        let right: i8 = (if self.right_pressed {
            1i8
        } else {
            0i8
        }) - (if self.left_pressed {
            1i8
        } else {
            0i8
        });
        (forward, right)
    }
}

} // verus!
