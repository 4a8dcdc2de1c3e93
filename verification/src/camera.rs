//! The keys that steer the camera of the viewer.
use vstd::prelude::*;
use crate::input::{Key, KeyState};

verus! {

/// Which of the four steering directions are held down.
#[derive(Copy, Clone, Debug, PartialEq, Eq, Structural)]
pub struct CameraController {
    pub is_forward_pressed: bool,
    pub is_backward_pressed: bool,
    pub is_left_pressed: bool,
    pub is_right_pressed: bool,
}

impl CameraController {
    /// Whether the key steers the camera: W, A, S, D and the arrows do.
    pub open spec fn steers(key: Option<Key>) -> bool {
        key matches Some(k) && (k == Key::W || k == Key::Up || k == Key::A || k == Key::Left || k
            == Key::S || k == Key::Down || k == Key::D || k == Key::Right)
    }

    /// The controller after a key changed its state: W and Up steer forward,
    /// S and Down backward, A and Left to the left, D and Right to the
    /// right, each for as long as the key is held.
    pub open spec fn after_key(self, key: Option<Key>, state: KeyState) -> CameraController {
        let pressed = state == KeyState::Pressed;
        match key {
            Some(Key::W) | Some(Key::Up) => CameraController {
                is_forward_pressed: pressed,
                ..self
            },
            Some(Key::A) | Some(Key::Left) => CameraController { is_left_pressed: pressed, ..self },
            Some(Key::S) | Some(Key::Down) => CameraController {
                is_backward_pressed: pressed,
                ..self
            },
            Some(Key::D) | Some(Key::Right) => CameraController {
                is_right_pressed: pressed,
                ..self
            },
            _ => self,
        }
    }

    /// A controller with no key held.
    pub fn new() -> (controller: Self)
        ensures
            controller == (CameraController {
                is_forward_pressed: false,
                is_backward_pressed: false,
                is_left_pressed: false,
                is_right_pressed: false,
            }),
    {
        CameraController {
            is_forward_pressed: false,
            is_backward_pressed: false,
            is_left_pressed: false,
            is_right_pressed: false,
        }
    }

    /// Takes in one change of a key's state and says whether the key steers
    /// the camera.
    pub fn process_events(&mut self, key: Option<Key>, state: KeyState) -> (handled: bool)
        ensures
            *final(self) == old(self).after_key(key, state),
            handled == CameraController::steers(key),
    {
        let is_pressed: bool = match state {
            KeyState::Pressed => true,
            KeyState::Released => false,
        };
        match key {
            Some(Key::W) | Some(Key::Up) => {
                self.is_forward_pressed = is_pressed;
                true
            },
            Some(Key::A) | Some(Key::Left) => {
                self.is_left_pressed = is_pressed;
                true
            },
            Some(Key::S) | Some(Key::Down) => {
                self.is_backward_pressed = is_pressed;
                true
            },
            Some(Key::D) | Some(Key::Right) => {
                self.is_right_pressed = is_pressed;
                true
            },
            _ => false,
        }
    }
}

} // verus!
