//! The state of a viewing session: whether the simulation runs, and which
//! mass a click adds.
use vstd::prelude::*;
use crate::body::BodyMass;
use crate::input::{Key, KeyState};

verus! {

/// The state of a viewing session.
#[derive(Copy, Clone, Debug, PartialEq, Eq, Structural)]
pub struct Session {
    /// Whether each frame advances the simulation by a tick.
    pub running: bool,
    /// Whether the left shift key is held.
    pub shift_down: bool,
    /// Whether the left control key is held.
    pub ctrl_down: bool,
}

/// The mass class that a click adds: large while control is held, else
/// medium while shift is held, else small.
pub open spec fn mass_for(shift_down: bool, ctrl_down: bool) -> BodyMass {
    if ctrl_down {
        BodyMass::Large
    } else if shift_down {
        BodyMass::Medium
    } else {
        BodyMass::Small
    }
}

impl Session {
    /// The session after a key changed its state: pressing Space starts or
    /// pauses the simulation; the left shift and control keys are held or
    /// not.
    pub open spec fn after_key(self, key: Option<Key>, state: KeyState) -> Session {
        let pressed = state == KeyState::Pressed;
        match key {
            Some(Key::Space) => Session { running: self.running != pressed, ..self },
            Some(Key::LShift) => Session { shift_down: pressed, ..self },
            Some(Key::LControl) => Session { ctrl_down: pressed, ..self },
            _ => self,
        }
    }

    /// Whether the key event ends the session: pressing Escape does.
    pub open spec fn ends(key: Option<Key>, state: KeyState) -> bool {
        key == Some(Key::Escape) && state == KeyState::Pressed
    }

    /// A running session with no key held.
    pub fn new() -> (session: Self)
        ensures
            session == (Session { running: true, shift_down: false, ctrl_down: false }),
    {
        Session { running: true, shift_down: false, ctrl_down: false }
    }

    /// Takes in one change of a key's state and says whether the session is
    /// to end.
    pub fn handle_key(&mut self, key: Option<Key>, state: KeyState) -> (exit: bool)
        ensures
            *final(self) == old(self).after_key(key, state),
            exit == Session::ends(key, state),
    {
        let pressed: bool = match state {
            KeyState::Pressed => true,
            KeyState::Released => false,
        };
        match key {
            Some(Key::Escape) => pressed,
            Some(Key::Space) => {
                if pressed {
                    self.running = !self.running;
                }
                false
            },
            Some(Key::LShift) => {
                self.shift_down = pressed;
                false
            },
            Some(Key::LControl) => {
                self.ctrl_down = pressed;
                false
            },
            _ => false,
        }
    }

    /// The mass class that a click adds now.
    pub fn mass(&self) -> (class: BodyMass)
        ensures
            class == mass_for(self.shift_down, self.ctrl_down),
    {
        if self.ctrl_down {
            BodyMass::Large
        } else if self.shift_down {
            BodyMass::Medium
        } else {
            BodyMass::Small
        }
    }
}

} // verus!
