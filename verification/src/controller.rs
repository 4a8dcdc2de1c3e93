//! The controller of a viewer that acts on each key at once: it keeps
//! whether the simulation and the program run, and says what a key asks of
//! the view and of the simulation.
use vstd::prelude::*;
use crate::input::{InputEvent, Key, KeyState, MoveX, MoveZ, Pan, Tilt, Zoom};

verus! {

/// What a key asks of the view or of the simulation.
#[derive(Copy, Clone, Debug, PartialEq, Eq, Structural)]
pub enum Command {
    Tilt(Tilt),
    Pan(Pan),
    MoveX(MoveX),
    MoveZ(MoveZ),
    Zoom(Zoom),
    /// The trails of the bodies are to be cleared.
    ClearPaths,
    /// A body is to be added.
    AddBody,
}

/// The state of the controller.
#[derive(Copy, Clone, Debug, PartialEq, Eq, Structural)]
pub struct Controller {
    /// Whether the simulation advances.
    pub run_sim: bool,
    /// Whether the program goes on.
    pub run_app: bool,
    /// Whether trails are drawn.
    pub trails: bool,
}

/// What pressing a key asks of the view, if anything: the arrows tilt and
/// pan, W, S, A and D move the focus, Z and X zoom.
pub open spec fn pressed_command(key: Key) -> Option<Command> {
    match key {
        Key::Up => Some(Command::Tilt(Tilt::Up)),
        Key::Down => Some(Command::Tilt(Tilt::Down)),
        Key::Left => Some(Command::Pan(Pan::Left)),
        Key::Right => Some(Command::Pan(Pan::Right)),
        Key::W => Some(Command::MoveZ(MoveZ::Neg)),
        Key::S => Some(Command::MoveZ(MoveZ::Pos)),
        Key::A => Some(Command::MoveX(MoveX::Neg)),
        Key::D => Some(Command::MoveX(MoveX::Pos)),
        Key::Z => Some(Command::Zoom(Zoom::In)),
        Key::X => Some(Command::Zoom(Zoom::Out)),
        _ => None,
    }
}

/// What releasing a key asks of the simulation, if anything: C clears the
/// trails, R adds a body.
pub open spec fn released_command(key: Key) -> Option<Command> {
    match key {
        Key::C => Some(Command::ClearPaths),
        Key::R => Some(Command::AddBody),
        _ => None,
    }
}

/// What a change of a key's state asks for.
pub open spec fn command_for(key: Option<Key>, state: KeyState) -> Option<Command> {
    match (key, state) {
        (Some(k), KeyState::Pressed) => pressed_command(k),
        (Some(k), KeyState::Released) => released_command(k),
        (None, _) => None,
    }
}

impl Controller {
    /// The controller after a key changed its state: releasing Space starts
    /// or pauses the simulation, releasing P switches the trails.
    pub open spec fn after_key(self, key: Option<Key>, state: KeyState) -> Controller {
        if state == KeyState::Released && key == Some(Key::Space) {
            Controller { run_sim: !self.run_sim, ..self }
        } else if state == KeyState::Released && key == Some(Key::P) {
            Controller { trails: !self.trails, ..self }
        } else {
            self
        }
    }

    /// The controller after an event of the window: closing the window ends
    /// the program, the cursor changes nothing.
    pub open spec fn after_event(self, event: InputEvent) -> Controller {
        match event {
            InputEvent::Closed => Controller { run_app: false, ..self },
            InputEvent::Keyboard { key, state } => self.after_key(key, state),
            _ => self,
        }
    }

    /// What an event of the window asks of the view or of the simulation.
    pub open spec fn asked_by(event: InputEvent) -> Option<Command> {
        match event {
            InputEvent::Keyboard { key, state } => command_for(key, state),
            _ => None,
        }
    }

    /// A controller of a paused simulation in a running program, with
    /// trails.
    pub fn new() -> (controller: Self)
        ensures
            controller == (Controller { run_sim: false, run_app: true, trails: true }),
    {
        Controller { run_sim: false, run_app: true, trails: true }
    }

    /// Takes in one event of the window and says what it asks of the view or
    /// of the simulation.
    pub fn handle_event(&mut self, event: InputEvent) -> (command: Option<Command>)
        ensures
            *final(self) == old(self).after_event(event),
            command == Controller::asked_by(event),
    {
        match event {
            InputEvent::Closed => {
                self.run_app = false;
                None
            },
            InputEvent::Keyboard { key, state } => self.handle_key(key, state),
            _ => None,
        }
    }

    /// Takes in one change of a key's state and says what it asks of the view
    /// or of the simulation.
    pub fn handle_key(&mut self, key: Option<Key>, state: KeyState) -> (command: Option<Command>)
        ensures
            *final(self) == old(self).after_key(key, state),
            command == command_for(key, state),
    {
        let pressed: bool = match state {
            KeyState::Pressed => true,
            KeyState::Released => false,
        };
        match key {
            Some(Key::Up) => if pressed { Some(Command::Tilt(Tilt::Up)) } else { None },
            Some(Key::Down) => if pressed { Some(Command::Tilt(Tilt::Down)) } else { None },
            Some(Key::Left) => if pressed { Some(Command::Pan(Pan::Left)) } else { None },
            Some(Key::Right) => if pressed { Some(Command::Pan(Pan::Right)) } else { None },
            Some(Key::W) => if pressed { Some(Command::MoveZ(MoveZ::Neg)) } else { None },
            Some(Key::S) => if pressed { Some(Command::MoveZ(MoveZ::Pos)) } else { None },
            Some(Key::A) => if pressed { Some(Command::MoveX(MoveX::Neg)) } else { None },
            Some(Key::D) => if pressed { Some(Command::MoveX(MoveX::Pos)) } else { None },
            Some(Key::Z) => if pressed { Some(Command::Zoom(Zoom::In)) } else { None },
            Some(Key::X) => if pressed { Some(Command::Zoom(Zoom::Out)) } else { None },
            Some(Key::Space) => {
                if !pressed {
                    self.run_sim = !self.run_sim;
                }
                None
            },
            Some(Key::P) => {
                if !pressed {
                    self.trails = !self.trails;
                }
                None
            },
            Some(Key::C) => if pressed { None } else { Some(Command::ClearPaths) },
            Some(Key::R) => if pressed { None } else { Some(Command::AddBody) },
            _ => None,
        }
    }
}

} // verus!
