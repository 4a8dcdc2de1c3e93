//! The state of the controls of the viewer, and how key and window events
//! change it.
use vstd::prelude::*;

verus! {

/// Turning the view around the vertical axis.
#[derive(Copy, Clone, Debug, PartialEq, Eq, Structural)]
pub enum Pan {
    Right,
    Left,
}

/// Tilting the view.
#[derive(Copy, Clone, Debug, PartialEq, Eq, Structural)]
pub enum Tilt {
    Up,
    Down,
}

/// Moving the focus along the first axis.
#[derive(Copy, Clone, Debug, PartialEq, Eq, Structural)]
pub enum MoveX {
    Pos,
    Neg,
}

/// Moving the focus along the third axis.
#[derive(Copy, Clone, Debug, PartialEq, Eq, Structural)]
pub enum MoveZ {
    Pos,
    Neg,
}

/// Moving the view towards the focus or away from it.
#[derive(Copy, Clone, Debug, PartialEq, Eq, Structural)]
pub enum Zoom {
    In,
    Out,
}

/// The keys that the controls know.
#[derive(Copy, Clone, Debug, PartialEq, Eq, Structural)]
pub enum Key {
    Up,
    Down,
    Left,
    Right,
    W,
    S,
    A,
    D,
    Z,
    X,
    Space,
    P,
    C,
    R,
    Escape,
    LShift,
    LControl,
}

/// Whether a key went down or came up.
#[derive(Copy, Clone, Debug, PartialEq, Eq, Structural)]
pub enum KeyState {
    Pressed,
    Released,
}

/// What the window reports to the controls.
#[derive(Copy, Clone, Debug, PartialEq, Eq, Structural)]
pub enum InputEvent {
    /// The window was closed.
    Closed,
    /// A key changed its state; `key` is `None` for a key the controls do
    /// not know.
    Keyboard { key: Option<Key>, state: KeyState },
    /// The cursor entered the window.
    CursorEntered,
    /// The cursor left the window.
    CursorLeft,
    /// The cursor moved to the position `x`, `y` in the window, each a
    /// binary64 pattern.
    CursorMoved { x: u64, y: u64 },
}

/// Where the mouse was pressed: the two coordinates in the window, each a
/// binary64 pattern.
#[derive(Copy, Clone, Debug, PartialEq, Eq)]
pub struct MousePress {
    pub pos: (u64, u64),
}

/// The state of the controls.
#[derive(Copy, Clone, Debug, PartialEq, Eq)]
pub struct Input {
    /// The movement that is asked for while its key is held.
    pub move_x: Option<MoveX>,
    pub move_z: Option<MoveZ>,
    pub pan: Option<Pan>,
    pub tilt: Option<Tilt>,
    pub zoom: Option<Zoom>,
    /// Where the mouse was pressed, if a press is waiting to be acted on.
    pub mouse_press: Option<MousePress>,
    /// Where the cursor is, as two binary64 patterns.
    pub m_pos: (u64, u64),
    /// Whether the cursor is inside the window.
    pub m_in_window: bool,
    /// Whether the simulation runs.
    pub running: bool,
    /// Whether trails are drawn.
    pub trails: bool,
    /// Whether the trails are to be cleared.
    pub clear: bool,
    /// Whether a body is to be added.
    pub add: bool,
    /// Whether the program is to end.
    pub close: bool,
}

/// What holding a key asks for, or `None` once it is released.
pub open spec fn held<T>(state: KeyState, movement: T) -> Option<T> {
    match state {
        KeyState::Pressed => Some(movement),
        KeyState::Released => None,
    }
}

impl Input {
    /// The controls before any event: nothing held, the cursor at the
    /// origin and outside the window, the simulation paused, trails drawn.
    pub open spec fn initial() -> Input {
        Input {
            move_x: None,
            move_z: None,
            pan: None,
            tilt: None,
            zoom: None,
            mouse_press: None,
            m_pos: (0, 0),
            m_in_window: false,
            running: false,
            trails: true,
            clear: false,
            add: false,
            close: false,
        }
    }

    /// The controls after a key changed its state. The arrow keys tilt and
    /// pan, W, S, A and D move the focus, Z and X zoom, each for as long as
    /// the key is held. Releasing Space starts or pauses the simulation,
    /// releasing P switches the trails, releasing C asks for them to be
    /// cleared and releasing R asks for a new body. Any other key changes
    /// nothing.
    pub open spec fn after_key(self, key: Option<Key>, state: KeyState) -> Input {
        let released = state == KeyState::Released;
        match key {
            Some(Key::Up) => Input { tilt: held(state, Tilt::Up), ..self },
            Some(Key::Down) => Input { tilt: held(state, Tilt::Down), ..self },
            Some(Key::Left) => Input { pan: held(state, Pan::Left), ..self },
            Some(Key::Right) => Input { pan: held(state, Pan::Right), ..self },
            Some(Key::W) => Input { move_z: held(state, MoveZ::Neg), ..self },
            Some(Key::S) => Input { move_z: held(state, MoveZ::Pos), ..self },
            Some(Key::A) => Input { move_x: held(state, MoveX::Neg), ..self },
            Some(Key::D) => Input { move_x: held(state, MoveX::Pos), ..self },
            Some(Key::Z) => Input { zoom: held(state, Zoom::In), ..self },
            Some(Key::X) => Input { zoom: held(state, Zoom::Out), ..self },
            Some(Key::Space) => Input { running: self.running != released, ..self },
            Some(Key::P) => Input { trails: self.trails != released, ..self },
            Some(Key::C) => Input { clear: self.clear || released, ..self },
            Some(Key::R) => Input { add: self.add || released, ..self },
            _ => self,
        }
    }

    /// The controls after an event of the window.
    pub open spec fn after_event(self, event: InputEvent) -> Input {
        match event {
            InputEvent::Closed => Input { close: true, ..self },
            InputEvent::Keyboard { key, state } => self.after_key(key, state),
            InputEvent::CursorEntered => Input { m_in_window: true, ..self },
            InputEvent::CursorLeft => Input { m_in_window: false, ..self },
            InputEvent::CursorMoved { x, y } => Input { m_pos: (x, y), ..self },
        }
    }

    /// The controls after a sequence of events, taken in order.
    pub open spec fn after_events(self, events: Seq<InputEvent>) -> Input
        decreases events.len(),
    {
        if events.len() == 0 {
            self
        } else {
            self.after_events(events.drop_last()).after_event(events.last())
        }
    }

    /// The controls before any event.
    pub fn new() -> (input: Input)
        ensures
            input == Input::initial(),
    {
        Input {
            move_x: None,
            move_z: None,
            pan: None,
            tilt: None,
            zoom: None,
            mouse_press: None,
            m_pos: (0, 0),
            m_in_window: false,
            running: false,
            trails: true,
            clear: false,
            add: false,
            close: false,
        }
    }

    /// Takes in the events that the window has reported, in order.
    pub fn handle_events(&mut self, events: &Vec<InputEvent>)
        ensures
            *final(self) == old(self).after_events(events@),
    {
        let mut i: usize = 0;
        while i < events.len()
            invariant
                i <= events.len(),
                *self == old(self).after_events(events@.take(i as int)),
            decreases events.len() - i,
        {
            assert(events@.take(i + 1).drop_last() =~= events@.take(i as int));
            match events[i] {
                InputEvent::Closed => {
                    self.close = true;
                },
                InputEvent::Keyboard { key, state } => {
                    self.handle_key(key, state);
                },
                InputEvent::CursorEntered => {
                    self.m_in_window = true;
                },
                InputEvent::CursorLeft => {
                    self.m_in_window = false;
                },
                InputEvent::CursorMoved { x, y } => {
                    self.m_pos = (x, y);
                },
            }
            i += 1;
        }
        assert(events@.take(events.len() as int) =~= events@);
    }

    /// Takes in one change of a key's state.
    pub fn handle_key(&mut self, key: Option<Key>, state: KeyState)
        ensures
            *final(self) == old(self).after_key(key, state),
    {
        let released: bool = match state {
            KeyState::Pressed => false,
            KeyState::Released => true,
        };
        match key {
            Some(Key::Up) => {
                self.tilt = if released { None } else { Some(Tilt::Up) };
            },
            Some(Key::Down) => {
                self.tilt = if released { None } else { Some(Tilt::Down) };
            },
            Some(Key::Left) => {
                self.pan = if released { None } else { Some(Pan::Left) };
            },
            Some(Key::Right) => {
                self.pan = if released { None } else { Some(Pan::Right) };
            },
            Some(Key::W) => {
                self.move_z = if released { None } else { Some(MoveZ::Neg) };
            },
            Some(Key::S) => {
                self.move_z = if released { None } else { Some(MoveZ::Pos) };
            },
            Some(Key::A) => {
                self.move_x = if released { None } else { Some(MoveX::Neg) };
            },
            Some(Key::D) => {
                self.move_x = if released { None } else { Some(MoveX::Pos) };
            },
            Some(Key::Z) => {
                self.zoom = if released { None } else { Some(Zoom::In) };
            },
            Some(Key::X) => {
                self.zoom = if released { None } else { Some(Zoom::Out) };
            },
            Some(Key::Space) => {
                if released {
                    self.running = !self.running;
                }
            },
            Some(Key::P) => {
                if released {
                    self.trails = !self.trails;
                }
            },
            Some(Key::C) => {
                if released {
                    self.clear = true;
                }
            },
            Some(Key::R) => {
                if released {
                    self.add = true;
                }
            },
            _ => {},
        }
    }
}

} // verus!
