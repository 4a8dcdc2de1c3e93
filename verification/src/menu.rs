//! What the menus of the viewer hand to the program.
use vstd::prelude::*;

verus! {

/// A message of the menu that is open while the simulation runs.
#[derive(Copy, Clone, Debug, PartialEq, Eq, Structural)]
pub enum MenuMsg {
    ToggleRun,
    ToggleTrails,
    Clear,
    Close,
}

/// The system that the start menu offers to begin with.
#[derive(Copy, Clone, Debug, PartialEq, Eq, Structural)]
pub enum Template {
    Binary,
    Unary,
    Cloud,
}

} // verus!
