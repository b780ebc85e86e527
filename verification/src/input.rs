use vstd::prelude::*;

verus! {

/// Facing direction of the player, set by the last accepted key press.
#[derive(Clone, Copy, PartialEq, Eq, Structural, Debug)]
pub enum Direction {
    Up,
    Down,
    Left,
    Right,
}

/// The set of directional keys pressed during one tick.  The host turns its
/// raw key names into these four flags; unrecognized names are dropped at
/// that edge and have no effect on the simulation.
#[derive(Clone, Copy, PartialEq, Eq, Structural, Debug)]
pub struct InputKeys {
    pub up: bool,
    pub down: bool,
    pub left: bool,
    pub right: bool,
}

impl InputKeys {
    /// The empty key set: no directional key pressed.
    pub fn none() -> (k: InputKeys)
        ensures
            k == (InputKeys { up: false, down: false, left: false, right: false }),
    {
        InputKeys { up: false, down: false, left: false, right: false }
    }
}

} // verus!
