//! Who steers with which keys, and what a player does during one frame.

use vstd::prelude::*;
use crate::geometry::Heading;

verus! {

/// The keys that the game binds.
#[derive(Clone, Copy, Debug, PartialEq, Eq, Structural)]
pub enum Key {
    W,
    A,
    S,
    D,
    Space,
    Up,
    Down,
    Left,
    Right,
    Enter,
}

/// The key bindings of one player.
#[derive(Clone, Copy, Debug, PartialEq, Eq, Structural)]
pub struct Controls {
    pub up: Key,
    pub down: Key,
    pub left: Key,
    pub right: Key,
    pub fire: Key,
}

impl Controls {
    /// W, A, S and D to drive, Space to fire.
    pub open spec fn wasd() -> Controls {
        Controls { up: Key::W, down: Key::S, left: Key::A, right: Key::D, fire: Key::Space }
    }

    /// The arrow keys to drive, Enter to fire.
    pub open spec fn arrows() -> Controls {
        Controls {
            up: Key::Up,
            down: Key::Down,
            left: Key::Left,
            right: Key::Right,
            fire: Key::Enter,
        }
    }

    /// The first player drives with W, A, S, D and fires with Space.
    pub fn first_player() -> (c: Controls)
        ensures
            c == Controls::wasd(),
    {
        Controls { up: Key::W, down: Key::S, left: Key::A, right: Key::D, fire: Key::Space }
    }

    /// The second player drives with the arrow keys and fires with Enter.
    pub fn second_player() -> (c: Controls)
        ensures
            c == Controls::arrows(),
    {
        Controls {
            up: Key::Up,
            down: Key::Down,
            left: Key::Left,
            right: Key::Right,
            fire: Key::Enter,
        }
    }
}

/// What one player does during one frame, read once as the frame begins.
///
/// `left`, `right`, `up` and `down` say whether the key is held. `fire` says
/// whether the fire key went down during this frame: holding it does not
/// fire again. `heading` is the direction the tank faces once this frame's
/// turn is made, that is, at the rotation [`crate::tank::vehicle::Tank::turned`]
/// gives for `left` and `right`.
#[derive(Clone, Copy, Debug, PartialEq, Eq, Structural)]
pub struct TankInput {
    pub left: bool,
    pub right: bool,
    pub up: bool,
    pub down: bool,
    pub fire: bool,
    pub heading: Heading,
}

impl TankInput {
    /// No key held, none pressed.
    pub open spec fn none() -> TankInput {
        TankInput {
            left: false,
            right: false,
            up: false,
            down: false,
            fire: false,
            heading: Heading { dx: 0, dy: 0 },
        }
    }

    /// The input of a player who touches nothing.
    pub fn idle() -> (input: TankInput)
        ensures
            input == TankInput::none(),
    {
        TankInput {
            left: false,
            right: false,
            up: false,
            down: false,
            fire: false,
            heading: Heading { dx: 0, dy: 0 },
        }
    }
}

} // verus!
