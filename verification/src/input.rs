//! The keyboard intent that one tick of the simulation reads.

use vstd::prelude::*;

verus! {

/// What is known of one logical key during a tick.
#[derive(Clone, Copy, Debug, PartialEq, Eq, Structural)]
pub struct Key {
    /// The key is down.
    pub held: bool,
    /// The key went down since the last tick.
    pub just_pressed: bool,
    /// The key went up since the last tick.
    pub just_released: bool,
}

/// A snapshot of the three logical keys, taken once per tick.
#[derive(Clone, Copy, Debug, PartialEq, Eq, Structural)]
pub struct Controls {
    pub left: Key,
    pub right: Key,
    pub jump: Key,
}

impl Key {
    /// A key that is up and had no edge.
    pub fn idle() -> (k: Key)
        ensures
            k == (Key { held: false, just_pressed: false, just_released: false }),
    {
        Key { held: false, just_pressed: false, just_released: false }
    }

    /// A key that went down in this tick.
    pub fn pressed() -> (k: Key)
        ensures
            k == (Key { held: true, just_pressed: true, just_released: false }),
    {
        Key { held: true, just_pressed: true, just_released: false }
    }

    /// A key that has been down since an earlier tick.
    pub fn down() -> (k: Key)
        ensures
            k == (Key { held: true, just_pressed: false, just_released: false }),
    {
        Key { held: true, just_pressed: false, just_released: false }
    }

    /// A key that went up in this tick.
    pub fn released() -> (k: Key)
        ensures
            k == (Key { held: false, just_pressed: false, just_released: true }),
    {
        Key { held: false, just_pressed: false, just_released: true }
    }
}

impl Controls {
    /// No key is down and none had an edge.
    pub fn none() -> (c: Controls)
        ensures
            !c.left.held && !c.left.just_pressed && !c.left.just_released,
            c.right == c.left,
            c.jump == c.left,
    {
        Controls { left: Key::idle(), right: Key::idle(), jump: Key::idle() }
    }
}

} // verus!
