//! What a key press does to the host's counter.

use vstd::prelude::*;

verus! {

/// A key as the host sees it.
#[derive(Clone, Copy, Debug, PartialEq, Eq, Structural)]
pub enum Key {
    Left,
    Right,
    Char(char),
    Other,
}

/// What the host is to do after a key press.
#[derive(Clone, Copy, Debug, PartialEq, Eq, Structural)]
pub enum Action {
    /// Nothing more.
    Idle,
    /// Start the fire effect.
    Ignite,
}

/// The counter after a key press: left takes one off and right adds one,
/// without leaving the range of a byte.
pub open spec fn counter_after(counter: u8, key: Key) -> u8 {
    match key {
        Key::Left => if counter > 0 {
            (counter - 1) as u8
        } else {
            0
        },
        Key::Right => if counter < 255 {
            (counter + 1) as u8
        } else {
            255
        },
        _ => counter,
    }
}

/// The action that a key press asks for: `f` starts the fire effect.
pub open spec fn action_for(key: Key) -> Action {
    if key == Key::Char('f') {
        Action::Ignite
    } else {
        Action::Idle
    }
}

/// Handles a key press: gives the counter's new value and the action to
/// take.
pub fn handle_key(counter: u8, key: Key) -> (r: (u8, Action))
    ensures
        r.0 == counter_after(counter, key),
        r.1 == action_for(key),
{
    match key {
        Key::Left => (if counter > 0 { counter - 1 } else { 0 }, Action::Idle),
        Key::Right => (if counter < 255 { counter + 1 } else { 255 }, Action::Idle),
        Key::Char(c) => (counter, if c == 'f' { Action::Ignite } else { Action::Idle }),
        Key::Other => (counter, Action::Idle),
    }
}

} // verus!
