//! Input events as the controller reads them: which key, and whether it went
//! down or up.

use vstd::prelude::*;

verus! {

/// A physical key, by its position on the keyboard.
#[derive(Clone, Copy, Debug, PartialEq, Eq, Structural)]
pub enum Key {
    KeyW,
    KeyA,
    KeyS,
    KeyD,
    /// Any key that the controller has no use for.
    Other,
}

/// What happened to the key.
#[derive(Clone, Copy, Debug, PartialEq, Eq, Structural)]
pub enum KeyState {
    Pressed,
    Released,
}

/// An event delivered by the window.
#[derive(Clone, Copy, Debug, PartialEq, Eq, Structural)]
pub enum InputEvent {
    /// A key changed state.
    Keyboard { key: Key, state: KeyState },
    /// Anything else: pointer motion, resize, focus and so on.
    Other,
}

/// One of the four motions a key can ask for.
#[derive(Clone, Copy, Debug, PartialEq, Eq, Structural)]
pub enum Direction {
    Forward,
    Backward,
    Left,
    Right,
}

/// The motion bound to a key: W forward, S backward, A left, D right.
pub open spec fn bound_direction(key: Key) -> Option<Direction> {
    match key {
        Key::KeyW => Some(Direction::Forward),
        Key::KeyS => Some(Direction::Backward),
        Key::KeyA => Some(Direction::Left),
        Key::KeyD => Some(Direction::Right),
        Key::Other => None,
    }
}

/// The motion that an event speaks of and whether it now holds, if the
/// event is a change of a bound key.
pub open spec fn intent_of(event: InputEvent) -> Option<(Direction, bool)> {
    match event {
        InputEvent::Keyboard { key, state } => match bound_direction(key) {
            Some(direction) => Some((direction, state == KeyState::Pressed)),
            None => None,
        },
        InputEvent::Other => None,
    }
}

impl Key {
    /// The motion bound to this key, if any.
    pub fn direction(self) -> (r: Option<Direction>)
        ensures
            r == bound_direction(self),
    {
        match self {
            Key::KeyW => Some(Direction::Forward),
            Key::KeyS => Some(Direction::Backward),
            Key::KeyA => Some(Direction::Left),
            Key::KeyD => Some(Direction::Right),
            Key::Other => None,
        }
    }
}

impl InputEvent {
    /// The motion that this event switches, and to what.
    pub fn intent(&self) -> (r: Option<(Direction, bool)>)
        ensures
            r == intent_of(*self),
    {
        match self {
            InputEvent::Keyboard { key, state } => match key.direction() {
                Some(direction) => {
                    let held = match state {
                        KeyState::Pressed => true,
                        KeyState::Released => false,
                    };
                    Some((direction, held))
                },
                None => None,
            },
            InputEvent::Other => None,
        }
    }
}

} // verus!
