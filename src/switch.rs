//! States of the board switch.

use vstd::prelude::*;

verus! {

/// Position of the board switch.
#[derive(Debug, Clone, Copy, PartialEq, Eq, Structural)]
pub enum SwitchState {
    /// Not pressed.
    Released,
    Push,
    Left,
    Right,
}

/// What the switch reported.
#[derive(Debug, Clone, Copy, PartialEq, Eq, Structural)]
pub enum SwitchAction {
    Get,
    Push,
    Release,
    Left,
    Right,
}

/// A switch report: its state, and the action that led to it.
#[derive(Debug, Clone, Copy, PartialEq, Eq, Structural)]
pub struct SwitchResponse {
    pub state: SwitchState,
    pub action: SwitchAction,
}

/// The name of a state on the wire.
pub open spec fn state_name(s: SwitchState) -> Seq<char> {
    match s {
        SwitchState::Released => "none"@,
        SwitchState::Push => "push"@,
        SwitchState::Left => "left"@,
        SwitchState::Right => "right"@,
    }
}

impl SwitchState {
    /// The name of the state: `none`, `push`, `left` or `right`.
    pub fn to_string(&self) -> (r: String)
        ensures
            r@ == state_name(*self),
    {
        match self {
            SwitchState::Released => String::from_str("none"),
            SwitchState::Push => String::from_str("push"),
            SwitchState::Left => String::from_str("left"),
            SwitchState::Right => String::from_str("right"),
        }
    }
}

} // verus!
