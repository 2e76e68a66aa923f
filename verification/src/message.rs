use vstd::prelude::*;

use crate::action::Action;

verus! {

/// Which way the keyboard focus moves along the cycle of actions.
#[derive(Debug, Copy, Clone, PartialEq, Eq, Structural)]
pub enum FocusDirection {
    Right,
    Left,
}

/// Everything the user interface can ask of the overlay.
#[derive(Debug, Copy, Clone, PartialEq, Eq, Structural)]
pub enum Message {
    /// Close the overlay without doing anything.
    Exit,
    /// Move the keyboard focus one step along the cycle.
    MoveFocus(FocusDirection),
    /// Run this action, whether or not it is focused.
    Action(Action),
    /// Run whichever action is focused right now.
    CurrentAction,
}

} // verus!
