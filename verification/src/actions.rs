//! The closed set of logical menu actions and the events a step can emit.

use vstd::prelude::*;

verus! {

/// A logical action a menu consumer can react to, decoupled from the
/// physical source that triggers it.
#[derive(Clone, Copy, Debug, PartialEq, Eq, Hash, Structural)]
pub enum MenuAction {
    Previous,
    Next,
    Click,
}

/// The kind of control an action represents. Every action in this engine is
/// momentary (button-like); there are no continuous or analog actions.
#[derive(Clone, Copy, Debug, PartialEq, Eq, Structural)]
pub enum InputControlKind {
    Button,
}

impl MenuAction {
    /// Every menu action is a momentary button.
    pub fn input_control_kind(&self) -> (kind: InputControlKind)
        ensures
            kind == InputControlKind::Button,
    {
        InputControlKind::Button
    }
}

/// An event emitted by the action stage of one step, in place of any direct
/// output side effect: the host decides what to do with it.
#[derive(Clone, Copy, Debug, PartialEq, Eq, Structural)]
pub enum MenuEvent {
    Previous,
    Next,
    Clicked,
}

} // verus!
