//! Routing of decoded input to the driving loop's actions.
//!
//! The loop that owns the controller receives [`InputEvent`]s and must
//! decide, for each, what to do: feed the motion controller, click, or shut
//! down. That decision is a pure function; performing the chosen action —
//! placing the pointer, pressing a button, stopping tasks — is the loop's
//! own business.

use vstd::prelude::*;

use crate::input::InputEvent;
use crate::motion::MotionEvent;

verus! {

/// What the driving loop does with one decoded input event.
#[derive(Debug, Clone, Copy, PartialEq, Eq, Structural)]
pub enum Action {
    /// Hand a command to the motion controller.
    Motion(MotionEvent),
    /// Press and release the primary button at the current position.
    Click,
    /// Shut the loop down.
    Quit,
}

/// The action an input event routes to: a move becomes a step, or a dash
/// when its dash flag is set; clicks and quits pass through.
pub open spec fn route_spec(event: InputEvent) -> Action {
    match event {
        InputEvent::Move { direction, dash } => if dash {
            Action::Motion(MotionEvent::Dash { direction })
        } else {
            Action::Motion(MotionEvent::Move { direction })
        },
        InputEvent::Click => Action::Click,
        InputEvent::Quit => Action::Quit,
    }
}

/// Routes one decoded input event.
pub fn route_input_event(event: InputEvent) -> (a: Action)
    ensures
        a == route_spec(event),
{
    match event {
        InputEvent::Move { direction, dash } => if dash {
            Action::Motion(MotionEvent::Dash { direction })
        } else {
            Action::Motion(MotionEvent::Move { direction })
        },
        InputEvent::Click => Action::Click,
        InputEvent::Quit => Action::Quit,
    }
}

} // verus!
