//! Touch input values.
//!
//! A `Touch` is one input event: an identifier, a position, and a phase. The
//! position starts in screen coordinates and is rewritten in place into the
//! consuming node's local coordinates as the touch is dispatched.
use crate::geometry::Point;
use vstd::prelude::*;

verus! {

/// The phase of a touch, derived from a raw input-state transition by the
/// input collaborator before the touch reaches this core.
#[derive(Clone, Copy, Debug, PartialEq, Eq, Structural)]
pub enum TouchEvent {
    Began,
    Moved,
    Ended,
}

/// The raw state of a pointer button, as the input collaborator reports it.
#[derive(Clone, Copy, Debug, PartialEq, Eq, Structural)]
pub enum ButtonState {
    Pressed,
    Released,
}

/// Which pointer button an input report concerns. Dispatch does not read it.
#[derive(Clone, Copy, Debug, PartialEq, Eq, Structural)]
pub enum MouseButton {
    Left,
    Right,
    Middle,
}

impl TouchEvent {
    /// The phase a button transition stands for: a press begins a touch and
    /// a release ends one.
    pub fn from_state(state: ButtonState) -> (r: TouchEvent)
        ensures
            state == ButtonState::Pressed ==> r == TouchEvent::Began,
            state == ButtonState::Released ==> r == TouchEvent::Ended,
    {
        match state {
            ButtonState::Pressed => TouchEvent::Began,
            ButtonState::Released => TouchEvent::Ended,
        }
    }
}

/// One touch event. `position` is consumed positional state: dispatch
/// mutates it rather than rebuilding the touch per node.
#[derive(Clone, Copy, Debug, PartialEq, Eq, Structural)]
pub struct Touch {
    pub id: u64,
    pub position: Point,
    pub event: TouchEvent,
}

} // verus!
