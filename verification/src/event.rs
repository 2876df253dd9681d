//! Pointer input as the widgets see it.

use vstd::prelude::*;

verus! {

/// One input event, with the pointer's position in screen pixels.
#[derive(Clone, Copy, Debug, PartialEq, Eq, Structural)]
pub enum PointerEvent {
    /// A button went down at `(x, y)`.
    Down { x: i32, y: i32 },
    /// The pointer moved to `(x, y)`.
    Move { x: i32, y: i32 },
    /// Any other event; no widget reacts to it.
    Other,
}

} // verus!
