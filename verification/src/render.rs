//! Drawing operations: what a widget asks a backend to paint.
//!
//! A widget never paints. It returns a list of operations, and the order of
//! the list is the order of painting: a later operation covers an earlier
//! one.

use vstd::prelude::*;

verus! {

/// An opaque colour: red, green and blue, 8 bits each.
pub type Color = (u8, u8, u8);

/// The images a widget draws from.
#[derive(Clone, Copy, Debug, PartialEq, Eq, Structural)]
pub enum Sheet {
    /// The black pieces, side by side in one row.
    Black,
    /// The white pieces, side by side in one row.
    White,
    /// The single pointer icon.
    Pointer,
}

/// One drawing operation, in screen pixels.
#[derive(Clone, Copy, Debug, PartialEq, Eq)]
pub enum DrawOp<'a> {
    /// Fill the rectangle between the corners `(x1, y1)` and `(x2, y2)`.
    FilledRect { x1: i64, y1: i64, x2: i64, y2: i64, color: Color },
    /// Stroke the outline of a rectangle whose corners are rounded with the
    /// radii `rx` and `ry`.
    RoundedRect {
        x1: i64,
        y1: i64,
        x2: i64,
        y2: i64,
        rx: i64,
        ry: i64,
        color: Color,
        thickness: i64,
    },
    /// Fill a rectangle whose corners are rounded with the radii `rx` and `ry`.
    FilledRoundedRect { x1: i64, y1: i64, x2: i64, y2: i64, rx: i64, ry: i64, color: Color },
    /// Copy the part of `sheet` that starts at `(sx, sy)` and measures `sw` by
    /// `sh` to the screen at `(dx, dy)`, scaled to `dw` by `dh`.
    Bitmap {
        sheet: Sheet,
        sx: i64,
        sy: i64,
        sw: i64,
        sh: i64,
        dx: i64,
        dy: i64,
        dw: i64,
        dh: i64,
    },
    /// Write `text` with its left edge at `x` and its top at `y`.
    Text { color: Color, x: i64, y: i64, text: &'a str },
}

} // verus!
