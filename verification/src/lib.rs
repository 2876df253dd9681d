//! Widgets for a chess program: a board with two piece trays and a held
//! piece that follows the pointer, and a row of labelled checkboxes.
//!
//! The widgets work on whole pixels. They turn pointer events into
//! state changes and describe each frame as a list of drawing operations
//! for a backend to carry out.

pub mod board;
pub mod checkbox;
pub mod event;
pub mod geometry;
pub mod render;

pub use geometry::Rect;
