//! A multi-line prompt renderer for character terminals.
//!
//! The renderer keeps an in-memory shadow of what is currently drawn on the
//! screen and, from the current text buffer and logical cursor, computes the
//! exact sequence of terminal operations that brings the screen up to date.
//! The host executes those operations against a real terminal; the logic that
//! decides what to draw, and the shadow-state bookkeeping, live here.

pub mod laws;
pub mod lazy;
pub mod ops;
pub mod renderer;
pub mod screen;
pub mod state;
