//! Core of a modal, terminal-resident text editor: the text buffer, the
//! mode state machine that interprets keys, the viewport, and the planner
//! that turns the current state into positioned terminal writes.

pub mod color;
pub mod config;
pub mod editor;
pub mod frame;
pub mod invariants;
pub mod key;
pub mod render;
pub mod state;
pub mod text;
