//! Confinement of the mouse cursor to a rectangle of the screen, as pure
//! decisions: what to ask of the pointer subsystem on each tick, what a
//! keystroke means, and how the two control flags move.

pub mod region;
pub mod cursor;
pub mod input;
pub mod control;
pub mod enforce;
pub mod text;
pub mod display;
pub mod session;
