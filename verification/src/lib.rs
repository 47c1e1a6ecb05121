//! A character-cell rendering and input backend for a text-based UI
//! framework, kept entirely in memory: an abstract color model mapped
//! to hex pixel colors, a fixed-size screen buffer with a current-color
//! register, and a non-blocking FIFO bridge for host keyboard events.

pub mod backend;
pub mod buffer;
pub mod color;
pub mod event;
pub mod theme;
