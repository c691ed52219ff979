//! The terminal interface of a music player: the volume indicator timer, the
//! mapping from key presses to player commands, the layout of the playback
//! panel, and the lifecycle of the terminal modes.
//!
//! The library decides and computes; it performs no input or output. A caller
//! reads the terminal, hands the library plain values, and carries out what the
//! library returns.

pub mod command;
pub mod environment;
pub mod glyph;
pub mod input;
pub mod layout;
pub mod render;
pub mod session;
pub mod terminal;
pub mod text;
pub mod timer;
