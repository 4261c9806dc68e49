//! A daemon core that turns MIDI note-on messages into shell commands.
//!
//! A note number is named after its pitch class and octave, the name is
//! looked up in a keymap loaded from a TOML configuration, and the command
//! bound to it, if any, is handed back to the caller to run.

pub mod cli;
pub mod config;
pub mod daemon;
pub mod decimal;
pub mod document;
pub mod keymap;
pub mod midi;
