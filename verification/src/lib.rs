//! Core runtime of a desktop image viewer: wake-target scheduling for an
//! event loop, a window registry that routes window-system events, a lazy
//! two-state picture resource, and resolution of key chords to named actions.
//!
//! Everything that talks to the outside world (the OS event source, image
//! decoding, GPU uploads, process spawning) stays outside this crate's logic;
//! the functions here take the outcomes of that outside work as plain values
//! and make every decision about them.

pub mod application;
pub mod cmd_line;
pub mod input_handling;
pub mod picture_widget;
pub mod schedule;
pub mod text;
