//! Core of a terminal typing-speed test.
//!
//! The target phrase is decomposed into per-character [`buffer::Cell`]s that
//! carry a match verdict and a cursor highlight; [`app::App`] owns the session
//! state machine (screen transitions, cursor movement, keystroke matching,
//! timer ticks and scoring); [`handler::handle_key_events`] maps key events to
//! state transitions and tells the caller which outside action to perform.
//! Rendering, terminal input and the timer task live outside this crate and
//! only read the state exposed here.

pub mod app;
pub mod handler;
pub mod laws;
pub mod buffer;
