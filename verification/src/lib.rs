//! Per-guild voice playback orchestration: a registry of guild sessions, each
//! with one voice connection, one current track and a FIFO queue, together
//! with the command handlers and playback listeners that drive them.
//!
//! The library holds the state and takes every decision; talking to the chat
//! platform and to the playback engine is left to the caller, which performs
//! the actions that the functions here hand back.

pub mod commands;
pub mod error;
pub mod events;
pub mod laws;
pub mod locator;
pub mod message;
pub mod model;
pub mod registry;
pub mod session;
pub mod text;
pub mod track;
