//! Core state of a small tabbed chat client.
//!
//! The library models the client's state as plain values — an input buffer,
//! a list of chat messages, a list of tab identifiers and an optional active
//! tab — and proves how each user event changes that state and which effect
//! the surrounding shell must perform.

pub mod args;
pub mod chat;
pub mod icons;
pub mod twitch;
