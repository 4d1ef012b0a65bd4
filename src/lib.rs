//! Per-guild playback sessions and their ordered track queues for a chat
//! music bot: positional queue edits, at most one voice session per guild,
//! and the decisions that drive connecting, playing and advancing.

pub mod error;
pub mod queue;
pub mod session;
pub mod youtube;
