use vstd::prelude::*;

verus! {

/// Why a command against a guild's session could not be carried out.
/// Every variant leaves the session state as it was.
#[derive(Debug, Clone, Copy, PartialEq, Eq, Structural)]
pub enum CommandError {
    /// The caller of a play command is not in a voice channel.
    NoVoiceChannel,
    /// The guild has no connected session.
    NoSession,
    /// A position lies outside the queue.
    IndexOutOfRange,
    /// The queue is empty, so there is nothing to skip.
    NothingPlaying,
    /// A reordering touched the now-playing slot.
    NowPlayingLocked,
    /// The queue already holds as many tracks as a `usize` counts.
    QueueFull,
}

} // verus!
