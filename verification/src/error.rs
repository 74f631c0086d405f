//! The ways in which a command or a playback event can fail.

use crate::locator::LocatorKind;
use vstd::prelude::*;
use vstd::string::*;

verus! {

/// The step of a voice connection that went wrong.
#[derive(Clone, Copy, Debug, PartialEq, Eq, Structural)]
pub enum ConnectionStep {
    /// Joining the voice channel.
    Join,
    /// Leaving the voice channel.
    Leave,
}

/// Why a command or a playback event failed. Each failure is reported to the
/// user as one chat message and goes no further.
#[derive(Clone, Copy, Debug, PartialEq, Eq, Structural)]
pub enum PlaybackError {
    /// The user who asked is in no voice channel of the guild.
    NotInVoiceChannel,
    /// The guild's session was torn down before the track could be submitted.
    SessionGone,
    /// The media resolver could not fetch the source; the kind says how the
    /// locator was read.
    SourceFetchFailed(LocatorKind),
    /// The voice channel could not be joined or left.
    ConnectionFailed(ConnectionStep),
    /// The playback listeners could not be attached to a track, which is
    /// therefore aborted.
    ListenerRegistrationFailed,
}

/// The chat message that reports `error`.
pub open spec fn error_text(error: PlaybackError) -> Seq<char> {
    match error {
        PlaybackError::NotInVoiceChannel => "You must be in a VC to use this command"@,
        PlaybackError::SessionGone => "Not in a voice channel"@,
        PlaybackError::SourceFetchFailed(LocatorKind::Url) => "Error fetching URL"@,
        PlaybackError::SourceFetchFailed(LocatorKind::Search) => "Error getting video"@,
        PlaybackError::ConnectionFailed(ConnectionStep::Join) => "Failed to join channel"@,
        PlaybackError::ConnectionFailed(ConnectionStep::Leave) => "Failed to leave channel"@,
        PlaybackError::ListenerRegistrationFailed => "Internal error"@,
    }
}

impl PlaybackError {
    /// The chat message that reports this failure.
    pub fn message(&self) -> (s: String)
        ensures
            s@ == error_text(*self),
    {
        let text = match self {
            PlaybackError::NotInVoiceChannel => "You must be in a VC to use this command",
            PlaybackError::SessionGone => "Not in a voice channel",
            PlaybackError::SourceFetchFailed(LocatorKind::Url) => "Error fetching URL",
            PlaybackError::SourceFetchFailed(LocatorKind::Search) => "Error getting video",
            PlaybackError::ConnectionFailed(ConnectionStep::Join) => "Failed to join channel",
            PlaybackError::ConnectionFailed(ConnectionStep::Leave) => "Failed to leave channel",
            PlaybackError::ListenerRegistrationFailed => "Internal error",
        };
        String::from_str(text)
    }
}

} // verus!
