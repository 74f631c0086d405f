//! The playback listeners: what happens when the engine reports that a track
//! has started or ended, or how a step asked of it has gone.
//!
//! A listener keeps no session. Each event names its guild, and the session
//! is looked up in the registry when the event arrives, so that an event for
//! a session that was torn down meanwhile finds nothing and does nothing.

use crate::error::{error_text, ConnectionStep, PlaybackError};
use crate::message::{finished_notice, finished_text, now_playing_notice, now_playing_text};
use crate::model::{
    after_stop, after_track_end, text_view, title_or_placeholder, IdlePolicy, RegistryView,
};
use crate::registry::Registry;
use crate::session::Advance;
use crate::track::title_or_default;
use vstd::prelude::*;
use vstd::string::*;

verus! {

/// What follows from the end of a track.
#[derive(Debug, PartialEq, Eq)]
pub struct TrackEnd {
    /// The message for the session's text channel, if there is a session.
    pub notice: Option<String>,
    /// What the playback engine is to do next.
    pub advance: Advance,
}

/// Whether `advance` is what the engine is to do once the current track of
/// guild `g` is over, in registry `r` and under `policy`: start the head of
/// the queue, leave the session's voice channel, or nothing at all where the
/// guild has no session.
pub open spec fn advance_matches(
    advance: Advance,
    r: RegistryView,
    g: u64,
    policy: IdlePolicy,
) -> bool {
    match advance {
        Advance::Next(track) => {
            &&& r.contains_key(g)
            &&& r[g].plays_on(policy)
            &&& track@ == r[g].queue[0]
        },
        Advance::Leave(channel) => {
            &&& r.contains_key(g)
            &&& !r[g].plays_on(policy)
            &&& r[g].connection == Some(channel)
        },
        Advance::Absent => !r.contains_key(g),
    }
}

/// The engine reports that a track with the given title has started in
/// `guild_id`. Where the guild has a session, its text channel is told; the
/// session itself was brought up to date when the track was submitted.
pub fn on_track_start(registry: &Registry, guild_id: u64, title: Option<&str>) -> (notice: Option<
    String,
>)
    ensures
        notice is Some <==> registry@.contains_key(guild_id),
        notice matches Some(s) ==> s@ == now_playing_text(title_or_placeholder(text_view(title))),
{
    match registry.get(guild_id) {
        Some(_) => Some(now_playing_notice(title_or_default(title))),
        None => None,
    }
}

/// Moves guild `guild_id` on after its current track is over, with `notice`
/// as what is to be said about it.
fn advance_with(registry: &mut Registry, guild_id: u64, policy: IdlePolicy, notice: String) -> (end:
    TrackEnd)
    requires
        old(registry).wf(),
    ensures
        final(registry).wf(),
        final(registry)@ == after_track_end(old(registry)@, guild_id, policy),
        end.notice is Some <==> old(registry)@.contains_key(guild_id),
        end.notice matches Some(s) ==> s@ == notice@,
        advance_matches(end.advance, old(registry)@, guild_id, policy),
        final(registry)@.contains_key(guild_id) ==> {
            &&& final(registry)@[guild_id].now_playing is Some
            &&& final(registry)@[guild_id].connection is Some
        },
{
    let advance = registry.end_track(guild_id, policy);
    let notice = match advance {
        Advance::Absent => None,
        _ => Some(notice),
    };
    TrackEnd { notice, advance }
}

/// The engine reports that the track with the given title has ended in
/// `guild_id`.
///
/// Without a session nothing happens. Otherwise the text channel is told,
/// and in the same step the next track in the queue becomes the current one
/// and is to be started, with its listeners, or, where nothing goes on
/// playing under `policy`, the session is removed and its voice channel is to
/// be left. A session is thus never left connected with nothing to play.
pub fn on_track_end(
    registry: &mut Registry,
    guild_id: u64,
    title: Option<&str>,
    policy: IdlePolicy,
) -> (end: TrackEnd)
    requires
        old(registry).wf(),
    ensures
        final(registry).wf(),
        final(registry)@ == after_track_end(old(registry)@, guild_id, policy),
        end.notice is Some <==> old(registry)@.contains_key(guild_id),
        end.notice matches Some(s) ==> s@ == finished_text(title_or_placeholder(text_view(title))),
        advance_matches(end.advance, old(registry)@, guild_id, policy),
        final(registry)@.contains_key(guild_id) ==> {
            &&& final(registry)@[guild_id].now_playing is Some
            &&& final(registry)@[guild_id].connection is Some
        },
{
    advance_with(registry, guild_id, policy, finished_notice(title_or_default(title)))
}

/// The listeners could not be attached to the track that was just started
/// in `guild_id`. The track is aborted and the failure reported; the session
/// moves on as it does at the end of a track, so that no track is ever left
/// playing without a listener for its end.
pub fn on_listener_registration_failed(
    registry: &mut Registry,
    guild_id: u64,
    policy: IdlePolicy,
) -> (end: TrackEnd)
    requires
        old(registry).wf(),
    ensures
        final(registry).wf(),
        final(registry)@ == after_track_end(old(registry)@, guild_id, policy),
        end.notice is Some <==> old(registry)@.contains_key(guild_id),
        end.notice matches Some(s) ==> s@ == error_text(PlaybackError::ListenerRegistrationFailed),
        advance_matches(end.advance, old(registry)@, guild_id, policy),
        final(registry)@.contains_key(guild_id) ==> {
            &&& final(registry)@[guild_id].now_playing is Some
            &&& final(registry)@[guild_id].connection is Some
        },
{
    advance_with(registry, guild_id, policy, PlaybackError::ListenerRegistrationFailed.message())
}

/// The engine reports whether the voice channel of the session that was just
/// made for `guild_id` was joined. A session whose channel could not be
/// joined is removed, and the failure is handed back for the user to be told.
pub fn on_join_result(registry: &mut Registry, guild_id: u64, joined: bool) -> (failure: Option<
    PlaybackError,
>)
    requires
        old(registry).wf(),
    ensures
        final(registry).wf(),
        final(registry)@ == if joined {
            old(registry)@
        } else {
            after_stop(old(registry)@, guild_id)
        },
        failure == if joined {
            None
        } else {
            Some(PlaybackError::ConnectionFailed(ConnectionStep::Join))
        },
{
    if joined {
        None
    } else {
        registry.remove(guild_id);
        Some(PlaybackError::ConnectionFailed(ConnectionStep::Join))
    }
}

/// The engine reports whether a voice channel was left, after a `stop` or at
/// the end of the last track. A failure is handed back for the user to be
/// told; the session was removed before and stays so.
pub fn on_leave_result(left: bool) -> (failure: Option<PlaybackError>)
    ensures
        failure == if left {
            None
        } else {
            Some(PlaybackError::ConnectionFailed(ConnectionStep::Leave))
        },
{
    if left {
        None
    } else {
        Some(PlaybackError::ConnectionFailed(ConnectionStep::Leave))
    }
}

} // verus!
