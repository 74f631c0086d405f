//! The command handlers: `play`, `stop`, `now_playing` and `hello`.
//!
//! Each handler takes what the caller has learned from the outside (the
//! user's voice channel, the resolver's answer, the stream's position), takes
//! the decision, changes the registry, and hands back what is to be said and
//! done. No failure goes past a handler: each comes back as a value whose
//! message is sent to the user.

use crate::error::PlaybackError;
use crate::locator::{kind_of, locator_kind};
use crate::message::{
    currently_playing, currently_playing_text, hello_text, nothing_playing, nothing_playing_text,
};
use crate::model::{
    after_get_or_create, after_play, after_stop, title_or_placeholder, RegistryView, TrackView,
};
use crate::registry::{Lookup, Registry};
use crate::session::PlaybackDecision;
use crate::track::TrackRequest;
use vstd::prelude::*;
use vstd::string::*;

verus! {

/// What the media resolver came back with for a locator.
#[derive(Debug, PartialEq, Eq)]
pub enum Fetch {
    /// A playable source, with the title that its metadata carries, if any.
    Resolved(Option<String>),
    /// No source could be fetched.
    Failed,
}

impl Fetch {
    /// The title that a resolved source carries.
    pub open spec fn title(self) -> Option<Seq<char>> {
        match self {
            Fetch::Resolved(Some(t)) => Some(t@),
            _ => None,
        }
    }
}

/// A `play` command that was taken up.
#[derive(Debug, PartialEq, Eq)]
pub struct Accepted {
    /// Whether the track starts at once or waits. A track that starts at once
    /// is to be started by the caller, with its listeners.
    pub decision: PlaybackDecision,
    /// The voice channel to join first, where the command made the session.
    pub join: Option<u64>,
}

/// The track that a `play` command for `query` submits, given the title that
/// the resolver found.
pub open spec fn requested_track(query: Seq<char>, title: Option<Seq<char>>) -> TrackView {
    TrackView { locator: query, title: title_or_placeholder(title) }
}

/// Why a `play` command is turned down, if it is: a source that could not be
/// fetched comes first, a user outside every voice channel second.
pub open spec fn play_rejection(
    query: Seq<char>,
    fetch: Fetch,
    voice_channel: Option<u64>,
) -> Option<PlaybackError> {
    if fetch is Failed || query.len() == 0 {
        Some(PlaybackError::SourceFetchFailed(kind_of(query)))
    } else if voice_channel is None {
        Some(PlaybackError::NotInVoiceChannel)
    } else {
        None
    }
}

/// Handles a `play` command in `guild_id`, by a user who is in
/// `voice_channel`, for the locator `query` that the resolver answered with
/// `fetch`.
///
/// A command that is turned down changes nothing. Otherwise the guild's
/// session is found or made and the track submitted to it.
pub fn play(
    registry: &mut Registry,
    guild_id: u64,
    voice_channel: Option<u64>,
    query: &str,
    fetch: Fetch,
) -> (r: Result<Accepted, PlaybackError>)
    requires
        old(registry).wf(),
    ensures
        final(registry).wf(),
        match r {
            Err(e) => {
                &&& play_rejection(query@, fetch, voice_channel) == Some(e)
                &&& final(registry)@ == old(registry)@
            },
            Ok(accepted) => {
                let track = requested_track(query@, fetch.title());
                &&& play_rejection(query@, fetch, voice_channel) is None
                &&& final(registry)@ == after_play(old(registry)@, guild_id, voice_channel, track)
                &&& accepted.decision@ == after_get_or_create(
                    old(registry)@,
                    guild_id,
                    voice_channel,
                )[guild_id].decision(track)
                &&& accepted.join == if old(registry)@.contains_key(guild_id) {
                    None
                } else {
                    voice_channel
                }
            },
        },
{
    let title = match &fetch {
        Fetch::Resolved(Some(t)) => Some(t.as_str()),
        Fetch::Resolved(None) => None,
        Fetch::Failed => {
            return Err(PlaybackError::SourceFetchFailed(locator_kind(query)));
        },
    };
    let track = match TrackRequest::new(query, title) {
        Some(track) => track,
        None => {
            return Err(PlaybackError::SourceFetchFailed(locator_kind(query)));
        },
    };
    let found = match registry.get_or_create(guild_id, voice_channel) {
        Ok(found) => found,
        Err(e) => {
            return Err(e);
        },
    };
    let join = match found {
        Lookup::Created => voice_channel,
        Lookup::Existing => None,
    };
    match registry.submit(guild_id, track) {
        Ok(decision) => Ok(Accepted { decision, join }),
        Err(e) => Err(e),
    }
}

/// Handles a `stop` command in `guild_id`: the guild's session is removed
/// whatever it holds, and the voice channel that is to be left is handed
/// back. Without a session the command does nothing.
pub fn stop(registry: &mut Registry, guild_id: u64) -> (channel: Option<u64>)
    requires
        old(registry).wf(),
    ensures
        final(registry).wf(),
        final(registry)@ == after_stop(old(registry)@, guild_id),
        channel is Some <==> old(registry)@.contains_key(guild_id),
        channel is Some ==> channel == old(registry)@[guild_id].connection,
{
    registry.remove(guild_id)
}

/// The answer to a `now_playing` command in guild `g`.
pub open spec fn now_playing_report(
    r: RegistryView,
    g: u64,
    elapsed: Option<u64>,
    total: Option<u64>,
) -> Seq<char> {
    if r.contains_key(g) && r[g].now_playing is Some {
        currently_playing_text(r[g].now_playing->0.title, elapsed, total)
    } else {
        nothing_playing_text()
    }
}

/// Handles a `now_playing` command in `guild_id`: names the current track and
/// how far into its length the stream is, as far as `elapsed` and `total`
/// (both in seconds) are known, or says that nothing is playing where the
/// guild has no session or no current track.
pub fn now_playing(
    registry: &Registry,
    guild_id: u64,
    elapsed: Option<u64>,
    total: Option<u64>,
) -> (s: String)
    ensures
        s@ == now_playing_report(registry@, guild_id, elapsed, total),
{
    match registry.get(guild_id) {
        Some(session) => match session.now_playing() {
            Some(track) => currently_playing(track.title(), elapsed, total),
            None => nothing_playing(),
        },
        None => nothing_playing(),
    }
}

/// Handles a `hello` command: greets the user called `name`.
pub fn hello(name: &str) -> (s: String)
    ensures
        s@ == hello_text(name@),
{
    let mut s = String::from_str("Hallo ");
    s.append(name);
    s
}

} // verus!
