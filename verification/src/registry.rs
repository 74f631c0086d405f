//! The session registry: for each guild at most one session, found by the
//! guild's identifier.

use crate::error::PlaybackError;
use crate::model::{
    after_get_or_create, after_stop, after_submit, after_track_end, phase_of, registry_wf,
    IdlePolicy, Phase, RegistryView, SessionView,
};
use crate::session::{Advance, GuildSession, PlaybackDecision};
use crate::track::TrackRequest;
use std::collections::HashMap;
use vstd::prelude::*;

verus! {

/// How `get_or_create` came by the session.
#[derive(Clone, Copy, Debug, PartialEq, Eq, Structural)]
pub enum Lookup {
    /// The guild had a session, which is kept as it is.
    Existing,
    /// A session was made for the guild, and the user's voice channel is to
    /// be joined.
    Created,
}

/// The table of sessions by guild.
///
/// The registry owns every session. Whoever needs one asks for it by guild
/// each time, so that nobody acts on a session that was removed meanwhile;
/// and since every change takes the registry by `&mut`, changes to one guild
/// never overlap.
#[derive(Debug)]
pub struct Registry {
    sessions: HashMap<u64, GuildSession>,
}

impl View for Registry {
    type V = RegistryView;

    closed spec fn view(&self) -> RegistryView {
        Map::new(|g: u64| self.sessions@.contains_key(g), |g: u64| self.sessions@[g]@)
    }
}

impl Registry {
    /// Whether the registry keeps its invariant.
    pub open spec fn wf(&self) -> bool {
        registry_wf(self@)
    }

    /// An empty registry.
    pub fn new() -> (r: Registry)
        ensures
            r@ == Map::<u64, SessionView>::empty(),
            r.wf(),
    {
        let r = Registry { sessions: HashMap::new() };
        assert(r@ =~= Map::<u64, SessionView>::empty());
        r
    }

    /// The number of guilds with a session.
    pub fn len(&self) -> (n: usize)
        ensures
            n == self@.len(),
    {
        assert(self@.dom() =~= self.sessions@.dom());
        self.sessions.len()
    }

    /// The session of `guild_id`, if it has one. Nothing is created.
    pub fn get(&self, guild_id: u64) -> (s: Option<&GuildSession>)
        ensures
            s is Some <==> self@.contains_key(guild_id),
            s matches Some(session) ==> session@ == self@[guild_id],
    {
        self.sessions.get(&guild_id)
    }

    /// The life-cycle phase of `guild_id`, which is `Absent` without a session.
    pub fn phase(&self, guild_id: u64) -> (p: Phase)
        ensures
            p == phase_of(self@, guild_id),
    {
        match self.sessions.get(&guild_id) {
            Some(session) => session.phase(),
            None => Phase::Absent,
        }
    }

    /// Finds the session of `guild_id` or makes one, for a user who is in
    /// `voice_channel`. A user in no voice channel is turned away and no
    /// session is made. An existing session is kept with its connection; a
    /// new one is connected to the user's channel, which the caller then
    /// joins.
    pub fn get_or_create(&mut self, guild_id: u64, voice_channel: Option<u64>) -> (r: Result<
        Lookup,
        PlaybackError,
    >)
        requires
            old(self).wf(),
        ensures
            final(self).wf(),
            final(self)@ == after_get_or_create(old(self)@, guild_id, voice_channel),
            r is Err <==> voice_channel is None,
            r matches Err(e) ==> e == PlaybackError::NotInVoiceChannel,
            r matches Ok(found) ==> found == if old(self)@.contains_key(guild_id) {
                Lookup::Existing
            } else {
                Lookup::Created
            },
    {
        let channel = match voice_channel {
            Some(channel) => channel,
            None => {
                return Err(PlaybackError::NotInVoiceChannel);
            },
        };
        if self.sessions.contains_key(&guild_id) {
            return Ok(Lookup::Existing);
        }
        let mut session = GuildSession::new(guild_id);
        session.join(channel);
        self.sessions.insert(guild_id, session);
        assert(self@ =~= old(self)@.insert(guild_id, session@));
        Ok(Lookup::Created)
    }

    /// Removes the session of `guild_id` whatever it holds, and hands back
    /// the voice channel that is to be left. Without a session nothing
    /// changes and nothing is handed back.
    pub fn remove(&mut self, guild_id: u64) -> (channel: Option<u64>)
        requires
            old(self).wf(),
        ensures
            final(self).wf(),
            final(self)@ == after_stop(old(self)@, guild_id),
            channel is Some <==> old(self)@.contains_key(guild_id),
            channel is Some ==> channel == old(self)@[guild_id].connection,
    {
        let removed = self.sessions.remove(&guild_id);
        assert(self@ =~= old(self)@.remove(guild_id));
        match removed {
            Some(session) => {
                assert(old(self)@.contains_key(guild_id));
                session.connection()
            },
            None => None,
        }
    }

    /// Submits a resolved track to the session of `guild_id`. A guild whose
    /// session is gone gets `SessionGone`, and no session is revived for it.
    pub fn submit(&mut self, guild_id: u64, track: TrackRequest) -> (r: Result<
        PlaybackDecision,
        PlaybackError,
    >)
        requires
            old(self).wf(),
            track@.wf(),
        ensures
            final(self).wf(),
            final(self)@ == after_submit(old(self)@, guild_id, track@),
            r is Err <==> !old(self)@.contains_key(guild_id),
            r matches Err(e) ==> e == PlaybackError::SessionGone,
            r matches Ok(d) ==> d@ == old(self)@[guild_id].decision(track@),
    {
        match self.sessions.remove(&guild_id) {
            Some(mut session) => {
                assert(old(self)@.contains_key(guild_id));
                let r = session.submit(track);
                self.sessions.insert(guild_id, session);
                assert(self@ =~= old(self)@.insert(guild_id, session@));
                r
            },
            None => {
                assert(self@ =~= old(self)@);
                Err(PlaybackError::SessionGone)
            },
        }
    }

    /// Moves the session of `guild_id` on after its current track is over.
    /// The next track in the queue becomes the current one; where nothing
    /// goes on playing under `policy`, the session is removed in the same
    /// step.
    pub fn end_track(&mut self, guild_id: u64, policy: IdlePolicy) -> (a: Advance)
        requires
            old(self).wf(),
        ensures
            final(self).wf(),
            final(self)@ == after_track_end(old(self)@, guild_id, policy),
            match a {
                Advance::Next(track) => {
                    &&& old(self)@.contains_key(guild_id)
                    &&& old(self)@[guild_id].plays_on(policy)
                    &&& track@ == old(self)@[guild_id].queue[0]
                },
                Advance::Leave(channel) => {
                    &&& old(self)@.contains_key(guild_id)
                    &&& !old(self)@[guild_id].plays_on(policy)
                    &&& old(self)@[guild_id].connection == Some(channel)
                },
                Advance::Absent => !old(self)@.contains_key(guild_id),
            },
    {
        match self.sessions.remove(&guild_id) {
            Some(mut session) => {
                assert(old(self)@.contains_key(guild_id));
                let a = session.end_track(policy);
                match a {
                    Advance::Next(_) => {
                        self.sessions.insert(guild_id, session);
                        assert(self@ =~= old(self)@.insert(guild_id, session@));
                    },
                    _ => {
                        assert(self@ =~= old(self)@.remove(guild_id));
                    },
                }
                a
            },
            None => {
                assert(self@ =~= old(self)@.remove(guild_id));
                Advance::Absent
            },
        }
    }
}

} // verus!
