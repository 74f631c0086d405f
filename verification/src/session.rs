//! A guild's voice session: one connection, one current track, and the queue
//! of tracks that wait behind it.

use crate::error::PlaybackError;
use crate::message::{decision_text, playing, queueing};
use crate::model::{DecisionView, IdlePolicy, Phase, SessionView};
use crate::track::{track_view_opt, track_views, TrackRequest};
use std::collections::VecDeque;
use vstd::prelude::*;
use vstd::string::*;

verus! {

/// What `submit` decided for a track.
#[derive(Debug, PartialEq, Eq)]
pub enum PlaybackDecision {
    /// The track starts at once; the text is its title.
    PlayingNow(String),
    /// The track waits in the queue, at the given position counted from one.
    Queued(String, usize),
}

impl View for PlaybackDecision {
    type V = DecisionView;

    open spec fn view(&self) -> DecisionView {
        match self {
            PlaybackDecision::PlayingNow(title) => DecisionView::PlayingNow(title@),
            PlaybackDecision::Queued(title, position) => DecisionView::Queued(
                title@,
                *position as nat,
            ),
        }
    }
}

impl PlaybackDecision {
    /// The answer that tells the user of the decision.
    pub fn message(&self) -> (s: String)
        ensures
            s@ == decision_text(self@),
    {
        match self {
            PlaybackDecision::PlayingNow(title) => playing(title.as_str()),
            PlaybackDecision::Queued(title, _) => queueing(title.as_str()),
        }
    }
}

/// What a session does once its current track is over.
#[derive(Debug, PartialEq, Eq)]
pub enum Advance {
    /// The head of the queue has become the current track and is to be
    /// started.
    Next(TrackRequest),
    /// Nothing goes on playing: the session has let go of its connection,
    /// and the voice channel named here is to be left.
    Leave(u64),
    /// The session had no connection: there is nothing to do.
    Absent,
}

/// The per-guild playback state.
///
/// The session owns its voice connection, which is named by the channel that
/// it leads to. At most one track is the current one, and a track waits in
/// the queue only while another is playing.
#[derive(Debug)]
pub struct GuildSession {
    guild_id: u64,
    connection: Option<u64>,
    queue: VecDeque<TrackRequest>,
    now_playing: Option<TrackRequest>,
}

impl View for GuildSession {
    type V = SessionView;

    closed spec fn view(&self) -> SessionView {
        SessionView {
            guild_id: self.guild_id,
            connection: self.connection,
            queue: track_views(self.queue@),
            now_playing: track_view_opt(self.now_playing),
        }
    }
}

impl GuildSession {
    /// Whether the session keeps its invariant.
    pub open spec fn wf(&self) -> bool {
        self@.wf()
    }

    /// A session for `guild_id` without connection, current track or queue.
    pub fn new(guild_id: u64) -> (s: GuildSession)
        ensures
            s@ == SessionView::disconnected(guild_id),
            s.wf(),
    {
        let s = GuildSession {
            guild_id,
            connection: None,
            queue: VecDeque::new(),
            now_playing: None,
        };
        assert(s@.queue =~= Seq::empty());
        s
    }

    /// The guild that the session belongs to.
    pub fn guild_id(&self) -> (g: u64)
        ensures
            g == self@.guild_id,
    {
        self.guild_id
    }

    /// The voice channel that the session is connected to, if any.
    pub fn connection(&self) -> (c: Option<u64>)
        ensures
            c == self@.connection,
    {
        self.connection
    }

    /// The track that is streaming, if any.
    pub fn now_playing(&self) -> (t: Option<&TrackRequest>)
        ensures
            t is Some <==> self@.now_playing is Some,
            t matches Some(track) ==> Some(track@) == self@.now_playing,
    {
        self.now_playing.as_ref()
    }

    /// The number of tracks that wait.
    pub fn queue_len(&self) -> (n: usize)
        ensures
            n == self@.queue.len(),
    {
        self.queue.len()
    }

    /// The waiting track at `index`, counted from the head of the queue.
    pub fn queued(&self, index: usize) -> (t: Option<&TrackRequest>)
        ensures
            t is Some <==> index < self@.queue.len(),
            t matches Some(track) ==> track@ == self@.queue[index as int],
    {
        if index < self.queue.len() {
            Some(&self.queue[index])
        } else {
            None
        }
    }

    /// The life-cycle phase of the session.
    pub fn phase(&self) -> (p: Phase)
        ensures
            p == self@.phase(),
    {
        if self.connection.is_none() {
            Phase::Absent
        } else if self.now_playing.is_none() {
            Phase::Idle
        } else {
            Phase::Playing
        }
    }

    /// Connects the session to `channel` unless it is connected already, and
    /// tells whether it did: a session never holds two connections.
    pub fn join(&mut self, channel: u64) -> (joined: bool)
        requires
            old(self).wf(),
        ensures
            final(self).wf(),
            final(self)@ == old(self)@.join(channel),
            joined == (old(self)@.connection is None),
    {
        if self.connection.is_some() {
            false
        } else {
            self.connection = Some(channel);
            true
        }
    }

    /// Submits a resolved track. On an idle session the track becomes the
    /// current one and is to be started by the caller, with its listeners; on
    /// a playing session it joins the tail of the queue. A session without
    /// connection is gone and takes no track.
    pub fn submit(&mut self, track: TrackRequest) -> (r: Result<PlaybackDecision, PlaybackError>)
        requires
            old(self).wf(),
            track@.wf(),
        ensures
            final(self).wf(),
            final(self)@ == old(self)@.submit(track@),
            r is Err <==> old(self)@.connection is None,
            r matches Err(e) ==> e == PlaybackError::SessionGone,
            r matches Ok(d) ==> d@ == old(self)@.decision(track@),
    {
        if self.connection.is_none() {
            return Err(PlaybackError::SessionGone);
        }
        let title = String::from_str(track.title());
        if self.queue.len() == 0 && self.now_playing.is_none() {
            self.now_playing = Some(track);
            assert(self@.queue =~= old(self)@.queue);
            Ok(PlaybackDecision::PlayingNow(title))
        } else {
            self.queue.push_back(track);
            assert(self@.queue =~= old(self)@.queue.push(track@));
            Ok(PlaybackDecision::Queued(title, self.queue.len()))
        }
    }

    /// Moves on after the current track is over. Where a track waits and
    /// `policy` lets it play, the head of the queue becomes the current track.
    /// Otherwise the session lets go of its connection, and of what it still
    /// holds, in the same step, so that it is never left connected and idle.
    pub fn end_track(&mut self, policy: IdlePolicy) -> (a: Advance)
        requires
            old(self).wf(),
        ensures
            final(self).wf(),
            final(self)@ == old(self)@.end_track(policy),
            match a {
                Advance::Next(track) => old(self)@.plays_on(policy) && track@ == old(
                    self,
                )@.queue[0],
                Advance::Leave(channel) => !old(self)@.plays_on(policy) && old(self)@.connection
                    == Some(channel),
                Advance::Absent => old(self)@.connection is None,
            },
    {
        if policy == IdlePolicy::QueueAware {
            match self.queue.pop_front() {
                Some(next) => {
                    let started = next.clone();
                    self.now_playing = Some(next);
                    assert(self@.queue =~= old(self)@.queue.drop_first());
                    assert(old(self)@.queue[0] == old(self).queue@[0]@);
                    return Advance::Next(started);
                },
                None => {},
            }
        }
        match self.disconnect() {
            Some(channel) => Advance::Leave(channel),
            None => Advance::Absent,
        }
    }

    /// Tears the session down whatever it holds, and hands back the voice
    /// channel that is to be left, if the session was connected.
    pub fn disconnect(&mut self) -> (c: Option<u64>)
        ensures
            final(self).wf(),
            final(self)@ == old(self)@.disconnect(),
            c == old(self)@.connection,
    {
        let connection = self.connection;
        self.connection = None;
        self.now_playing = None;
        self.queue.clear();
        assert(self@.queue =~= Seq::empty());
        connection
    }
}

} // verus!
