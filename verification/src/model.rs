//! The mathematical model of the orchestrator: tracks, sessions and the
//! registry as plain values, and every state transition as a function on them.
//!
//! The executable types are specified by their views into this model.

use vstd::prelude::*;

verus! {

/// A resolved track as a value.
pub struct TrackView {
    /// The URL or search query that the track was resolved from.
    pub locator: Seq<char>,
    /// The label shown to users.
    pub title: Seq<char>,
}

impl TrackView {
    /// A track request names its source: the locator is not empty.
    pub open spec fn wf(self) -> bool {
        self.locator.len() > 0
    }
}

/// The title given to a track whose source carries none.
pub open spec fn placeholder_title() -> Seq<char> {
    "Unknown video"@
}

/// The title of a track, given what its source reports.
pub open spec fn title_or_placeholder(title: Option<Seq<char>>) -> Seq<char> {
    match title {
        Some(t) => t,
        None => placeholder_title(),
    }
}

/// The view of an optional piece of text.
pub open spec fn text_view(text: Option<&str>) -> Option<Seq<char>> {
    match text {
        Some(s) => Some(s@),
        None => None,
    }
}

/// Where a guild's session stands in its life cycle.
#[derive(Clone, Copy, Debug, PartialEq, Eq, Structural)]
pub enum Phase {
    /// No voice connection: the session is gone.
    Absent,
    /// Connected, nothing playing and nothing queued.
    Idle,
    /// Connected and streaming a track.
    Playing,
}

/// When a session gives up its voice connection at the end of a track.
#[derive(Clone, Copy, Debug, PartialEq, Eq, Structural)]
pub enum IdlePolicy {
    /// Only when nothing waits in the queue. This is the default.
    QueueAware,
    /// At the end of any track, dropping whatever waits in the queue.
    Immediate,
}

impl Default for IdlePolicy {
    fn default() -> (policy: IdlePolicy)
        ensures
            policy == IdlePolicy::QueueAware,
    {
        IdlePolicy::QueueAware
    }
}

/// What `submit` decided for a track, as a value.
pub enum DecisionView {
    /// The track starts at once.
    PlayingNow(Seq<char>),
    /// The track waits; the number is its position in the queue, counted from one.
    Queued(Seq<char>, nat),
}

/// A guild's session as a value.
pub struct SessionView {
    /// The guild that the session belongs to.
    pub guild_id: u64,
    /// The voice channel that the session is connected to, if any.
    pub connection: Option<u64>,
    /// The tracks that wait, first in first out.
    pub queue: Seq<TrackView>,
    /// The track that is streaming, if any.
    pub now_playing: Option<TrackView>,
}

impl SessionView {
    /// Without a connection nothing plays, nothing waits while nothing plays,
    /// and every track held names its source.
    pub open spec fn wf(self) -> bool {
        &&& self.connection is None ==> self.now_playing is None
        &&& self.now_playing is None ==> self.queue.len() == 0
        &&& self.now_playing matches Some(t) ==> t.wf()
        &&& forall|i: int| 0 <= i < self.queue.len() ==> (#[trigger] self.queue[i]).wf()
    }

    /// The life-cycle phase of the session.
    pub open spec fn phase(self) -> Phase {
        if self.connection is None {
            Phase::Absent
        } else if self.now_playing is None {
            Phase::Idle
        } else {
            Phase::Playing
        }
    }

    /// A session without connection, current track or queue.
    pub open spec fn disconnected(guild_id: u64) -> SessionView {
        SessionView { guild_id, connection: None, queue: Seq::empty(), now_playing: None }
    }

    /// Joining `channel`: a session that is already connected stays where it is.
    pub open spec fn join(self, channel: u64) -> SessionView {
        if self.connection is Some {
            self
        } else {
            SessionView { connection: Some(channel), ..self }
        }
    }

    /// Whether a submitted track would start at once.
    pub open spec fn starts_at_once(self) -> bool {
        self.queue.len() == 0 && self.now_playing is None
    }

    /// The session after `track` is submitted: the track starts when the
    /// session is idle and waits at the tail of the queue otherwise. A session
    /// without connection takes no track.
    pub open spec fn submit(self, track: TrackView) -> SessionView {
        if self.connection is None {
            self
        } else if self.starts_at_once() {
            SessionView { now_playing: Some(track), ..self }
        } else {
            SessionView { queue: self.queue.push(track), ..self }
        }
    }

    /// The decision that `submit` reports for `track` on a connected session.
    pub open spec fn decision(self, track: TrackView) -> DecisionView {
        if self.starts_at_once() {
            DecisionView::PlayingNow(track.title)
        } else {
            DecisionView::Queued(track.title, self.queue.len() + 1)
        }
    }

    /// The session after an unconditional teardown.
    pub open spec fn disconnect(self) -> SessionView {
        SessionView::disconnected(self.guild_id)
    }

    /// Whether the session goes on playing after the end of its current
    /// track: something waits, and the policy lets it play.
    pub open spec fn plays_on(self, policy: IdlePolicy) -> bool {
        self.queue.len() > 0 && policy == IdlePolicy::QueueAware
    }

    /// The session after its current track has ended, under `policy`: where
    /// it plays on, the head of the queue becomes the current track;
    /// otherwise the session lets go of its connection and of all it holds.
    pub open spec fn end_track(self, policy: IdlePolicy) -> SessionView {
        if self.plays_on(policy) {
            SessionView {
                now_playing: Some(self.queue[0]),
                queue: self.queue.drop_first(),
                ..self
            }
        } else {
            self.disconnect()
        }
    }

    /// The tracks of the session in the order in which they play: the current
    /// track, then the queue from its head.
    pub open spec fn play_order(self) -> Seq<TrackView> {
        match self.now_playing {
            Some(t) => seq![t] + self.queue,
            None => self.queue,
        }
    }

    /// The session after each of `tracks` is submitted in turn.
    pub open spec fn submit_all(self, tracks: Seq<TrackView>) -> SessionView
        decreases tracks.len(),
    {
        if tracks.len() == 0 {
            self
        } else {
            self.submit_all(tracks.drop_last()).submit(tracks.last())
        }
    }

    /// The session after `n` tracks in a row have ended, under `policy`.
    pub open spec fn end_tracks(self, n: nat, policy: IdlePolicy) -> SessionView
        decreases n,
    {
        if n == 0 {
            self
        } else {
            self.end_tracks((n - 1) as nat, policy).end_track(policy)
        }
    }
}

/// The registry as a value: at most one session for each guild.
pub type RegistryView = Map<u64, SessionView>;

/// Every registered session is sound, connected, and filed under its own guild.
pub open spec fn registry_wf(r: RegistryView) -> bool {
    &&& r.dom().finite()
    &&& forall|g: u64| #[trigger]
        r.contains_key(g) ==> r[g].wf() && r[g].guild_id == g && r[g].connection is Some
}

/// The phase of guild `g` in registry `r`.
pub open spec fn phase_of(r: RegistryView, g: u64) -> Phase {
    if r.contains_key(g) {
        r[g].phase()
    } else {
        Phase::Absent
    }
}

/// The registry after a session is looked up or created for guild `g` by a
/// user in `voice_channel`: a user outside every voice channel changes
/// nothing, an existing session is kept as it is, and a new session is
/// connected to the user's channel.
pub open spec fn after_get_or_create(
    r: RegistryView,
    g: u64,
    voice_channel: Option<u64>,
) -> RegistryView {
    match voice_channel {
        None => r,
        Some(channel) => if r.contains_key(g) {
            r
        } else {
            r.insert(g, SessionView::disconnected(g).join(channel))
        },
    }
}

/// The registry after `track` is submitted to the session of guild `g`.
pub open spec fn after_submit(r: RegistryView, g: u64, track: TrackView) -> RegistryView {
    if r.contains_key(g) {
        r.insert(g, r[g].submit(track))
    } else {
        r
    }
}

/// The registry after the current track of guild `g` has ended: its session
/// moves on to the next track, or is removed where it gives up its
/// connection under `policy`.
pub open spec fn after_track_end(r: RegistryView, g: u64, policy: IdlePolicy) -> RegistryView {
    if r.contains_key(g) && r[g].plays_on(policy) {
        r.insert(g, r[g].end_track(policy))
    } else {
        r.remove(g)
    }
}

/// The registry after guild `g` is told to stop: its session is removed
/// whatever it holds.
pub open spec fn after_stop(r: RegistryView, g: u64) -> RegistryView {
    r.remove(g)
}

/// The registry after a `play` command in guild `g` by a user in
/// `voice_channel`, whose source resolved to `track`.
pub open spec fn after_play(
    r: RegistryView,
    g: u64,
    voice_channel: Option<u64>,
    track: TrackView,
) -> RegistryView {
    if voice_channel is Some {
        after_submit(after_get_or_create(r, g, voice_channel), g, track)
    } else {
        r
    }
}

} // verus!
