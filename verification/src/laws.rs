//! Laws of the orchestrator, proved of the model that the executable
//! functions are specified by.

use crate::model::{
    after_play, after_stop, after_track_end, phase_of, registry_wf, IdlePolicy, Phase,
    RegistryView, SessionView, TrackView,
};
use vstd::prelude::*;

verus! {

/// Submitting a track to a connected session adds it at the end of the play
/// order and keeps the session connected and sound.
pub proof fn lemma_submit_extends_play_order(s: SessionView, track: TrackView)
    requires
        s.wf(),
        s.connection is Some,
        track.wf(),
    ensures
        s.submit(track).wf(),
        s.submit(track).connection == s.connection,
        s.submit(track).play_order() == s.play_order().push(track),
{
    assert(s.submit(track).play_order() =~= s.play_order().push(track));
}

/// Submitting tracks one after another to a connected session adds them to
/// the play order in the order of their submission.
pub proof fn lemma_submit_all_extends_play_order(s: SessionView, tracks: Seq<TrackView>)
    requires
        s.wf(),
        s.connection is Some,
        forall|i: int| 0 <= i < tracks.len() ==> (#[trigger] tracks[i]).wf(),
    ensures
        s.submit_all(tracks).wf(),
        s.submit_all(tracks).connection == s.connection,
        s.submit_all(tracks).play_order() == s.play_order() + tracks,
    decreases tracks.len(),
{
    if tracks.len() == 0 {
        assert(s.play_order() + tracks =~= s.play_order());
    } else {
        let front = tracks.drop_last();
        lemma_submit_all_extends_play_order(s, front);
        lemma_submit_extends_play_order(s.submit_all(front), tracks.last());
        assert((s.play_order() + front).push(tracks.last()) =~= s.play_order() + tracks);
    }
}

/// The current track of a sound session is the head of its play order, and
/// under the queue-aware policy the end of a track takes that head away.
pub proof fn lemma_end_track_drops_head(s: SessionView)
    requires
        s.wf(),
    ensures
        s.end_track(IdlePolicy::QueueAware).wf(),
        s.now_playing == if s.play_order().len() > 0 {
            Some(s.play_order()[0])
        } else {
            None
        },
        s.play_order().len() > 0 ==> s.end_track(IdlePolicy::QueueAware).play_order()
            == s.play_order().drop_first(),
        s.play_order().len() == 0 ==> s.end_track(IdlePolicy::QueueAware).play_order()
            == s.play_order(),
        s.play_order().len() <= 1 ==> s.end_track(IdlePolicy::QueueAware).phase() == Phase::Absent,
{
    let after = s.end_track(IdlePolicy::QueueAware);
    if s.play_order().len() > 0 {
        assert(after.play_order() =~= s.play_order().drop_first());
    } else {
        assert(after.play_order() =~= s.play_order());
    }
}

/// Under the queue-aware policy, after `n` tracks in a row have ended, the
/// first `n` tracks of the play order are gone and the rest is as it was.
pub proof fn lemma_end_tracks_skips(s: SessionView, n: nat)
    requires
        s.wf(),
        n <= s.play_order().len(),
    ensures
        s.end_tracks(n, IdlePolicy::QueueAware).wf(),
        s.end_tracks(n, IdlePolicy::QueueAware).play_order() == s.play_order().skip(n as int),
    decreases n,
{
    if n == 0 {
        assert(s.play_order().skip(0) =~= s.play_order());
    } else {
        let before = s.end_tracks((n - 1) as nat, IdlePolicy::QueueAware);
        lemma_end_tracks_skips(s, (n - 1) as nat);
        lemma_end_track_drops_head(before);
        assert(s.play_order().skip(n - 1).drop_first() =~= s.play_order().skip(n as int));
    }
}

/// First in, first out. Whatever tracks are submitted to an idle session, in
/// whatever number, they play in the order of their submission: the play
/// order is the sequence submitted; after each submission the current track
/// is the one submitted first, and no other; and, under the queue-aware
/// policy, once `i` tracks have ended, the current track is the one submitted
/// at place `i`. When the last of one or more tracks has ended, the session
/// has let go of its connection.
pub proof fn law_fifo_play_order(s: SessionView, tracks: Seq<TrackView>)
    requires
        s.wf(),
        s.phase() == Phase::Idle,
        forall|i: int| 0 <= i < tracks.len() ==> (#[trigger] tracks[i]).wf(),
    ensures
        s.submit_all(tracks).wf(),
        s.submit_all(tracks).play_order() == tracks,
        forall|k: int|
            0 < k <= tracks.len() ==> (#[trigger] s.submit_all(tracks.take(k))).now_playing
                == Some(tracks[0]),
        forall|i: nat|
            i < tracks.len() ==> (#[trigger] s.submit_all(tracks).end_tracks(
                i,
                IdlePolicy::QueueAware,
            )).now_playing == Some(tracks[i as int]),
        tracks.len() > 0 ==> s.submit_all(tracks).end_tracks(
            tracks.len(),
            IdlePolicy::QueueAware,
        ).phase() == Phase::Absent,
{
    let full = s.submit_all(tracks);
    lemma_submit_all_extends_play_order(s, tracks);
    assert(s.play_order() + tracks =~= tracks);
    assert forall|k: int| 0 < k <= tracks.len() implies (#[trigger] s.submit_all(
        tracks.take(k),
    )).now_playing == Some(tracks[0]) by {
        let prefix = tracks.take(k);
        lemma_submit_all_extends_play_order(s, prefix);
        assert(s.play_order() + prefix =~= prefix);
        lemma_end_track_drops_head(s.submit_all(prefix));
    }
    assert forall|i: nat| i < tracks.len() implies (#[trigger] full.end_tracks(
        i,
        IdlePolicy::QueueAware,
    )).now_playing == Some(tracks[i as int]) by {
        lemma_end_tracks_skips(full, i);
        lemma_end_track_drops_head(full.end_tracks(i, IdlePolicy::QueueAware));
    }
    if tracks.len() > 0 {
        let before = full.end_tracks((tracks.len() - 1) as nat, IdlePolicy::QueueAware);
        lemma_end_tracks_skips(full, (tracks.len() - 1) as nat);
        lemma_end_track_drops_head(before);
    }
}

/// Stopping is idempotent. After a `stop` the guild has no session, whatever
/// it had before, and a second `stop` changes nothing.
pub proof fn law_stop_is_idempotent(r: RegistryView, g: u64)
    ensures
        !after_stop(r, g).contains_key(g),
        phase_of(after_stop(r, g), g) == Phase::Absent,
        after_stop(after_stop(r, g), g) == after_stop(r, g),
        registry_wf(r) ==> registry_wf(after_stop(r, g)),
{
    assert(after_stop(after_stop(r, g), g) =~= after_stop(r, g));
}

/// A session is never left connected with nothing to play. After the end of
/// a track has been handled, under either policy, the guild's session either
/// has a current track and a connection, or is removed.
pub proof fn law_track_end_leaves_no_idle_session(r: RegistryView, g: u64, policy: IdlePolicy)
    requires
        registry_wf(r),
    ensures
        registry_wf(after_track_end(r, g, policy)),
        phase_of(after_track_end(r, g, policy), g) == Phase::Playing || phase_of(
            after_track_end(r, g, policy),
            g,
        ) == Phase::Absent,
        after_track_end(r, g, policy).contains_key(g) ==> {
            &&& after_track_end(r, g, policy)[g].now_playing is Some
            &&& after_track_end(r, g, policy)[g].connection is Some
        },
        after_track_end(r, g, policy).contains_key(g) <==> r.contains_key(g) && r[g].plays_on(
            policy,
        ),
        !after_track_end(r, g, IdlePolicy::Immediate).contains_key(g),
{
    if r.contains_key(g) && r[g].plays_on(policy) {
        lemma_end_track_drops_head(r[g]);
    }
}

/// The life cycle of a guild's session. A `play` command by a user in a voice
/// channel leaves the guild playing, whatever its phase was, and no `play`
/// command removes a session. The end of a track leaves the guild playing
/// where it plays on under the policy, and absent otherwise. A `stop`
/// command leaves the guild absent. No step leaves a guild idle.
pub proof fn law_life_cycle(
    r: RegistryView,
    g: u64,
    voice_channel: Option<u64>,
    track: TrackView,
    policy: IdlePolicy,
)
    requires
        registry_wf(r),
        track.wf(),
    ensures
        registry_wf(after_play(r, g, voice_channel, track)),
        voice_channel is Some ==> phase_of(after_play(r, g, voice_channel, track), g)
            == Phase::Playing,
        voice_channel is None ==> after_play(r, g, voice_channel, track) == r,
        r.contains_key(g) ==> after_play(r, g, voice_channel, track).contains_key(g),
        phase_of(after_track_end(r, g, policy), g) == if r.contains_key(g) && r[g].plays_on(
            policy,
        ) {
            Phase::Playing
        } else {
            Phase::Absent
        },
        phase_of(after_stop(r, g), g) == Phase::Absent,
{
    law_track_end_leaves_no_idle_session(r, g, policy);
}

/// Guilds are independent. A `play` command, a `stop` command or the end of
/// a track in one guild leaves the session of every other guild as it was.
pub proof fn law_guilds_are_independent(
    r: RegistryView,
    g: u64,
    h: u64,
    voice_channel: Option<u64>,
    track: TrackView,
    policy: IdlePolicy,
)
    requires
        g != h,
    ensures
        after_play(r, g, voice_channel, track).contains_key(h) == r.contains_key(h),
        after_stop(r, g).contains_key(h) == r.contains_key(h),
        after_track_end(r, g, policy).contains_key(h) == r.contains_key(h),
        r.contains_key(h) ==> {
            &&& after_play(r, g, voice_channel, track)[h] == r[h]
            &&& after_stop(r, g)[h] == r[h]
            &&& after_track_end(r, g, policy)[h] == r[h]
        },
{
}

/// Two `play` commands for one guild share one connection and one current
/// track. Whichever of the two is handled first, the second neither moves
/// the session to another voice channel nor replaces the current track: its
/// track waits at the tail of the queue. Where the guild had no session, the
/// connection is the first user's channel and the current track the first
/// user's track.
pub proof fn law_second_play_shares_the_session(
    r: RegistryView,
    g: u64,
    first_channel: u64,
    first_track: TrackView,
    second_channel: u64,
    second_track: TrackView,
)
    requires
        registry_wf(r),
        first_track.wf(),
        second_track.wf(),
    ensures
        ({
            let once = after_play(r, g, Some(first_channel), first_track);
            let twice = after_play(once, g, Some(second_channel), second_track);
            &&& registry_wf(once)
            &&& registry_wf(twice)
            &&& once.contains_key(g)
            &&& twice.contains_key(g)
            &&& once[g].connection is Some
            &&& once[g].now_playing is Some
            &&& twice[g].connection == once[g].connection
            &&& twice[g].now_playing == once[g].now_playing
            &&& twice[g].queue == once[g].queue.push(second_track)
            &&& !r.contains_key(g) ==> {
                &&& once[g].connection == Some(first_channel)
                &&& once[g].now_playing == Some(first_track)
                &&& twice[g].queue == seq![second_track]
            }
        }),
{
    let once = after_play(r, g, Some(first_channel), first_track);
    let twice = after_play(once, g, Some(second_channel), second_track);
    if !r.contains_key(g) {
        assert(twice[g].queue =~= seq![second_track]);
    }
}

} // verus!
