use guild_playback::error::PlaybackError;
use guild_playback::model::{IdlePolicy, Phase};
use guild_playback::registry::{Lookup, Registry};
use guild_playback::session::{Advance, GuildSession, PlaybackDecision};
use guild_playback::track::{title_or_default, TrackRequest};

fn track(title: &str) -> TrackRequest {
    TrackRequest::new(title, Some(title)).unwrap()
}

#[test]
fn track_request_needs_a_locator() {
    assert!(TrackRequest::new("", Some("Song")).is_none());
    assert!(TrackRequest::new("", None).is_none());
    let request = TrackRequest::new("https://youtu.be/x", Some("Song")).unwrap();
    assert_eq!(request.source_locator(), "https://youtu.be/x");
    assert_eq!(request.title(), "Song");
}

#[test]
fn track_request_defaults_its_title() {
    let request = TrackRequest::new("query", None).unwrap();
    assert_eq!(request.title(), "Unknown video");
    assert_eq!(title_or_default(None), "Unknown video");
    assert_eq!(title_or_default(Some("Known")), "Known");
    assert_eq!(title_or_default(Some("")), "");
}

#[test]
fn track_request_clone_is_equal() {
    let request = TrackRequest::new("query", Some("Title")).unwrap();
    let copy = request.clone();
    assert_eq!(copy, request);
    assert_eq!(copy.title(), "Title");
    assert_eq!(copy.source_locator(), "query");
}

#[test]
fn new_session_is_absent() {
    let session = GuildSession::new(3);
    assert_eq!(session.guild_id(), 3);
    assert_eq!(session.connection(), None);
    assert!(session.now_playing().is_none());
    assert_eq!(session.queue_len(), 0);
    assert!(session.queued(0).is_none());
    assert_eq!(session.phase(), Phase::Absent);
}

#[test]
fn session_holds_one_connection() {
    let mut session = GuildSession::new(3);
    assert!(session.join(11));
    assert_eq!(session.connection(), Some(11));
    assert_eq!(session.phase(), Phase::Idle);
    assert!(!session.join(12));
    assert_eq!(session.connection(), Some(11));
}

#[test]
fn submit_to_a_session_without_connection_is_session_gone() {
    let mut session = GuildSession::new(3);
    assert_eq!(session.submit(track("a")), Err(PlaybackError::SessionGone));
    assert!(session.now_playing().is_none());
    assert_eq!(session.queue_len(), 0);
    assert_eq!(session.phase(), Phase::Absent);
}

#[test]
fn submit_starts_then_queues_with_positions() {
    let mut session = GuildSession::new(3);
    session.join(11);
    assert_eq!(session.submit(track("a")), Ok(PlaybackDecision::PlayingNow("a".to_string())));
    assert_eq!(session.phase(), Phase::Playing);
    assert_eq!(session.submit(track("b")), Ok(PlaybackDecision::Queued("b".to_string(), 1)));
    assert_eq!(session.submit(track("c")), Ok(PlaybackDecision::Queued("c".to_string(), 2)));
    assert_eq!(session.submit(track("d")), Ok(PlaybackDecision::Queued("d".to_string(), 3)));
    assert_eq!(session.queue_len(), 3);
    assert_eq!(session.queued(0).unwrap().title(), "b");
    assert_eq!(session.queued(2).unwrap().title(), "d");
    assert!(session.queued(3).is_none());
    assert_eq!(session.now_playing().unwrap().title(), "a");
}

#[test]
fn end_track_walks_the_queue_and_then_lets_go() {
    let mut session = GuildSession::new(3);
    session.join(11);
    session.submit(track("a")).unwrap();
    session.submit(track("b")).unwrap();
    assert_eq!(session.end_track(IdlePolicy::QueueAware), Advance::Next(track("b")));
    assert_eq!(session.now_playing().unwrap().title(), "b");
    assert_eq!(session.queue_len(), 0);
    assert_eq!(session.end_track(IdlePolicy::QueueAware), Advance::Leave(11));
    assert_eq!(session.phase(), Phase::Absent);
    assert_eq!(session.connection(), None);
    assert!(session.now_playing().is_none());
    assert_eq!(session.end_track(IdlePolicy::QueueAware), Advance::Absent);
}

#[test]
fn end_track_on_an_idle_session_lets_go() {
    let mut session = GuildSession::new(3);
    session.join(11);
    assert_eq!(session.end_track(IdlePolicy::QueueAware), Advance::Leave(11));
    assert_eq!(session.phase(), Phase::Absent);
}

#[test]
fn disconnect_drops_everything() {
    let mut session = GuildSession::new(3);
    session.join(11);
    session.submit(track("a")).unwrap();
    session.submit(track("b")).unwrap();
    assert_eq!(session.disconnect(), Some(11));
    assert_eq!(session.connection(), None);
    assert!(session.now_playing().is_none());
    assert_eq!(session.queue_len(), 0);
    assert_eq!(session.disconnect(), None);
    assert_eq!(session.guild_id(), 3);
}

#[test]
fn registry_starts_empty() {
    let registry = Registry::new();
    assert_eq!(registry.len(), 0);
    assert!(registry.get(1).is_none());
    assert_eq!(registry.phase(1), Phase::Absent);
}

#[test]
fn get_or_create_is_idempotent() {
    let mut registry = Registry::new();
    assert_eq!(registry.get_or_create(1, Some(10)), Ok(Lookup::Created));
    assert_eq!(registry.phase(1), Phase::Idle);
    assert_eq!(registry.get_or_create(1, Some(20)), Ok(Lookup::Existing));
    assert_eq!(registry.len(), 1);
    let session = registry.get(1).unwrap();
    assert_eq!(session.connection(), Some(10));
    assert_eq!(session.guild_id(), 1);
    assert_eq!(session.queue_len(), 0);
}

#[test]
fn get_or_create_needs_a_voice_channel() {
    let mut registry = Registry::new();
    assert_eq!(registry.get_or_create(1, None), Err(PlaybackError::NotInVoiceChannel));
    assert_eq!(registry.len(), 0);
    registry.get_or_create(1, Some(10)).unwrap();
    assert_eq!(registry.get_or_create(1, None), Err(PlaybackError::NotInVoiceChannel));
    assert_eq!(registry.len(), 1);
}

#[test]
fn registry_remove_is_idempotent() {
    let mut registry = Registry::new();
    registry.get_or_create(1, Some(10)).unwrap();
    registry.get_or_create(2, Some(20)).unwrap();
    assert_eq!(registry.remove(1), Some(10));
    assert_eq!(registry.remove(1), None);
    assert_eq!(registry.len(), 1);
    assert_eq!(registry.get(2).unwrap().connection(), Some(20));
}

#[test]
fn registry_submit_without_session_is_session_gone() {
    let mut registry = Registry::new();
    assert_eq!(registry.submit(1, track("a")), Err(PlaybackError::SessionGone));
    assert_eq!(registry.len(), 0);
    registry.get_or_create(1, Some(10)).unwrap();
    registry.remove(1);
    assert_eq!(registry.submit(1, track("a")), Err(PlaybackError::SessionGone));
    assert!(registry.get(1).is_none());
}

#[test]
fn registry_submit_and_end_track() {
    let mut registry = Registry::new();
    registry.get_or_create(1, Some(10)).unwrap();
    assert_eq!(registry.submit(1, track("a")), Ok(PlaybackDecision::PlayingNow("a".to_string())));
    assert_eq!(registry.submit(1, track("b")), Ok(PlaybackDecision::Queued("b".to_string(), 1)));
    assert_eq!(registry.end_track(1, IdlePolicy::QueueAware), Advance::Next(track("b")));
    assert_eq!(registry.end_track(1, IdlePolicy::QueueAware), Advance::Leave(10));
    assert_eq!(registry.end_track(1, IdlePolicy::QueueAware), Advance::Absent);
    assert_eq!(registry.len(), 0);
}

#[test]
fn end_track_under_the_immediate_policy_drops_the_queue() {
    let mut session = GuildSession::new(3);
    session.join(11);
    session.submit(track("a")).unwrap();
    session.submit(track("b")).unwrap();
    assert_eq!(session.end_track(IdlePolicy::Immediate), Advance::Leave(11));
    assert_eq!(session.phase(), Phase::Absent);
    assert_eq!(session.queue_len(), 0);
    assert!(session.now_playing().is_none());
    assert_eq!(session.end_track(IdlePolicy::Immediate), Advance::Absent);
}

#[test]
fn registry_end_track_under_the_immediate_policy_removes_the_session() {
    let mut registry = Registry::new();
    registry.get_or_create(1, Some(10)).unwrap();
    registry.submit(1, track("a")).unwrap();
    registry.submit(1, track("b")).unwrap();
    assert_eq!(registry.end_track(1, IdlePolicy::Immediate), Advance::Leave(10));
    assert!(registry.get(1).is_none());
    assert_eq!(registry.end_track(1, IdlePolicy::Immediate), Advance::Absent);
}
