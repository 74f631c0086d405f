use guild_playback::commands::{play, Fetch};
use guild_playback::error::{ConnectionStep, PlaybackError};
use guild_playback::events::{
    on_join_result, on_leave_result, on_listener_registration_failed, on_track_end,
    on_track_start,
};
use guild_playback::locator::LocatorKind;
use guild_playback::model::{IdlePolicy, Phase};
use guild_playback::registry::Registry;
use guild_playback::session::Advance;

fn with_tracks(titles: &[&str]) -> Registry {
    let mut registry = Registry::new();
    for title in titles {
        play(&mut registry, 1, Some(10), title, Fetch::Resolved(Some(title.to_string()))).unwrap();
    }
    registry
}

#[test]
fn track_start_without_session_says_nothing() {
    let registry = Registry::new();
    assert_eq!(on_track_start(&registry, 1, Some("Song A")), None);
}

#[test]
fn track_start_changes_nothing() {
    let registry = with_tracks(&["a", "b"]);
    assert_eq!(on_track_start(&registry, 1, Some("a")), Some("Now playing **a**".to_string()));
    let session = registry.get(1).unwrap();
    assert_eq!(session.now_playing().unwrap().title(), "a");
    assert_eq!(session.queue_len(), 1);
}

#[test]
fn track_end_without_session_is_a_no_op() {
    let mut registry = with_tracks(&["a"]);
    let end = on_track_end(&mut registry, 2, Some("stale"), IdlePolicy::QueueAware);
    assert_eq!(end.notice, None);
    assert_eq!(end.advance, Advance::Absent);
    assert_eq!(registry.len(), 1);
    assert_eq!(registry.phase(1), Phase::Playing);
}

#[test]
fn failed_listener_registration_aborts_the_track_and_moves_on() {
    let mut registry = with_tracks(&["a", "b"]);
    let end = on_listener_registration_failed(&mut registry, 1, IdlePolicy::QueueAware);
    assert_eq!(end.notice, Some("Internal error".to_string()));
    match end.advance {
        Advance::Next(track) => assert_eq!(track.title(), "b"),
        other => panic!("expected the next track, got {:?}", other),
    }
    let session = registry.get(1).unwrap();
    assert_eq!(session.now_playing().unwrap().title(), "b");
    assert_eq!(session.queue_len(), 0);
}

#[test]
fn failed_listener_registration_on_the_only_track_removes_the_session() {
    let mut registry = with_tracks(&["a"]);
    let end = on_listener_registration_failed(&mut registry, 1, IdlePolicy::QueueAware);
    assert_eq!(end.notice, Some("Internal error".to_string()));
    assert_eq!(end.advance, Advance::Leave(10));
    assert!(registry.get(1).is_none());
}

#[test]
fn failed_listener_registration_without_session_is_a_no_op() {
    let mut registry = Registry::new();
    let end = on_listener_registration_failed(&mut registry, 1, IdlePolicy::QueueAware);
    assert_eq!(end.notice, None);
    assert_eq!(end.advance, Advance::Absent);
}

#[test]
fn failed_join_removes_the_new_session() {
    let mut registry = with_tracks(&["a"]);
    let error = on_join_result(&mut registry, 1, false).unwrap();
    assert_eq!(error, PlaybackError::ConnectionFailed(ConnectionStep::Join));
    assert_eq!(error.message(), "Failed to join channel");
    assert!(registry.get(1).is_none());
    assert_eq!(registry.phase(1), Phase::Absent);
}

#[test]
fn successful_join_keeps_the_session() {
    let mut registry = with_tracks(&["a", "b"]);
    assert_eq!(on_join_result(&mut registry, 1, true), None);
    let session = registry.get(1).unwrap();
    assert_eq!(session.connection(), Some(10));
    assert_eq!(session.now_playing().unwrap().title(), "a");
    assert_eq!(session.queue_len(), 1);
}

#[test]
fn failed_leave_is_reported() {
    assert_eq!(on_leave_result(true), None);
    let error = on_leave_result(false).unwrap();
    assert_eq!(error, PlaybackError::ConnectionFailed(ConnectionStep::Leave));
    assert_eq!(error.message(), "Failed to leave channel");
}

#[test]
fn failed_listener_registration_under_the_immediate_policy_leaves() {
    let mut registry = with_tracks(&["a", "b"]);
    let end = on_listener_registration_failed(&mut registry, 1, IdlePolicy::Immediate);
    assert_eq!(end.notice, Some("Internal error".to_string()));
    assert_eq!(end.advance, Advance::Leave(10));
    assert!(registry.get(1).is_none());
}

#[test]
fn every_failure_has_its_message() {
    assert_eq!(
        PlaybackError::NotInVoiceChannel.message(),
        "You must be in a VC to use this command"
    );
    assert_eq!(PlaybackError::SessionGone.message(), "Not in a voice channel");
    assert_eq!(PlaybackError::SourceFetchFailed(LocatorKind::Url).message(), "Error fetching URL");
    assert_eq!(
        PlaybackError::SourceFetchFailed(LocatorKind::Search).message(),
        "Error getting video"
    );
    assert_eq!(
        PlaybackError::ConnectionFailed(ConnectionStep::Join).message(),
        "Failed to join channel"
    );
    assert_eq!(
        PlaybackError::ConnectionFailed(ConnectionStep::Leave).message(),
        "Failed to leave channel"
    );
    assert_eq!(PlaybackError::ListenerRegistrationFailed.message(), "Internal error");
}
