use guild_playback::commands::hello;
use guild_playback::locator::{locator_kind, LocatorKind};
use guild_playback::message::{
    currently_playing, finished_notice, nothing_playing, now_playing_notice, playing, queueing,
};
use guild_playback::text::{clock, push_clock, push_decimal, starts_with};

#[test]
fn clock_pads_the_seconds() {
    assert_eq!(clock(0), "0:00");
    assert_eq!(clock(5), "0:05");
    assert_eq!(clock(59), "0:59");
    assert_eq!(clock(60), "1:00");
    assert_eq!(clock(75), "1:15");
    assert_eq!(clock(187), "3:07");
    assert_eq!(clock(600), "10:00");
    assert_eq!(clock(3600), "60:00");
    assert_eq!(clock(u64::MAX), "307445734561825860:15");
}

#[test]
fn clock_agrees_with_std_formatting() {
    for secs in (0..5000u64).chain([86399, 86400, 1_000_000_007]) {
        assert_eq!(clock(secs), format!("{}:{:0>2}", secs / 60, secs % 60));
    }
}

#[test]
fn push_decimal_appends_the_numeral() {
    let mut out = String::from("n=");
    push_decimal(&mut out, 0);
    assert_eq!(out, "n=0");
    push_decimal(&mut out, 9);
    push_decimal(&mut out, 10);
    push_decimal(&mut out, 1234567890);
    assert_eq!(out, "n=09101234567890");
    let mut max = String::new();
    push_decimal(&mut max, u64::MAX);
    assert_eq!(max, "18446744073709551615");
}

#[test]
fn push_clock_appends() {
    let mut out = String::from("at ");
    push_clock(&mut out, 61);
    assert_eq!(out, "at 1:01");
}

#[test]
fn starts_with_tests_the_prefix() {
    assert!(starts_with("hello", ""));
    assert!(starts_with("", ""));
    assert!(starts_with("hello", "hello"));
    assert!(starts_with("hello", "he"));
    assert!(!starts_with("hello", "hello!"));
    assert!(!starts_with("hello", "hi"));
    assert!(!starts_with("", "a"));
    assert!(starts_with("héllo wörld", "héllo w"));
    assert!(!starts_with("héllo", "hello"));
}

#[test]
fn locator_kind_tells_urls_from_queries() {
    assert_eq!(locator_kind("https://youtu.be/x"), LocatorKind::Url);
    assert_eq!(locator_kind("https://youtube.com/watch?v=1"), LocatorKind::Url);
    assert_eq!(locator_kind("https://www.youtube.com/watch?v=1"), LocatorKind::Url);
    assert_eq!(locator_kind("https://youtu"), LocatorKind::Url);
    assert_eq!(locator_kind("https://www.youtu"), LocatorKind::Url);
    assert_eq!(locator_kind("https://yout"), LocatorKind::Search);
    assert_eq!(locator_kind("http://youtu.be/x"), LocatorKind::Search);
    assert_eq!(locator_kind("https://example.com/youtu"), LocatorKind::Search);
    assert_eq!(locator_kind(" https://youtu.be/x"), LocatorKind::Search);
    assert_eq!(locator_kind("song b query"), LocatorKind::Search);
    assert_eq!(locator_kind(""), LocatorKind::Search);
}

#[test]
fn messages_are_worded_exactly() {
    assert_eq!(playing("Song A"), "Playing **Song A**");
    assert_eq!(queueing("Song B"), "Queueing **Song B**");
    assert_eq!(now_playing_notice("Song B"), "Now playing **Song B**");
    assert_eq!(finished_notice("Song A"), "Finished playing **Song A**");
    assert_eq!(nothing_playing(), "Nothing is currently playing");
    assert_eq!(playing(""), "Playing ****");
    assert_eq!(
        currently_playing("T", Some(61), Some(122)),
        "Currently playing **T**\nProgress: 1:01 / 2:02"
    );
    assert_eq!(
        currently_playing("T", None, None),
        "Currently playing **T**\nProgress: ??:?? / ??:??"
    );
}

#[test]
fn hello_greets_by_name() {
    assert_eq!(hello("Ada"), "Hallo Ada");
    assert_eq!(hello(""), "Hallo ");
}
