//! The chat messages that the orchestrator words.

use crate::model::DecisionView;
use crate::text::{clock_text, push_clock};
use vstd::prelude::*;
use vstd::string::*;

verus! {

/// `title` between the marks that set it in bold.
pub open spec fn bold(title: Seq<char>) -> Seq<char> {
    "**"@ + title + "**"@
}

/// The answer to a `play` command whose track starts at once.
pub open spec fn playing_text(title: Seq<char>) -> Seq<char> {
    "Playing "@ + bold(title)
}

/// The answer to a `play` command whose track has to wait.
pub open spec fn queueing_text(title: Seq<char>) -> Seq<char> {
    "Queueing "@ + bold(title)
}

/// The notice that a track has started.
pub open spec fn now_playing_text(title: Seq<char>) -> Seq<char> {
    "Now playing "@ + bold(title)
}

/// The notice that a track has ended.
pub open spec fn finished_text(title: Seq<char>) -> Seq<char> {
    "Finished playing "@ + bold(title)
}

/// The answer when no track is streaming.
pub open spec fn nothing_playing_text() -> Seq<char> {
    "Nothing is currently playing"@
}

/// A clock reading, or the stand-in for one that is not known.
pub open spec fn clock_or_unknown(secs: Option<u64>) -> Seq<char> {
    match secs {
        Some(s) => clock_text(s as nat),
        None => "??:??"@,
    }
}

/// The report on the current track: its title, and how far into its length
/// the stream is.
pub open spec fn currently_playing_text(
    title: Seq<char>,
    elapsed: Option<u64>,
    total: Option<u64>,
) -> Seq<char> {
    "Currently playing "@ + bold(title) + "\nProgress: "@ + clock_or_unknown(elapsed) + " / "@
        + clock_or_unknown(total)
}

/// The greeting for the user called `name`.
pub open spec fn hello_text(name: Seq<char>) -> Seq<char> {
    "Hallo "@ + name
}

/// The answer that reports a decision on a submitted track.
pub open spec fn decision_text(decision: DecisionView) -> Seq<char> {
    match decision {
        DecisionView::PlayingNow(title) => playing_text(title),
        DecisionView::Queued(title, _) => queueing_text(title),
    }
}

/// Appends `title` in bold to `out`.
fn push_bold(out: &mut String, title: &str)
    ensures
        final(out)@ == old(out)@ + bold(title@),
{
    out.append("**");
    out.append(title);
    out.append("**");
    assert(out@ =~= old(out)@ + bold(title@));
}

/// `lead` followed by `title` in bold.
fn lead_and_bold(lead: &str, title: &str) -> (s: String)
    ensures
        s@ == lead@ + bold(title@),
{
    let mut s = String::from_str(lead);
    push_bold(&mut s, title);
    s
}

/// Words the answer to a `play` command whose track starts at once.
pub fn playing(title: &str) -> (s: String)
    ensures
        s@ == playing_text(title@),
{
    lead_and_bold("Playing ", title)
}

/// Words the answer to a `play` command whose track has to wait.
pub fn queueing(title: &str) -> (s: String)
    ensures
        s@ == queueing_text(title@),
{
    lead_and_bold("Queueing ", title)
}

/// Words the notice that a track has started.
pub fn now_playing_notice(title: &str) -> (s: String)
    ensures
        s@ == now_playing_text(title@),
{
    lead_and_bold("Now playing ", title)
}

/// Words the notice that a track has ended.
pub fn finished_notice(title: &str) -> (s: String)
    ensures
        s@ == finished_text(title@),
{
    lead_and_bold("Finished playing ", title)
}

/// Words the answer when no track is streaming.
pub fn nothing_playing() -> (s: String)
    ensures
        s@ == nothing_playing_text(),
{
    String::from_str("Nothing is currently playing")
}

/// Appends a clock reading, or the stand-in for an unknown one, to `out`.
fn push_clock_or_unknown(out: &mut String, secs: Option<u64>)
    ensures
        final(out)@ == old(out)@ + clock_or_unknown(secs),
{
    match secs {
        Some(s) => push_clock(out, s),
        None => out.append("??:??"),
    }
}

/// Words the report on the current track.
pub fn currently_playing(title: &str, elapsed: Option<u64>, total: Option<u64>) -> (s: String)
    ensures
        s@ == currently_playing_text(title@, elapsed, total),
{
    let mut s = lead_and_bold("Currently playing ", title);
    s.append("\nProgress: ");
    push_clock_or_unknown(&mut s, elapsed);
    s.append(" / ");
    push_clock_or_unknown(&mut s, total);
    assert(s@ =~= currently_playing_text(title@, elapsed, total));
    s
}

} // verus!
