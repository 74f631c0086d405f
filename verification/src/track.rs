//! Track requests: a playable source that was resolved for a `play` command.

use crate::model::{text_view, title_or_placeholder, TrackView};
use vstd::prelude::*;
use vstd::string::*;

verus! {

/// One playable audio item: where it came from and what to call it.
///
/// A request is made once the source is resolved, becomes the current track
/// of its session when its turn comes, and is dropped after it has ended.
#[derive(Debug, PartialEq, Eq)]
pub struct TrackRequest {
    source_locator: String,
    title: String,
}

impl View for TrackRequest {
    type V = TrackView;

    closed spec fn view(&self) -> TrackView {
        TrackView { locator: self.source_locator@, title: self.title@ }
    }
}

/// The title that a source reports, or the placeholder where it reports none.
pub fn title_or_default<'a>(title: Option<&'a str>) -> (t: &'a str)
    ensures
        t@ == title_or_placeholder(text_view(title)),
{
    match title {
        Some(t) => t,
        None => "Unknown video",
    }
}

impl TrackRequest {
    /// Makes the request for the source found under `source_locator`, labelled
    /// with the title that the resolver reported or, failing that, with the
    /// placeholder. An empty locator names no source and gives no request.
    pub fn new(source_locator: &str, title: Option<&str>) -> (r: Option<TrackRequest>)
        ensures
            r is Some <==> source_locator@.len() > 0,
            r matches Some(t) ==> t@ == (TrackView {
                locator: source_locator@,
                title: title_or_placeholder(text_view(title)),
            }),
    {
        if source_locator.is_empty() {
            return None;
        }
        Some(
            TrackRequest {
                source_locator: String::from_str(source_locator),
                title: String::from_str(title_or_default(title)),
            },
        )
    }

    /// The URL or search query that the track was resolved from.
    pub fn source_locator(&self) -> (s: &str)
        ensures
            s@ == self@.locator,
    {
        self.source_locator.as_str()
    }

    /// The label shown to users.
    pub fn title(&self) -> (s: &str)
        ensures
            s@ == self@.title,
    {
        self.title.as_str()
    }

}

impl Clone for TrackRequest {
    fn clone(&self) -> (r: TrackRequest)
        ensures
            r@ == self@,
    {
        TrackRequest { source_locator: self.source_locator.clone(), title: self.title.clone() }
    }
}

/// The views of the requests in `tracks`, in order.
pub open spec fn track_views(tracks: Seq<TrackRequest>) -> Seq<TrackView> {
    Seq::new(tracks.len(), |i: int| tracks[i]@)
}

/// The view of an optional request.
pub open spec fn track_view_opt(track: Option<TrackRequest>) -> Option<TrackView> {
    match track {
        Some(t) => Some(t@),
        None => None,
    }
}

} // verus!
