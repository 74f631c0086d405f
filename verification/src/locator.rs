//! What a `play` command names: a direct URL or a free-text search query.

use crate::text::starts_with;
use vstd::prelude::*;
use vstd::string::*;

verus! {

/// How the media resolver is to read a locator.
#[derive(Clone, Copy, Debug, PartialEq, Eq, Structural)]
pub enum LocatorKind {
    /// A direct URL of the video site: fetched as it is.
    Url,
    /// Anything else: searched for, and the first hit fetched.
    Search,
}

/// Whether `query` is a direct URL of the video site.
pub open spec fn is_url(query: Seq<char>) -> bool {
    "https://youtu"@.is_prefix_of(query) || "https://www.youtu"@.is_prefix_of(query)
}

/// The kind of the locator `query`.
pub open spec fn kind_of(query: Seq<char>) -> LocatorKind {
    if is_url(query) {
        LocatorKind::Url
    } else {
        LocatorKind::Search
    }
}

/// Tells a direct URL from a search query, by the way the text begins.
pub fn locator_kind(query: &str) -> (kind: LocatorKind)
    ensures
        kind == kind_of(query@),
{
    if starts_with(query, "https://youtu") || starts_with(query, "https://www.youtu") {
        LocatorKind::Url
    } else {
        LocatorKind::Search
    }
}

} // verus!
