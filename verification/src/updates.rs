//! Update feeds: the map from show or person id to the timestamp of its
//! last change.

use vstd::prelude::*;

verus! {

pub open spec fn spec_show_updates_url() -> Seq<char> {
    "https://api.tvmaze.com/updates/shows"@
}

/// URL of the show update feed.
pub fn show_updates_url() -> (r: String)
    ensures
        r@ == spec_show_updates_url(),
{
    String::from_str("https://api.tvmaze.com/updates/shows")
}

pub open spec fn spec_person_updates_url() -> Seq<char> {
    "https://api.tvmaze.com/updates/people"@
}

/// URL of the person update feed.
pub fn person_updates_url() -> (r: String)
    ensures
        r@ == spec_person_updates_url(),
{
    String::from_str("https://api.tvmaze.com/updates/people")
}

} // verus!
