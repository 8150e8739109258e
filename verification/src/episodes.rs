//! The single-episode endpoint.

use vstd::prelude::*;

use crate::digits::dec_str;
use crate::urls::id_path;

verus! {

pub open spec fn spec_episode_url(id: usize) -> Seq<char> {
    "https://api.tvmaze.com/episodes/"@ + dec_str(id as nat)
}

/// URL of one episode by its id.
pub fn episode_url(id: usize) -> (r: String)
    ensures
        r@ == spec_episode_url(id),
{
    let url = id_path("https://api.tvmaze.com/episodes/", id, "");
    proof {
        reveal_strlit("");
    }
    assert(url@ =~= spec_episode_url(id));
    url
}

} // verus!
