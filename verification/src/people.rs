//! People endpoints: one person, their cast and crew credits, and the
//! paginated people index.

use vstd::prelude::*;

use crate::digits::dec_str;
use crate::urls::id_path;

verus! {

pub open spec fn spec_person_url(id: usize) -> Seq<char> {
    "https://api.tvmaze.com/people/"@ + dec_str(id as nat)
}

/// URL of one person by their id.
pub fn person_url(id: usize) -> (r: String)
    ensures
        r@ == spec_person_url(id),
{
    let url = id_path("https://api.tvmaze.com/people/", id, "");
    proof {
        reveal_strlit("");
    }
    assert(url@ =~= spec_person_url(id));
    url
}

pub open spec fn spec_person_cast_credits_url(id: usize) -> Seq<char> {
    "https://api.tvmaze.com/people/"@ + dec_str(id as nat) + "/castcredits"@
}

/// URL of the show-level cast credits of a person.
pub fn person_cast_credits_url(id: usize) -> (r: String)
    ensures
        r@ == spec_person_cast_credits_url(id),
{
    id_path("https://api.tvmaze.com/people/", id, "/castcredits")
}

pub open spec fn spec_person_crew_credits_url(id: usize) -> Seq<char> {
    "https://api.tvmaze.com/people/"@ + dec_str(id as nat) + "/crewcredits"@
}

/// URL of the show-level crew credits of a person.
pub fn person_crew_credits_url(id: usize) -> (r: String)
    ensures
        r@ == spec_person_crew_credits_url(id),
{
    id_path("https://api.tvmaze.com/people/", id, "/crewcredits")
}

pub open spec fn spec_person_index_url(page: usize) -> Seq<char> {
    "https://api.tvmaze.com/people?page="@ + dec_str(page as nat)
}

/// URL of one page of the people index.
pub fn person_index_url(page: usize) -> (r: String)
    ensures
        r@ == spec_person_index_url(page),
{
    let url = id_path("https://api.tvmaze.com/people?page=", page, "");
    proof {
        reveal_strlit("");
    }
    assert(url@ =~= spec_person_index_url(page));
    url
}

} // verus!
