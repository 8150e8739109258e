//! Search endpoints: fuzzy show and people search, the single-result show
//! search, and lookup by an identifier from another database.
//!
//! Free-text queries are always percent-encoded before they are spliced
//! into a URL.

use vstd::prelude::*;

use crate::digits::dec_str;
use crate::digits::fmt_u64;
use crate::spec_embed_fragment;
use crate::urlenc::encode_str;
use crate::urlenc::percent_encode;
use crate::Embed;

verus! {

/// An identifier of a show in another database, each rendering to its own
/// query key.
#[derive(Clone, Copy, Debug, PartialEq, Eq, Structural)]
pub enum ExternId {
    TVRage(usize),
    TVDB(usize),
    IMDB(usize),
}

/// The lookup query a foreign identifier renders to.
pub open spec fn spec_extern_id_query(x: ExternId) -> Seq<char> {
    match x {
        ExternId::TVRage(i) => "tvrage="@ + dec_str(i as nat),
        ExternId::TVDB(i) => "thetvdb="@ + dec_str(i as nat),
        ExternId::IMDB(i) => "imdb=tt"@ + dec_str(i as nat),
    }
}

impl ExternId {
    /// Renders the query fragment, e.g. `thetvdb=296762` or `imdb=tt9140554`.
    pub fn query_fragment(&self) -> (r: String)
        ensures
            r@ == spec_extern_id_query(*self),
    {
        match self {
            ExternId::TVRage(i) => {
                let mut s = String::from_str("tvrage=");
                let n = fmt_u64(*i as u64);
                s.append(n.as_str());
                assert(s@ =~= spec_extern_id_query(*self));
                s
            },
            ExternId::TVDB(i) => {
                let mut s = String::from_str("thetvdb=");
                let n = fmt_u64(*i as u64);
                s.append(n.as_str());
                assert(s@ =~= spec_extern_id_query(*self));
                s
            },
            ExternId::IMDB(i) => {
                let mut s = String::from_str("imdb=tt");
                let n = fmt_u64(*i as u64);
                s.append(n.as_str());
                assert(s@ =~= spec_extern_id_query(*self));
                s
            },
        }
    }
}

pub open spec fn spec_show_search_url(q: Seq<char>) -> Seq<char> {
    "https://api.tvmaze.com/search/shows?q="@ + encode_str(q)
}

/// URL of the fuzzy show search for `query`.
pub fn show_search_url(query: &str) -> (r: String)
    ensures
        r@ == spec_show_search_url(query@),
{
    let mut url = String::from_str("https://api.tvmaze.com/search/shows?q=");
    let e = percent_encode(query);
    url.append(e.as_str());
    url
}

pub open spec fn spec_show_single_search_url(q: Seq<char>, e: Embed) -> Seq<char> {
    "https://api.tvmaze.com/singlesearch/shows?q="@ + encode_str(q) + (if spec_embed_fragment(
        e,
    ).len() > 0 {
        "&"@ + spec_embed_fragment(e)
    } else {
        Seq::<char>::empty()
    })
}

/// URL of the single-result show search: the encoded query, then the embed
/// tokens only when any option is enabled.
pub fn show_single_search_url(query: &str, embed: &Embed) -> (r: String)
    ensures
        r@ == spec_show_single_search_url(query@, *embed),
{
    let mut url = String::from_str("https://api.tvmaze.com/singlesearch/shows?q=");
    let e = percent_encode(query);
    url.append(e.as_str());
    let frag = embed.fragment();
    if frag.as_str().unicode_len() > 0 {
        url.append("&");
        url.append(frag.as_str());
    }
    assert(url@ =~= spec_show_single_search_url(query@, *embed));
    url
}

pub open spec fn spec_show_lookup_url(x: ExternId) -> Seq<char> {
    "https://api.tvmaze.com/lookup/shows?"@ + spec_extern_id_query(x)
}

/// URL of the lookup of a show by a foreign identifier.
pub fn show_lookup_url(extern_id: &ExternId) -> (r: String)
    ensures
        r@ == spec_show_lookup_url(*extern_id),
{
    let mut url = String::from_str("https://api.tvmaze.com/lookup/shows?");
    let q = extern_id.query_fragment();
    url.append(q.as_str());
    url
}

pub open spec fn spec_people_search_url(q: Seq<char>) -> Seq<char> {
    "https://api.tvmaze.com/search/people?q="@ + encode_str(q)
}

/// URL of the fuzzy people search for `query`.
pub fn people_search_url(query: &str) -> (r: String)
    ensures
        r@ == spec_people_search_url(query@),
{
    let mut url = String::from_str("https://api.tvmaze.com/search/people?q=");
    let e = percent_encode(query);
    url.append(e.as_str());
    url
}

} // verus!
