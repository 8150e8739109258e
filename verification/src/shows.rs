//! Show endpoints: the single show, its children (episodes, seasons, cast,
//! crew, AKAs, images, alternate lists), episode selection by number or
//! date, and the paginated show index.

use vstd::prelude::*;

use crate::digits::dec_str;
use crate::spec_embed_fragment;
use crate::urlenc::encode_str;
use crate::urlenc::percent_encode;
use crate::urls::id_path;
use crate::Embed;

verus! {

pub open spec fn spec_show_url(id: usize, e: Embed) -> Seq<char> {
    "https://api.tvmaze.com/shows/"@ + dec_str(id as nat) + (if spec_embed_fragment(e).len()
        > 0 {
        "?"@ + spec_embed_fragment(e)
    } else {
        Seq::<char>::empty()
    })
}

/// URL of one show, with the embed tokens only when any option is enabled.
pub fn show_url(id: usize, embed: &Embed) -> (r: String)
    ensures
        r@ == spec_show_url(id, *embed),
{
    let mut url = id_path("https://api.tvmaze.com/shows/", id, "");
    let frag = embed.fragment();
    if frag.as_str().unicode_len() > 0 {
        url.append("?");
        url.append(frag.as_str());
    }
    proof {
        reveal_strlit("");
    }
    assert(url@ =~= spec_show_url(id, *embed));
    url
}

pub open spec fn spec_show_episode_list_url(show: usize, specials: bool) -> Seq<char> {
    "https://api.tvmaze.com/shows/"@ + dec_str(show as nat) + "/episodes"@ + (if specials {
        "?specials=1"@
    } else {
        Seq::<char>::empty()
    })
}

/// URL of the complete episode list of a show, optionally with specials.
pub fn show_episode_list_url(show: usize, specials: bool) -> (r: String)
    ensures
        r@ == spec_show_episode_list_url(show, specials),
{
    let mut url = id_path("https://api.tvmaze.com/shows/", show, "/episodes");
    if specials {
        url.append("?specials=1");
    }
    assert(url@ =~= spec_show_episode_list_url(show, specials));
    url
}

pub open spec fn spec_show_alternate_lists_url(show: usize) -> Seq<char> {
    "https://api.tvmaze.com/shows/"@ + dec_str(show as nat) + "/alternatelists"@
}

/// URL of the alternate episode lists of a show.
pub fn show_alternate_lists_url(show: usize) -> (r: String)
    ensures
        r@ == spec_show_alternate_lists_url(show),
{
    id_path("https://api.tvmaze.com/shows/", show, "/alternatelists")
}

pub open spec fn spec_episode_by_number_url(show: usize, season: usize, episode: usize) -> Seq<
    char,
> {
    "https://api.tvmaze.com/shows/"@ + dec_str(show as nat) + "/episodebynumber?season="@
        + dec_str(season as nat) + "&number="@ + dec_str(episode as nat)
}

/// URL of one episode of a show, selected by season and episode number.
pub fn episode_by_number_url(show: usize, season: usize, episode: usize) -> (r: String)
    ensures
        r@ == spec_episode_by_number_url(show, season, episode),
{
    let mut url = id_path("https://api.tvmaze.com/shows/", show, "/episodebynumber?season=");
    let s = id_path("", season, "&number=");
    url.append(s.as_str());
    let e = id_path("", episode, "");
    url.append(e.as_str());
    proof {
        reveal_strlit("");
    }
    assert(url@ =~= spec_episode_by_number_url(show, season, episode));
    url
}

pub open spec fn spec_episodes_by_date_url(show: usize, date: Seq<char>) -> Seq<char> {
    "https://api.tvmaze.com/shows/"@ + dec_str(show as nat) + "/episodesbydate?date="@
        + encode_str(date)
}

/// URL of the episodes of a show that aired on a given date.
pub fn episodes_by_date_url(show: usize, date: &str) -> (r: String)
    ensures
        r@ == spec_episodes_by_date_url(show, date@),
{
    let mut url = id_path("https://api.tvmaze.com/shows/", show, "/episodesbydate?date=");
    let d = percent_encode(date);
    url.append(d.as_str());
    assert(url@ =~= spec_episodes_by_date_url(show, date@));
    url
}

pub open spec fn spec_show_seasons_url(show: usize) -> Seq<char> {
    "https://api.tvmaze.com/shows/"@ + dec_str(show as nat) + "/seasons"@
}

/// URL of the season list of a show.
pub fn show_seasons_url(show: usize) -> (r: String)
    ensures
        r@ == spec_show_seasons_url(show),
{
    id_path("https://api.tvmaze.com/shows/", show, "/seasons")
}

pub open spec fn spec_season_episodes_url(season: usize) -> Seq<char> {
    "https://api.tvmaze.com/seasons/"@ + dec_str(season as nat) + "/episodes"@
}

/// URL of the episode list of one season.
pub fn season_episodes_url(season: usize) -> (r: String)
    ensures
        r@ == spec_season_episodes_url(season),
{
    id_path("https://api.tvmaze.com/seasons/", season, "/episodes")
}

pub open spec fn spec_show_cast_url(show: usize) -> Seq<char> {
    "https://api.tvmaze.com/shows/"@ + dec_str(show as nat) + "/cast"@
}

/// URL of the main cast of a show.
pub fn show_cast_url(show: usize) -> (r: String)
    ensures
        r@ == spec_show_cast_url(show),
{
    id_path("https://api.tvmaze.com/shows/", show, "/cast")
}

pub open spec fn spec_show_crew_url(show: usize) -> Seq<char> {
    "https://api.tvmaze.com/shows/"@ + dec_str(show as nat) + "/crew"@
}

/// URL of the main crew of a show.
pub fn show_crew_url(show: usize) -> (r: String)
    ensures
        r@ == spec_show_crew_url(show),
{
    id_path("https://api.tvmaze.com/shows/", show, "/crew")
}

pub open spec fn spec_show_akas_url(show: usize) -> Seq<char> {
    "https://api.tvmaze.com/shows/"@ + dec_str(show as nat) + "/akas"@
}

/// URL of the alternative names of a show.
pub fn show_akas_url(show: usize) -> (r: String)
    ensures
        r@ == spec_show_akas_url(show),
{
    id_path("https://api.tvmaze.com/shows/", show, "/akas")
}

pub open spec fn spec_show_images_url(show: usize) -> Seq<char> {
    "https://api.tvmaze.com/shows/"@ + dec_str(show as nat) + "/images"@
}

/// URL of the images of a show.
pub fn show_images_url(show: usize) -> (r: String)
    ensures
        r@ == spec_show_images_url(show),
{
    id_path("https://api.tvmaze.com/shows/", show, "/images")
}

pub open spec fn spec_show_index_url(page: usize) -> Seq<char> {
    "https://api.tvmaze.com/shows?page="@ + dec_str(page as nat)
}

/// URL of one page of the show index.
pub fn show_index_url(page: usize) -> (r: String)
    ensures
        r@ == spec_show_index_url(page),
{
    let url = id_path("https://api.tvmaze.com/shows?page=", page, "");
    proof {
        reveal_strlit("");
    }
    assert(url@ =~= spec_show_index_url(page));
    url
}

} // verus!
