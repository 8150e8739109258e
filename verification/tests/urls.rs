//! URL construction: embed fragments, percent-encoding of free-text
//! queries, optional schedule filters, and the exact URL of every
//! endpoint shape.

use tvmaze::episodes::episode_url;
use tvmaze::people::person_cast_credits_url;
use tvmaze::people::person_crew_credits_url;
use tvmaze::people::person_index_url;
use tvmaze::people::person_url;
use tvmaze::schedule::full_schedule_url;
use tvmaze::schedule::schedule_url;
use tvmaze::schedule::web_schedule_url;
use tvmaze::search::people_search_url;
use tvmaze::search::show_lookup_url;
use tvmaze::search::show_search_url;
use tvmaze::search::show_single_search_url;
use tvmaze::search::ExternId;
use tvmaze::shows::episode_by_number_url;
use tvmaze::shows::episodes_by_date_url;
use tvmaze::shows::season_episodes_url;
use tvmaze::shows::show_akas_url;
use tvmaze::shows::show_alternate_lists_url;
use tvmaze::shows::show_cast_url;
use tvmaze::shows::show_crew_url;
use tvmaze::shows::show_episode_list_url;
use tvmaze::shows::show_images_url;
use tvmaze::shows::show_index_url;
use tvmaze::shows::show_seasons_url;
use tvmaze::shows::show_url;
use tvmaze::updates::person_updates_url;
use tvmaze::updates::show_updates_url;
use tvmaze::Embed;

fn full_embed() -> Embed {
    Embed { episodes: true, cast: true, next_episode: true }
}

#[test]
fn embed_fragment_skips_disabled_middle_flag() {
    let e = Embed { episodes: true, cast: false, next_episode: true };
    assert_eq!(e.fragment(), "embed[]=episodes&embed[]=nextepisode");
}

#[test]
fn embed_fragment_all_and_none() {
    assert_eq!(
        full_embed().fragment(),
        "embed[]=episodes&embed[]=cast&embed[]=nextepisode"
    );
    assert_eq!(Embed::default().fragment(), "");
}

#[test]
fn embed_fragment_single_flag_has_no_separator() {
    let e = Embed { episodes: false, cast: true, next_episode: false };
    assert_eq!(e.fragment(), "embed[]=cast");
}

#[test]
fn show_url_with_and_without_embeds() {
    assert_eq!(
        show_url(1371, &full_embed()),
        "https://api.tvmaze.com/shows/1371?embed[]=episodes&embed[]=cast&embed[]=nextepisode"
    );
    assert_eq!(
        show_url(1371, &Embed::default()),
        "https://api.tvmaze.com/shows/1371"
    );
}

#[test]
fn search_query_is_percent_encoded() {
    assert_eq!(
        show_search_url("Man Vs Bee"),
        "https://api.tvmaze.com/search/shows?q=Man%20Vs%20Bee"
    );
    assert_eq!(
        show_search_url("Q&A?=#"),
        "https://api.tvmaze.com/search/shows?q=Q%26A%3F%3D%23"
    );
    assert_eq!(
        show_search_url("Café"),
        "https://api.tvmaze.com/search/shows?q=Caf%C3%A9"
    );
    assert_eq!(
        people_search_url("Samuel L. Jackson"),
        "https://api.tvmaze.com/search/people?q=Samuel%20L.%20Jackson"
    );
}

#[test]
fn single_search_appends_embeds_only_when_enabled() {
    assert_eq!(
        show_single_search_url("Westworld", &Embed::default()),
        "https://api.tvmaze.com/singlesearch/shows?q=Westworld"
    );
    let e = Embed { episodes: true, cast: false, next_episode: false };
    assert_eq!(
        show_single_search_url("Westworld", &e),
        "https://api.tvmaze.com/singlesearch/shows?q=Westworld&embed[]=episodes"
    );
    assert_eq!(
        show_single_search_url("Man Vs Bee", &full_embed()),
        "https://api.tvmaze.com/singlesearch/shows?q=Man%20Vs%20Bee&embed[]=episodes&embed[]=cast&embed[]=nextepisode"
    );
}

#[test]
fn lookup_urls_render_each_extern_kind() {
    assert_eq!(
        show_lookup_url(&ExternId::TVDB(296762)),
        "https://api.tvmaze.com/lookup/shows?thetvdb=296762"
    );
    assert_eq!(
        show_lookup_url(&ExternId::TVRage(24493)),
        "https://api.tvmaze.com/lookup/shows?tvrage=24493"
    );
    assert_eq!(
        show_lookup_url(&ExternId::IMDB(475784)),
        "https://api.tvmaze.com/lookup/shows?imdb=tt475784"
    );
}

#[test]
fn schedule_urls_only_carry_given_filters() {
    assert_eq!(
        schedule_url(Some("US"), Some("2014-12-01")),
        "https://api.tvmaze.com/schedule?country=US&date=2014-12-01"
    );
    assert_eq!(
        schedule_url(None, Some("2014-12-01")),
        "https://api.tvmaze.com/schedule?date=2014-12-01"
    );
    assert_eq!(
        schedule_url(Some("US"), None),
        "https://api.tvmaze.com/schedule?country=US"
    );
    assert_eq!(schedule_url(None, None), "https://api.tvmaze.com/schedule");
    assert_eq!(
        web_schedule_url(Some(""), Some("2020-05-29")),
        "https://api.tvmaze.com/schedule/web?country=&date=2020-05-29"
    );
    assert_eq!(
        full_schedule_url(),
        "https://api.tvmaze.com/schedule/full"
    );
}

#[test]
fn show_child_urls() {
    assert_eq!(
        show_episode_list_url(204, true),
        "https://api.tvmaze.com/shows/204/episodes?specials=1"
    );
    assert_eq!(
        show_episode_list_url(204, false),
        "https://api.tvmaze.com/shows/204/episodes"
    );
    assert_eq!(
        show_alternate_lists_url(180),
        "https://api.tvmaze.com/shows/180/alternatelists"
    );
    assert_eq!(
        episode_by_number_url(433, 1, 18),
        "https://api.tvmaze.com/shows/433/episodebynumber?season=1&number=18"
    );
    assert_eq!(
        episodes_by_date_url(210, "2010-12-25"),
        "https://api.tvmaze.com/shows/210/episodesbydate?date=2010-12-25"
    );
    assert_eq!(
        show_seasons_url(1371),
        "https://api.tvmaze.com/shows/1371/seasons"
    );
    assert_eq!(
        season_episodes_url(10),
        "https://api.tvmaze.com/seasons/10/episodes"
    );
    assert_eq!(show_cast_url(1371), "https://api.tvmaze.com/shows/1371/cast");
    assert_eq!(show_crew_url(1371), "https://api.tvmaze.com/shows/1371/crew");
    assert_eq!(show_akas_url(1371), "https://api.tvmaze.com/shows/1371/akas");
    assert_eq!(
        show_images_url(1371),
        "https://api.tvmaze.com/shows/1371/images"
    );
    assert_eq!(show_index_url(0), "https://api.tvmaze.com/shows?page=0");
}

#[test]
fn people_and_update_urls() {
    assert_eq!(episode_url(1), "https://api.tvmaze.com/episodes/1");
    assert_eq!(person_url(1), "https://api.tvmaze.com/people/1");
    assert_eq!(
        person_cast_credits_url(1),
        "https://api.tvmaze.com/people/1/castcredits"
    );
    assert_eq!(
        person_crew_credits_url(1),
        "https://api.tvmaze.com/people/1/crewcredits"
    );
    assert_eq!(
        person_index_url(250),
        "https://api.tvmaze.com/people?page=250"
    );
    assert_eq!(show_updates_url(), "https://api.tvmaze.com/updates/shows");
    assert_eq!(
        person_updates_url(),
        "https://api.tvmaze.com/updates/people"
    );
}
