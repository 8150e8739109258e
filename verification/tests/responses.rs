//! Response classification and decoding, driven by canned status/body
//! pairs shaped like the service's real payloads.

use std::collections::HashMap;

use tvmaze::classify::classify;
use tvmaze::classify::classify_list;
use tvmaze::classify::decode_list;
use tvmaze::classify::decode_updates;
use tvmaze::models::episodes::Episode;
use tvmaze::models::people::Person;
use tvmaze::models::search::SearchResult;
use tvmaze::models::shows::Show;
use tvmaze::DecodeError;

fn westworld_body() -> String {
    r#"{
        "id": 1371,
        "url": "https://www.tvmaze.com/shows/1371/westworld",
        "name": "Westworld",
        "type": "Scripted",
        "language": "English",
        "genres": ["Drama", "Science-Fiction", "Western"],
        "status": "Ended",
        "runtime": 60,
        "averageRuntime": 68,
        "premiered": "2016-10-02",
        "ended": "2022-08-14",
        "officialSite": "http://www.hbo.com/westworld",
        "schedule": {"time": "21:00", "days": ["Sunday"]},
        "rating": {"average": 8.2},
        "weight": 98,
        "network": {
            "id": 8,
            "name": "HBO",
            "country": {"name": "United States", "code": "US", "timezone": "America/New_York"},
            "officialSite": null
        },
        "webChannel": null,
        "dvdCountry": null,
        "externals": {"tvrage": 37537, "thetvdb": 296762, "imdb": "tt0475784"},
        "image": null,
        "summary": "<p>A dark odyssey.</p>",
        "updated": 1668167158,
        "_links": {"self": {"href": "https://api.tvmaze.com/shows/1371"}},
        "_embedded": {"episodes": [
            {
                "id": 869671, "url": "u1", "name": "The Original",
                "season": 1, "number": 1, "type": "regular",
                "airdate": "2016-10-02", "airtime": "21:00",
                "airstamp": "2016-10-03T01:00:00+00:00", "runtime": 68,
                "rating": {"average": 8.0}, "image": null, "summary": null, "_links": {}
            },
            {
                "id": 869672, "url": "u2", "name": "Chestnut",
                "season": 1, "number": 2, "type": "regular",
                "airdate": "2016-10-09", "airtime": "21:00",
                "airstamp": "2016-10-10T01:00:00+00:00", "runtime": 60,
                "rating": {"average": 7.9}, "image": null, "summary": null, "_links": {}
            }
        ]}
    }"#
    .to_string()
}

fn pilot_body() -> String {
    r#"{
        "id": 1,
        "url": "https://www.tvmaze.com/episodes/1/under-the-dome-1x01-pilot",
        "name": "Pilot",
        "season": 1,
        "number": 1,
        "type": "regular",
        "airdate": "2013-06-24",
        "airtime": "22:00",
        "airstamp": "2013-06-25T02:00:00+00:00",
        "runtime": 60,
        "rating": {"average": 6.8},
        "image": null,
        "summary": "<p>Pilot.</p>",
        "_links": {"self": {"href": "https://api.tvmaze.com/episodes/1"}}
    }"#
    .to_string()
}

#[test]
fn status_404_is_absent_regardless_of_body() {
    assert_eq!(classify::<Show>(404, "").unwrap(), None);
    assert_eq!(classify::<Show>(404, "not even json").unwrap(), None);
    assert_eq!(classify::<Show>(404, &westworld_body()).unwrap(), None);
    assert!(classify_list::<Episode>(404, "").unwrap().is_none());
}

#[test]
fn fetching_show_with_full_embedding() {
    let show = classify::<Show>(200, &westworld_body()).unwrap().unwrap();
    assert_eq!(show.name, "Westworld");
    assert_eq!(show.id, 1371);
    assert_eq!(show.externals.thetvdb, Some(296762));
    let episodes = show._embedded.unwrap().episodes.unwrap();
    assert!(!episodes.is_empty());
    // air order is preserved exactly as the service sent it
    assert_eq!(episodes[0].name, "The Original");
    assert_eq!(episodes[1].name, "Chestnut");
    assert!(episodes[0].airdate.day < episodes[1].airdate.day);
}

#[test]
fn renamed_wire_fields_are_mapped() {
    let show = classify::<Show>(200, &westworld_body()).unwrap().unwrap();
    assert_eq!(show.kind, "Scripted");
    assert_eq!(show.average_runtime, Some(68));
    assert_eq!(
        show.official_site.as_deref(),
        Some("http://www.hbo.com/westworld")
    );
    assert!(show.web_channel.is_none());
    assert!(show.dvd_country.is_none());
    assert_eq!(
        show._links._self.unwrap().href,
        "https://api.tvmaze.com/shows/1371"
    );
    assert_eq!(show.rating.average.as_deref(), Some("8.2"));
    assert_eq!(show.premiered.unwrap().year, 2016);
    assert_eq!(show.schedule.time.time.unwrap().hour, 21);
    assert_eq!(show.schedule.days, vec!["Sunday".to_string()]);
}

#[test]
fn fetching_episode_one_returns_pilot() {
    let ep = classify::<Episode>(200, &pilot_body()).unwrap().unwrap();
    assert_eq!(ep.name, "Pilot");
    assert_eq!(ep.id, 1);
    assert_eq!(ep.airdate.year, 2013);
    assert_eq!(ep.airdate.month, 6);
    assert_eq!(ep.airdate.day, 24);
    assert_eq!(ep.airtime.time.unwrap().hour, 22);
    assert_eq!(ep.airstamp.offset_minutes, 0);
}

#[test]
fn decode_failure_is_error_not_absence() {
    assert_eq!(
        classify::<Show>(200, "not json at all"),
        Err(DecodeError::Syntax)
    );
    assert_eq!(classify::<Show>(200, "{}"), Err(DecodeError::Field));
    assert_eq!(classify::<Show>(500, "{}"), Err(DecodeError::Field));
}

#[test]
fn malformed_temporal_field_fails_the_whole_entity() {
    let bad_date = pilot_body().replace("2013-06-24", "2013-13-24");
    assert_eq!(
        classify::<Episode>(200, &bad_date),
        Err(DecodeError::Date)
    );
    let bad_time = pilot_body().replace("\"airtime\": \"22:00\"", "\"airtime\": \"25:99\"");
    assert_eq!(
        classify::<Episode>(200, &bad_time),
        Err(DecodeError::Time)
    );
    let bad_stamp = pilot_body().replace("2013-06-25T02:00:00+00:00", "yesterday evening");
    assert_eq!(
        classify::<Episode>(200, &bad_stamp),
        Err(DecodeError::Timestamp)
    );
}

#[test]
fn empty_airtime_is_absent_not_error() {
    let no_time = pilot_body().replace("\"airtime\": \"22:00\"", "\"airtime\": \"\"");
    let ep = classify::<Episode>(200, &no_time).unwrap().unwrap();
    assert!(ep.airtime.time.is_none());
}

#[test]
fn search_results_decode_unconditionally_and_keep_order() {
    let body = format!(
        r#"[{{"score":24.9,"show":{sw}}},{{"score":11.5,"show":{sw}}}]"#,
        sw = westworld_body()
    );
    let hits = decode_list::<SearchResult>(&body).unwrap();
    assert_eq!(hits.len(), 2);
    assert_eq!(hits[0].score, "24.9");
    assert_eq!(hits[1].score, "11.5");
    assert_eq!(hits[0].show.name, "Westworld");
}

#[test]
fn empty_collection_is_a_valid_success() {
    assert_eq!(decode_list::<SearchResult>("[]").unwrap().len(), 0);
    assert_eq!(decode_list::<Person>("[]").unwrap().len(), 0);
}

#[test]
fn person_with_birthday_decodes() {
    let body = r#"{
        "id": 1,
        "url": "https://www.tvmaze.com/people/1/mike-vogel",
        "name": "Mike Vogel",
        "country": {"name": "United States", "code": "US", "timezone": "America/New_York"},
        "birthday": "1979-07-17",
        "deathday": null,
        "gender": "Male",
        "image": null,
        "updated": 1668167158,
        "_links": {}
    }"#;
    let p = classify::<Person>(200, body).unwrap().unwrap();
    assert_eq!(p.name, "Mike Vogel");
    let b = p.birthday.unwrap();
    assert_eq!((b.year, b.month, b.day), (1979, 7, 17));
    assert!(p.deathday.is_none());
}

#[test]
fn updates_feed_decodes_to_a_map() {
    let m = decode_updates(r#"{"1":1500000000,"2993":1600000000}"#).unwrap();
    let mut expected: HashMap<usize, usize> = HashMap::new();
    expected.insert(1, 1500000000);
    expected.insert(2993, 1600000000);
    assert_eq!(m, expected);
}

#[test]
fn updates_feed_later_pair_wins_for_equal_ids() {
    // "01" and "1" both denote id 1; the decoder map iterates "01" first,
    // so the value under "1" is the one kept.
    let m = decode_updates(r#"{"01": 5, "1": 7}"#).unwrap();
    let mut expected: HashMap<usize, usize> = HashMap::new();
    expected.insert(1, 7);
    assert_eq!(m, expected);
}

#[test]
fn updates_feed_rejects_bad_keys_and_values() {
    assert_eq!(
        decode_updates(r#"{"one":1500000000}"#),
        Err(DecodeError::Field)
    );
    assert_eq!(decode_updates(r#"{"1":"soon"}"#), Err(DecodeError::Field));
    assert_eq!(decode_updates("[]"), Err(DecodeError::Field));
    assert_eq!(decode_updates("nope"), Err(DecodeError::Syntax));
}
