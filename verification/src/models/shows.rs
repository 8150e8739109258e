//! The show entity and its children: schedule, network, externals,
//! embedded relations, cast and crew, seasons, AKAs, images and alternate
//! lists.

use vstd::prelude::*;

use crate::error::DecodeError;
use crate::json::opt_date;
use crate::json::opt_obj;
use crate::json::opt_string;
use crate::json::opt_usize;
use crate::json::opt_vec;
use crate::json::req_bool;
use crate::json::req_obj;
use crate::json::req_string;
use crate::json::req_time;
use crate::json::req_u64;
use crate::json::req_usize;
use crate::json::spec_opt_arr_err;
use crate::json::spec_opt_arr_is;
use crate::json::spec_opt_arr_ok;
use crate::json::spec_opt_date;
use crate::json::spec_opt_obj_f;
use crate::json::spec_opt_obj_err;
use crate::json::spec_opt_obj_is;
use crate::json::spec_opt_obj_ok;
use crate::json::spec_opt_string;
use crate::json::spec_opt_usize;
use crate::json::spec_req_bool;
use crate::json::spec_req_obj_err;
use crate::json::spec_req_obj_f;
use crate::json::spec_req_obj_is;
use crate::json::spec_req_obj_ok;
use crate::json::spec_req_string;
use crate::json::spec_req_time;
use crate::json::spec_req_u64;
use crate::json::spec_req_usize;
use crate::json::spec_string_list_is;
use crate::json::spec_string_list_ok;
use crate::json::string_list;
use crate::json::FromJson;
use crate::json::Json;
use crate::models::episodes::spec_episode_from;
use crate::models::episodes::Episode;
use crate::models::people::spec_person_from;
use crate::models::people::Person;
use crate::models::spec_country_from;
use crate::models::spec_image_from;
use crate::models::spec_links_from;
use crate::models::spec_rating_from;
use crate::models::time::TVMazeDate;
use crate::models::time::TVMazeTime;
use crate::models::Country;
use crate::models::Image;
use crate::models::Links;
use crate::models::Rating;

verus! {

/// A broadcast network or web channel.
#[derive(Clone, Debug, PartialEq)]
pub struct Network {
    pub id: usize,
    pub name: String,
    pub country: Option<Country>,
    pub official_site: Option<String>,
}

/// What decoding a `Network` returns on any JSON value. The wire field
/// `officialSite` maps to `official_site`.
pub open spec fn spec_network_from(j: Json) -> Result<Network, DecodeError> {
    let id = spec_req_usize(j, "id"@);
    let name = spec_req_string(j, "name"@);
    let country = spec_opt_obj_f(j, "country"@, |x: Json| spec_country_from(x));
    let official_site = spec_opt_string(j, "officialSite"@);
    if id is Err {
        Err(id->Err_0)
    } else if name is Err {
        Err(name->Err_0)
    } else if country is Err {
        Err(country->Err_0)
    } else if official_site is Err {
        Err(official_site->Err_0)
    } else {
        Ok(
            Network {
                id: id->Ok_0,
                name: name->Ok_0,
                country: country->Ok_0,
                official_site: official_site->Ok_0,
            },
        )
    }
}

impl FromJson for Network {
    open spec fn wf(&self) -> bool {
        true
    }

    open spec fn jok(j: Json) -> bool {
        spec_network_from(j) is Ok
    }

    open spec fn decodes(j: Json, r: Result<Self, DecodeError>) -> bool {
        r == spec_network_from(j)
    }

    fn from_json(j: &Json) -> Result<Self, DecodeError> {
        Ok(
            Network {
                id: req_usize(j, "id")?,
                name: req_string(j, "name")?,
                country: opt_obj::<Country>(j, "country")?,
                official_site: opt_string(j, "officialSite")?,
            },
        )
    }
}

/// Identifiers of this show in other databases.
#[derive(Clone, Debug, PartialEq)]
pub struct Externals {
    pub tvrage: Option<usize>,
    pub thetvdb: Option<usize>,
    pub imdb: Option<String>,
}

/// What decoding an `Externals` returns on any JSON value.
pub open spec fn spec_externals_from(j: Json) -> Result<Externals, DecodeError> {
    let tvrage = spec_opt_usize(j, "tvrage"@);
    let thetvdb = spec_opt_usize(j, "thetvdb"@);
    let imdb = spec_opt_string(j, "imdb"@);
    if tvrage is Err {
        Err(tvrage->Err_0)
    } else if thetvdb is Err {
        Err(thetvdb->Err_0)
    } else if imdb is Err {
        Err(imdb->Err_0)
    } else {
        Ok(Externals { tvrage: tvrage->Ok_0, thetvdb: thetvdb->Ok_0, imdb: imdb->Ok_0 })
    }
}

impl FromJson for Externals {
    open spec fn wf(&self) -> bool {
        true
    }

    open spec fn jok(j: Json) -> bool {
        spec_externals_from(j) is Ok
    }

    open spec fn decodes(j: Json, r: Result<Self, DecodeError>) -> bool {
        r == spec_externals_from(j)
    }

    fn from_json(j: &Json) -> Result<Self, DecodeError> {
        Ok(
            Externals {
                tvrage: opt_usize(j, "tvrage")?,
                thetvdb: opt_usize(j, "thetvdb")?,
                imdb: opt_string(j, "imdb")?,
            },
        )
    }
}

/// When a show airs: a time of day (possibly absent) and weekdays.
#[derive(Clone, Debug, PartialEq)]
pub struct Schedule {
    pub time: TVMazeTime,
    pub days: Vec<String>,
}

/// Decoding a `Schedule` succeeds.
pub open spec fn spec_schedule_ok(j: Json) -> bool {
    spec_req_time(j, "time"@) is Ok && spec_string_list_ok(j, "days"@)
}

/// `t` is the decoding of `j` as a `Schedule`: the time adapter's reading
/// of the `time` field, and exactly the `days` strings in order.
pub open spec fn spec_schedule_is(j: Json, t: Schedule) -> bool {
    &&& spec_req_time(j, "time"@) == Ok::<TVMazeTime, DecodeError>(t.time)
    &&& spec_string_list_is(j, "days"@, t.days@)
}

/// `e` is the failure of decoding `j` as a `Schedule`.
pub open spec fn spec_schedule_err(j: Json, e: DecodeError) -> bool {
    let time = spec_req_time(j, "time"@);
    if time is Err {
        e == time->Err_0
    } else {
        !spec_string_list_ok(j, "days"@) && e == DecodeError::Field
    }
}

impl FromJson for Schedule {
    open spec fn wf(&self) -> bool {
        self.time.wf()
    }

    open spec fn jok(j: Json) -> bool {
        spec_schedule_ok(j)
    }

    open spec fn decodes(j: Json, r: Result<Self, DecodeError>) -> bool {
        match r {
            Ok(t) => spec_schedule_ok(j) && spec_schedule_is(j, t),
            Err(e) => !spec_schedule_ok(j) && spec_schedule_err(j, e),
        }
    }

    fn from_json(j: &Json) -> Result<Self, DecodeError> {
        Ok(Schedule { time: req_time(j, "time")?, days: string_list(j, "days")? })
    }
}

/// A character played in a show.
#[derive(Clone, Debug, PartialEq)]
pub struct Character {
    pub id: usize,
    pub url: String,
    pub name: String,
    pub image: Option<Image>,
    pub _links: Links,
}

/// What decoding a `Character` returns on any JSON value.
pub open spec fn spec_character_from(j: Json) -> Result<Character, DecodeError> {
    let id = spec_req_usize(j, "id"@);
    let url = spec_req_string(j, "url"@);
    let name = spec_req_string(j, "name"@);
    let image = spec_opt_obj_f(j, "image"@, |x: Json| spec_image_from(x));
    let links = spec_req_obj_f(j, "_links"@, |x: Json| spec_links_from(x));
    if id is Err {
        Err(id->Err_0)
    } else if url is Err {
        Err(url->Err_0)
    } else if name is Err {
        Err(name->Err_0)
    } else if image is Err {
        Err(image->Err_0)
    } else if links is Err {
        Err(links->Err_0)
    } else {
        Ok(
            Character {
                id: id->Ok_0,
                url: url->Ok_0,
                name: name->Ok_0,
                image: image->Ok_0,
                _links: links->Ok_0,
            },
        )
    }
}

impl FromJson for Character {
    open spec fn wf(&self) -> bool {
        true
    }

    open spec fn jok(j: Json) -> bool {
        spec_character_from(j) is Ok
    }

    open spec fn decodes(j: Json, r: Result<Self, DecodeError>) -> bool {
        r == spec_character_from(j)
    }

    fn from_json(j: &Json) -> Result<Self, DecodeError> {
        Ok(
            Character {
                id: req_usize(j, "id")?,
                url: req_string(j, "url")?,
                name: req_string(j, "name")?,
                image: opt_obj::<Image>(j, "image")?,
                _links: req_obj::<Links>(j, "_links")?,
            },
        )
    }
}

/// One cast item: a person and the character they play. The wire field
/// `self` maps to `_self`.
#[derive(Clone, Debug, PartialEq)]
pub struct CastMember {
    pub person: Person,
    pub character: Character,
    pub _self: bool,
    pub voice: bool,
}

/// What decoding a `CastMember` returns on any JSON value.
pub open spec fn spec_cast_member_from(j: Json) -> Result<CastMember, DecodeError> {
    let person = spec_req_obj_f(j, "person"@, |x: Json| spec_person_from(x));
    let character = spec_req_obj_f(j, "character"@, |x: Json| spec_character_from(x));
    let s = spec_req_bool(j, "self"@);
    let voice = spec_req_bool(j, "voice"@);
    if person is Err {
        Err(person->Err_0)
    } else if character is Err {
        Err(character->Err_0)
    } else if s is Err {
        Err(s->Err_0)
    } else if voice is Err {
        Err(voice->Err_0)
    } else {
        Ok(
            CastMember {
                person: person->Ok_0,
                character: character->Ok_0,
                _self: s->Ok_0,
                voice: voice->Ok_0,
            },
        )
    }
}

impl FromJson for CastMember {
    open spec fn wf(&self) -> bool {
        self.person.wf()
    }

    open spec fn jok(j: Json) -> bool {
        spec_cast_member_from(j) is Ok
    }

    open spec fn decodes(j: Json, r: Result<Self, DecodeError>) -> bool {
        r == spec_cast_member_from(j)
    }

    fn from_json(j: &Json) -> Result<Self, DecodeError> {
        Ok(
            CastMember {
                person: req_obj::<Person>(j, "person")?,
                character: req_obj::<Character>(j, "character")?,
                _self: req_bool(j, "self")?,
                voice: req_bool(j, "voice")?,
            },
        )
    }
}

/// One crew item: a person and their crew type. The wire field `type` maps
/// to `kind`.
#[derive(Clone, Debug, PartialEq)]
pub struct CrewMember {
    pub kind: String,
    pub person: Person,
}

/// What decoding a `CrewMember` returns on any JSON value.
pub open spec fn spec_crew_member_from(j: Json) -> Result<CrewMember, DecodeError> {
    let kind = spec_req_string(j, "type"@);
    let person = spec_req_obj_f(j, "person"@, |x: Json| spec_person_from(x));
    if kind is Err {
        Err(kind->Err_0)
    } else if person is Err {
        Err(person->Err_0)
    } else {
        Ok(CrewMember { kind: kind->Ok_0, person: person->Ok_0 })
    }
}

impl FromJson for CrewMember {
    open spec fn wf(&self) -> bool {
        self.person.wf()
    }

    open spec fn jok(j: Json) -> bool {
        spec_crew_member_from(j) is Ok
    }

    open spec fn decodes(j: Json, r: Result<Self, DecodeError>) -> bool {
        r == spec_crew_member_from(j)
    }

    fn from_json(j: &Json) -> Result<Self, DecodeError> {
        Ok(CrewMember { kind: req_string(j, "type")?, person: req_obj::<Person>(j, "person")? })
    }
}

/// Related entities the service inlined on request: episodes in air order,
/// cast in importance order, and the next episode.
#[derive(Clone, Debug, PartialEq)]
pub struct Embedded {
    pub episodes: Option<Vec<Episode>>,
    pub cast: Option<Vec<CastMember>>,
    pub nextepisode: Option<Episode>,
}

/// Decoding an `Embedded` succeeds.
pub open spec fn spec_embedded_ok(j: Json) -> bool {
    &&& spec_opt_arr_ok::<Episode>(j, "episodes"@)
    &&& spec_opt_arr_ok::<CastMember>(j, "cast"@)
    &&& spec_opt_obj_f(j, "nextepisode"@, |x: Json| spec_episode_from(x)) is Ok
}

/// `t` is the decoding of `j` as an `Embedded`: each list holds one
/// decoded element per document element, in document order.
pub open spec fn spec_embedded_is(j: Json, t: Embedded) -> bool {
    &&& spec_opt_arr_is::<Episode>(j, "episodes"@, t.episodes)
    &&& spec_opt_arr_is::<CastMember>(j, "cast"@, t.cast)
    &&& spec_opt_obj_f(j, "nextepisode"@, |x: Json| spec_episode_from(x)) == Ok::<
        Option<Episode>,
        DecodeError,
    >(t.nextepisode)
}

/// `e` is the failure of decoding `j` as an `Embedded`.
pub open spec fn spec_embedded_err(j: Json, e: DecodeError) -> bool {
    if !spec_opt_arr_ok::<Episode>(j, "episodes"@) {
        spec_opt_arr_err::<Episode>(j, "episodes"@, e)
    } else if !spec_opt_arr_ok::<CastMember>(j, "cast"@) {
        spec_opt_arr_err::<CastMember>(j, "cast"@, e)
    } else {
        spec_opt_obj_f(j, "nextepisode"@, |x: Json| spec_episode_from(x)) == Err::<
            Option<Episode>,
            DecodeError,
        >(e)
    }
}

impl FromJson for Embedded {
    open spec fn wf(&self) -> bool {
        &&& (self.episodes matches Some(xs) ==> forall|i: int|
            0 <= i < xs@.len() ==> (#[trigger] xs@[i]).wf())
        &&& (self.cast matches Some(xs) ==> forall|i: int|
            0 <= i < xs@.len() ==> (#[trigger] xs@[i]).wf())
        &&& (self.nextepisode matches Some(e) ==> e.wf())
    }

    open spec fn jok(j: Json) -> bool {
        spec_embedded_ok(j)
    }

    open spec fn decodes(j: Json, r: Result<Self, DecodeError>) -> bool {
        match r {
            Ok(t) => spec_embedded_ok(j) && spec_embedded_is(j, t),
            Err(e) => !spec_embedded_ok(j) && spec_embedded_err(j, e),
        }
    }

    fn from_json(j: &Json) -> Result<Self, DecodeError> {
        Ok(
            Embedded {
                episodes: opt_vec::<Episode>(j, "episodes")?,
                cast: opt_vec::<CastMember>(j, "cast")?,
                nextepisode: opt_obj::<Episode>(j, "nextepisode")?,
            },
        )
    }
}

/// One show. The wire fields `type`, `averageRuntime`, `officialSite`,
/// `webChannel` and `dvdCountry` map to `kind`, `average_runtime`,
/// `official_site`, `web_channel` and `dvd_country`.
#[derive(Clone, Debug, PartialEq)]
pub struct Show {
    pub id: usize,
    pub url: String,
    pub name: String,
    pub kind: String,
    pub language: String,
    pub genres: Vec<String>,
    pub status: String,
    pub runtime: Option<usize>,
    pub average_runtime: Option<usize>,
    pub premiered: Option<TVMazeDate>,
    pub ended: Option<TVMazeDate>,
    pub official_site: Option<String>,
    pub schedule: Schedule,
    pub rating: Rating,
    pub weight: usize,
    pub network: Option<Network>,
    pub web_channel: Option<Network>,
    pub dvd_country: Option<Country>,
    pub externals: Externals,
    pub image: Option<Image>,
    pub summary: Option<String>,
    pub updated: u64,
    pub _links: Links,
    pub _embedded: Option<Embedded>,
}

/// Decoding a `Show` succeeds: every field, under its wire key, has the
/// expected shape.
pub open spec fn spec_show_ok(j: Json) -> bool {
    &&& spec_req_usize(j, "id"@) is Ok
    &&& spec_req_string(j, "url"@) is Ok
    &&& spec_req_string(j, "name"@) is Ok
    &&& spec_req_string(j, "type"@) is Ok
    &&& spec_req_string(j, "language"@) is Ok
    &&& spec_string_list_ok(j, "genres"@)
    &&& spec_req_string(j, "status"@) is Ok
    &&& spec_opt_usize(j, "runtime"@) is Ok
    &&& spec_opt_usize(j, "averageRuntime"@) is Ok
    &&& spec_opt_date(j, "premiered"@) is Ok
    &&& spec_opt_date(j, "ended"@) is Ok
    &&& spec_opt_string(j, "officialSite"@) is Ok
    &&& spec_req_obj_ok::<Schedule>(j, "schedule"@)
    &&& spec_req_obj_f(j, "rating"@, |x: Json| spec_rating_from(x)) is Ok
    &&& spec_req_usize(j, "weight"@) is Ok
    &&& spec_opt_obj_f(j, "network"@, |x: Json| spec_network_from(x)) is Ok
    &&& spec_opt_obj_f(j, "webChannel"@, |x: Json| spec_network_from(x)) is Ok
    &&& spec_opt_obj_f(j, "dvdCountry"@, |x: Json| spec_country_from(x)) is Ok
    &&& spec_req_obj_f(j, "externals"@, |x: Json| spec_externals_from(x)) is Ok
    &&& spec_opt_obj_f(j, "image"@, |x: Json| spec_image_from(x)) is Ok
    &&& spec_opt_string(j, "summary"@) is Ok
    &&& spec_req_u64(j, "updated"@) is Ok
    &&& spec_req_obj_f(j, "_links"@, |x: Json| spec_links_from(x)) is Ok
    &&& spec_opt_obj_ok::<Embedded>(j, "_embedded"@)
}

/// `t` is the decoding of `j` as a `Show`: every field equal to what its
/// wire key holds, under the rename table above.
pub open spec fn spec_show_is(j: Json, t: Show) -> bool {
    &&& spec_req_usize(j, "id"@) == Ok::<usize, DecodeError>(t.id)
    &&& spec_req_string(j, "url"@) == Ok::<String, DecodeError>(t.url)
    &&& spec_req_string(j, "name"@) == Ok::<String, DecodeError>(t.name)
    &&& spec_req_string(j, "type"@) == Ok::<String, DecodeError>(t.kind)
    &&& spec_req_string(j, "language"@) == Ok::<String, DecodeError>(t.language)
    &&& spec_string_list_is(j, "genres"@, t.genres@)
    &&& spec_req_string(j, "status"@) == Ok::<String, DecodeError>(t.status)
    &&& spec_opt_usize(j, "runtime"@) == Ok::<Option<usize>, DecodeError>(t.runtime)
    &&& spec_opt_usize(j, "averageRuntime"@) == Ok::<Option<usize>, DecodeError>(
        t.average_runtime,
    )
    &&& spec_opt_date(j, "premiered"@) == Ok::<Option<TVMazeDate>, DecodeError>(t.premiered)
    &&& spec_opt_date(j, "ended"@) == Ok::<Option<TVMazeDate>, DecodeError>(t.ended)
    &&& spec_opt_string(j, "officialSite"@) == Ok::<Option<String>, DecodeError>(t.official_site)
    &&& spec_req_obj_is::<Schedule>(j, "schedule"@, t.schedule)
    &&& spec_req_obj_f(j, "rating"@, |x: Json| spec_rating_from(x)) == Ok::<Rating, DecodeError>(
        t.rating,
    )
    &&& spec_req_usize(j, "weight"@) == Ok::<usize, DecodeError>(t.weight)
    &&& spec_opt_obj_f(j, "network"@, |x: Json| spec_network_from(x)) == Ok::<
        Option<Network>,
        DecodeError,
    >(t.network)
    &&& spec_opt_obj_f(j, "webChannel"@, |x: Json| spec_network_from(x)) == Ok::<
        Option<Network>,
        DecodeError,
    >(t.web_channel)
    &&& spec_opt_obj_f(j, "dvdCountry"@, |x: Json| spec_country_from(x)) == Ok::<
        Option<Country>,
        DecodeError,
    >(t.dvd_country)
    &&& spec_req_obj_f(j, "externals"@, |x: Json| spec_externals_from(x)) == Ok::<
        Externals,
        DecodeError,
    >(t.externals)
    &&& spec_opt_obj_f(j, "image"@, |x: Json| spec_image_from(x)) == Ok::<
        Option<Image>,
        DecodeError,
    >(t.image)
    &&& spec_opt_string(j, "summary"@) == Ok::<Option<String>, DecodeError>(t.summary)
    &&& spec_req_u64(j, "updated"@) == Ok::<u64, DecodeError>(t.updated)
    &&& spec_req_obj_f(j, "_links"@, |x: Json| spec_links_from(x)) == Ok::<Links, DecodeError>(
        t._links,
    )
    &&& spec_opt_obj_is::<Embedded>(j, "_embedded"@, t._embedded)
}

/// `e` is the failure of decoding `j` as a `Show`: the failure of the
/// first field, in wire order, that does not decode.
pub open spec fn spec_show_err(j: Json, e: DecodeError) -> bool {
    let id = spec_req_usize(j, "id"@);
    let url = spec_req_string(j, "url"@);
    let name = spec_req_string(j, "name"@);
    let kind = spec_req_string(j, "type"@);
    let language = spec_req_string(j, "language"@);
    let status = spec_req_string(j, "status"@);
    let runtime = spec_opt_usize(j, "runtime"@);
    let average_runtime = spec_opt_usize(j, "averageRuntime"@);
    let premiered = spec_opt_date(j, "premiered"@);
    let ended = spec_opt_date(j, "ended"@);
    let official_site = spec_opt_string(j, "officialSite"@);
    let rating = spec_req_obj_f(j, "rating"@, |x: Json| spec_rating_from(x));
    let weight = spec_req_usize(j, "weight"@);
    let network = spec_opt_obj_f(j, "network"@, |x: Json| spec_network_from(x));
    let web_channel = spec_opt_obj_f(j, "webChannel"@, |x: Json| spec_network_from(x));
    let dvd_country = spec_opt_obj_f(j, "dvdCountry"@, |x: Json| spec_country_from(x));
    let externals = spec_req_obj_f(j, "externals"@, |x: Json| spec_externals_from(x));
    let image = spec_opt_obj_f(j, "image"@, |x: Json| spec_image_from(x));
    let summary = spec_opt_string(j, "summary"@);
    let updated = spec_req_u64(j, "updated"@);
    let links = spec_req_obj_f(j, "_links"@, |x: Json| spec_links_from(x));
    if id is Err {
        e == id->Err_0
    } else if url is Err {
        e == url->Err_0
    } else if name is Err {
        e == name->Err_0
    } else if kind is Err {
        e == kind->Err_0
    } else if language is Err {
        e == language->Err_0
    } else if !spec_string_list_ok(j, "genres"@) {
        e == DecodeError::Field
    } else if status is Err {
        e == status->Err_0
    } else if runtime is Err {
        e == runtime->Err_0
    } else if average_runtime is Err {
        e == average_runtime->Err_0
    } else if premiered is Err {
        e == premiered->Err_0
    } else if ended is Err {
        e == ended->Err_0
    } else if official_site is Err {
        e == official_site->Err_0
    } else if !spec_req_obj_ok::<Schedule>(j, "schedule"@) {
        spec_req_obj_err::<Schedule>(j, "schedule"@, e)
    } else if rating is Err {
        e == rating->Err_0
    } else if weight is Err {
        e == weight->Err_0
    } else if network is Err {
        e == network->Err_0
    } else if web_channel is Err {
        e == web_channel->Err_0
    } else if dvd_country is Err {
        e == dvd_country->Err_0
    } else if externals is Err {
        e == externals->Err_0
    } else if image is Err {
        e == image->Err_0
    } else if summary is Err {
        e == summary->Err_0
    } else if updated is Err {
        e == updated->Err_0
    } else if links is Err {
        e == links->Err_0
    } else {
        spec_opt_obj_err::<Embedded>(j, "_embedded"@, e)
    }
}

impl FromJson for Show {
    /// Every temporal field of a decoded show — its own and those of every
    /// embedded episode and cast member — denotes a real date or time.
    open spec fn wf(&self) -> bool {
        &&& (self.premiered matches Some(d) ==> d.wf())
        &&& (self.ended matches Some(d) ==> d.wf())
        &&& self.schedule.wf()
        &&& (self._embedded matches Some(em) ==> em.wf())
    }

    open spec fn jok(j: Json) -> bool {
        spec_show_ok(j)
    }

    open spec fn decodes(j: Json, r: Result<Self, DecodeError>) -> bool {
        match r {
            Ok(t) => spec_show_ok(j) && spec_show_is(j, t),
            Err(e) => !spec_show_ok(j) && spec_show_err(j, e),
        }
    }

    #[verifier::rlimit(60)]
    fn from_json(j: &Json) -> Result<Self, DecodeError> {
        Ok(
            Show {
                id: req_usize(j, "id")?,
                url: req_string(j, "url")?,
                name: req_string(j, "name")?,
                kind: req_string(j, "type")?,
                language: req_string(j, "language")?,
                genres: string_list(j, "genres")?,
                status: req_string(j, "status")?,
                runtime: opt_usize(j, "runtime")?,
                average_runtime: opt_usize(j, "averageRuntime")?,
                premiered: opt_date(j, "premiered")?,
                ended: opt_date(j, "ended")?,
                official_site: opt_string(j, "officialSite")?,
                schedule: req_obj::<Schedule>(j, "schedule")?,
                rating: req_obj::<Rating>(j, "rating")?,
                weight: req_usize(j, "weight")?,
                network: opt_obj::<Network>(j, "network")?,
                web_channel: opt_obj::<Network>(j, "webChannel")?,
                dvd_country: opt_obj::<Country>(j, "dvdCountry")?,
                externals: req_obj::<Externals>(j, "externals")?,
                image: opt_obj::<Image>(j, "image")?,
                summary: opt_string(j, "summary")?,
                updated: req_u64(j, "updated")?,
                _links: req_obj::<Links>(j, "_links")?,
                _embedded: opt_obj::<Embedded>(j, "_embedded")?,
            },
        )
    }
}

/// An alternate episode ordering of a show.
#[derive(Clone, Debug, PartialEq)]
pub struct AlternateList {
    pub id: usize,
    pub url: String,
    pub dvd_release: bool,
    pub verbatim_order: bool,
    pub country_premiere: bool,
    pub streaming_premiere: bool,
    pub broadcast_premiere: bool,
    pub language_premiere: bool,
    pub language: Option<String>,
    pub network: Option<Network>,
    pub web_channel: Option<Network>,
    pub _links: Links,
}

/// What decoding an `AlternateList` returns on any JSON value.
pub open spec fn spec_alternate_list_from(j: Json) -> Result<AlternateList, DecodeError> {
    let id = spec_req_usize(j, "id"@);
    let url = spec_req_string(j, "url"@);
    let dvd_release = spec_req_bool(j, "dvd_release"@);
    let verbatim_order = spec_req_bool(j, "verbatim_order"@);
    let country_premiere = spec_req_bool(j, "country_premiere"@);
    let streaming_premiere = spec_req_bool(j, "streaming_premiere"@);
    let broadcast_premiere = spec_req_bool(j, "broadcast_premiere"@);
    let language_premiere = spec_req_bool(j, "language_premiere"@);
    let language = spec_opt_string(j, "language"@);
    let network = spec_opt_obj_f(j, "network"@, |x: Json| spec_network_from(x));
    let web_channel = spec_opt_obj_f(j, "webChannel"@, |x: Json| spec_network_from(x));
    let links = spec_req_obj_f(j, "_links"@, |x: Json| spec_links_from(x));
    if id is Err {
        Err(id->Err_0)
    } else if url is Err {
        Err(url->Err_0)
    } else if dvd_release is Err {
        Err(dvd_release->Err_0)
    } else if verbatim_order is Err {
        Err(verbatim_order->Err_0)
    } else if country_premiere is Err {
        Err(country_premiere->Err_0)
    } else if streaming_premiere is Err {
        Err(streaming_premiere->Err_0)
    } else if broadcast_premiere is Err {
        Err(broadcast_premiere->Err_0)
    } else if language_premiere is Err {
        Err(language_premiere->Err_0)
    } else if language is Err {
        Err(language->Err_0)
    } else if network is Err {
        Err(network->Err_0)
    } else if web_channel is Err {
        Err(web_channel->Err_0)
    } else if links is Err {
        Err(links->Err_0)
    } else {
        Ok(
            AlternateList {
                id: id->Ok_0,
                url: url->Ok_0,
                dvd_release: dvd_release->Ok_0,
                verbatim_order: verbatim_order->Ok_0,
                country_premiere: country_premiere->Ok_0,
                streaming_premiere: streaming_premiere->Ok_0,
                broadcast_premiere: broadcast_premiere->Ok_0,
                language_premiere: language_premiere->Ok_0,
                language: language->Ok_0,
                network: network->Ok_0,
                web_channel: web_channel->Ok_0,
                _links: links->Ok_0,
            },
        )
    }
}

impl FromJson for AlternateList {
    open spec fn wf(&self) -> bool {
        true
    }

    open spec fn jok(j: Json) -> bool {
        spec_alternate_list_from(j) is Ok
    }

    open spec fn decodes(j: Json, r: Result<Self, DecodeError>) -> bool {
        r == spec_alternate_list_from(j)
    }

    #[verifier::rlimit(30)]
    fn from_json(j: &Json) -> Result<Self, DecodeError> {
        Ok(
            AlternateList {
                id: req_usize(j, "id")?,
                url: req_string(j, "url")?,
                dvd_release: req_bool(j, "dvd_release")?,
                verbatim_order: req_bool(j, "verbatim_order")?,
                country_premiere: req_bool(j, "country_premiere")?,
                streaming_premiere: req_bool(j, "streaming_premiere")?,
                broadcast_premiere: req_bool(j, "broadcast_premiere")?,
                language_premiere: req_bool(j, "language_premiere")?,
                language: opt_string(j, "language")?,
                network: opt_obj::<Network>(j, "network")?,
                web_channel: opt_obj::<Network>(j, "webChannel")?,
                _links: req_obj::<Links>(j, "_links")?,
            },
        )
    }
}

/// One season of a show. The wire fields `episodeOrder`, `premiereDate`
/// and `endDate` map to `episode_order`, `premiere_date` and `end_date`.
#[derive(Clone, Debug, PartialEq)]
pub struct Season {
    pub id: usize,
    pub url: String,
    pub number: usize,
    pub name: String,
    pub episode_order: Option<usize>,
    pub premiere_date: Option<TVMazeDate>,
    pub end_date: Option<TVMazeDate>,
    pub network: Option<Network>,
    pub web_channel: Option<Network>,
    pub image: Option<Image>,
    pub summary: Option<String>,
    pub _links: Links,
}

/// What decoding a `Season` returns on any JSON value.
pub open spec fn spec_season_from(j: Json) -> Result<Season, DecodeError> {
    let id = spec_req_usize(j, "id"@);
    let url = spec_req_string(j, "url"@);
    let number = spec_req_usize(j, "number"@);
    let name = spec_req_string(j, "name"@);
    let episode_order = spec_opt_usize(j, "episodeOrder"@);
    let premiere_date = spec_opt_date(j, "premiereDate"@);
    let end_date = spec_opt_date(j, "endDate"@);
    let network = spec_opt_obj_f(j, "network"@, |x: Json| spec_network_from(x));
    let web_channel = spec_opt_obj_f(j, "webChannel"@, |x: Json| spec_network_from(x));
    let image = spec_opt_obj_f(j, "image"@, |x: Json| spec_image_from(x));
    let summary = spec_opt_string(j, "summary"@);
    let links = spec_req_obj_f(j, "_links"@, |x: Json| spec_links_from(x));
    if id is Err {
        Err(id->Err_0)
    } else if url is Err {
        Err(url->Err_0)
    } else if number is Err {
        Err(number->Err_0)
    } else if name is Err {
        Err(name->Err_0)
    } else if episode_order is Err {
        Err(episode_order->Err_0)
    } else if premiere_date is Err {
        Err(premiere_date->Err_0)
    } else if end_date is Err {
        Err(end_date->Err_0)
    } else if network is Err {
        Err(network->Err_0)
    } else if web_channel is Err {
        Err(web_channel->Err_0)
    } else if image is Err {
        Err(image->Err_0)
    } else if summary is Err {
        Err(summary->Err_0)
    } else if links is Err {
        Err(links->Err_0)
    } else {
        Ok(
            Season {
                id: id->Ok_0,
                url: url->Ok_0,
                number: number->Ok_0,
                name: name->Ok_0,
                episode_order: episode_order->Ok_0,
                premiere_date: premiere_date->Ok_0,
                end_date: end_date->Ok_0,
                network: network->Ok_0,
                web_channel: web_channel->Ok_0,
                image: image->Ok_0,
                summary: summary->Ok_0,
                _links: links->Ok_0,
            },
        )
    }
}

impl FromJson for Season {
    /// A decoded season's premiere and end dates denote real dates.
    open spec fn wf(&self) -> bool {
        &&& (self.premiere_date matches Some(d) ==> d.wf())
        &&& (self.end_date matches Some(d) ==> d.wf())
    }

    open spec fn jok(j: Json) -> bool {
        spec_season_from(j) is Ok
    }

    open spec fn decodes(j: Json, r: Result<Self, DecodeError>) -> bool {
        r == spec_season_from(j)
    }

    #[verifier::rlimit(30)]
    fn from_json(j: &Json) -> Result<Self, DecodeError> {
        Ok(
            Season {
                id: req_usize(j, "id")?,
                url: req_string(j, "url")?,
                number: req_usize(j, "number")?,
                name: req_string(j, "name")?,
                episode_order: opt_usize(j, "episodeOrder")?,
                premiere_date: opt_date(j, "premiereDate")?,
                end_date: opt_date(j, "endDate")?,
                network: opt_obj::<Network>(j, "network")?,
                web_channel: opt_obj::<Network>(j, "webChannel")?,
                image: opt_obj::<Image>(j, "image")?,
                summary: opt_string(j, "summary")?,
                _links: req_obj::<Links>(j, "_links")?,
            },
        )
    }
}

/// An alternative name of a show; no country means the show's original
/// country.
#[derive(Clone, Debug, PartialEq)]
pub struct Aka {
    pub name: String,
    pub country: Option<Country>,
}

/// What decoding an `Aka` returns on any JSON value.
pub open spec fn spec_aka_from(j: Json) -> Result<Aka, DecodeError> {
    let name = spec_req_string(j, "name"@);
    let country = spec_opt_obj_f(j, "country"@, |x: Json| spec_country_from(x));
    if name is Err {
        Err(name->Err_0)
    } else if country is Err {
        Err(country->Err_0)
    } else {
        Ok(Aka { name: name->Ok_0, country: country->Ok_0 })
    }
}

impl FromJson for Aka {
    open spec fn wf(&self) -> bool {
        true
    }

    open spec fn jok(j: Json) -> bool {
        spec_aka_from(j) is Ok
    }

    open spec fn decodes(j: Json, r: Result<Self, DecodeError>) -> bool {
        r == spec_aka_from(j)
    }

    fn from_json(j: &Json) -> Result<Self, DecodeError> {
        Ok(Aka { name: req_string(j, "name")?, country: opt_obj::<Country>(j, "country")? })
    }
}

/// One resolution of a show image.
#[derive(Clone, Debug, PartialEq)]
pub struct Resolution {
    pub url: String,
    pub width: usize,
    pub height: usize,
}

/// What decoding a `Resolution` returns on any JSON value.
pub open spec fn spec_resolution_from(j: Json) -> Result<Resolution, DecodeError> {
    let url = spec_req_string(j, "url"@);
    let width = spec_req_usize(j, "width"@);
    let height = spec_req_usize(j, "height"@);
    if url is Err {
        Err(url->Err_0)
    } else if width is Err {
        Err(width->Err_0)
    } else if height is Err {
        Err(height->Err_0)
    } else {
        Ok(Resolution { url: url->Ok_0, width: width->Ok_0, height: height->Ok_0 })
    }
}

impl FromJson for Resolution {
    open spec fn wf(&self) -> bool {
        true
    }

    open spec fn jok(j: Json) -> bool {
        spec_resolution_from(j) is Ok
    }

    open spec fn decodes(j: Json, r: Result<Self, DecodeError>) -> bool {
        r == spec_resolution_from(j)
    }

    fn from_json(j: &Json) -> Result<Self, DecodeError> {
        Ok(
            Resolution {
                url: req_string(j, "url")?,
                width: req_usize(j, "width")?,
                height: req_usize(j, "height")?,
            },
        )
    }
}

/// The resolutions available for a show image.
#[derive(Clone, Debug, PartialEq)]
pub struct Resolutions {
    pub original: Resolution,
    pub medium: Option<Resolution>,
}

/// What decoding a `Resolutions` returns on any JSON value.
pub open spec fn spec_resolutions_from(j: Json) -> Result<Resolutions, DecodeError> {
    let original = spec_req_obj_f(j, "original"@, |x: Json| spec_resolution_from(x));
    let medium = spec_opt_obj_f(j, "medium"@, |x: Json| spec_resolution_from(x));
    if original is Err {
        Err(original->Err_0)
    } else if medium is Err {
        Err(medium->Err_0)
    } else {
        Ok(Resolutions { original: original->Ok_0, medium: medium->Ok_0 })
    }
}

impl FromJson for Resolutions {
    open spec fn wf(&self) -> bool {
        true
    }

    open spec fn jok(j: Json) -> bool {
        spec_resolutions_from(j) is Ok
    }

    open spec fn decodes(j: Json, r: Result<Self, DecodeError>) -> bool {
        r == spec_resolutions_from(j)
    }

    fn from_json(j: &Json) -> Result<Self, DecodeError> {
        Ok(
            Resolutions {
                original: req_obj::<Resolution>(j, "original")?,
                medium: opt_obj::<Resolution>(j, "medium")?,
            },
        )
    }
}

/// A gallery image of a show. The wire field `type` maps to `kind`.
#[derive(Clone, Debug, PartialEq)]
pub struct ShowImage {
    pub id: usize,
    pub kind: String,
    pub main: bool,
    pub resolutions: Resolutions,
}

/// What decoding a `ShowImage` returns on any JSON value.
pub open spec fn spec_show_image_from(j: Json) -> Result<ShowImage, DecodeError> {
    let id = spec_req_usize(j, "id"@);
    let kind = spec_req_string(j, "type"@);
    let main = spec_req_bool(j, "main"@);
    let resolutions = spec_req_obj_f(j, "resolutions"@, |x: Json| spec_resolutions_from(x));
    if id is Err {
        Err(id->Err_0)
    } else if kind is Err {
        Err(kind->Err_0)
    } else if main is Err {
        Err(main->Err_0)
    } else if resolutions is Err {
        Err(resolutions->Err_0)
    } else {
        Ok(
            ShowImage {
                id: id->Ok_0,
                kind: kind->Ok_0,
                main: main->Ok_0,
                resolutions: resolutions->Ok_0,
            },
        )
    }
}

impl FromJson for ShowImage {
    open spec fn wf(&self) -> bool {
        true
    }

    open spec fn jok(j: Json) -> bool {
        spec_show_image_from(j) is Ok
    }

    open spec fn decodes(j: Json, r: Result<Self, DecodeError>) -> bool {
        r == spec_show_image_from(j)
    }

    fn from_json(j: &Json) -> Result<Self, DecodeError> {
        Ok(
            ShowImage {
                id: req_usize(j, "id")?,
                kind: req_string(j, "type")?,
                main: req_bool(j, "main")?,
                resolutions: req_obj::<Resolutions>(j, "resolutions")?,
            },
        )
    }
}

} // verus!
