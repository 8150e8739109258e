//! The episode entity.

use vstd::prelude::*;

use crate::error::DecodeError;
use crate::json::opt_obj;
use crate::json::opt_string;
use crate::json::opt_usize;
use crate::json::req_date;
use crate::json::req_obj;
use crate::json::req_stamp;
use crate::json::req_string;
use crate::json::req_time;
use crate::json::req_usize;
use crate::json::spec_opt_obj_f;
use crate::json::spec_opt_string;
use crate::json::spec_opt_usize;
use crate::json::spec_req_date;
use crate::json::spec_req_obj_f;
use crate::json::spec_req_stamp;
use crate::json::spec_req_string;
use crate::json::spec_req_time;
use crate::json::spec_req_usize;
use crate::json::FromJson;
use crate::json::Json;
use crate::models::spec_image_from;
use crate::models::spec_links_from;
use crate::models::spec_rating_from;
use crate::models::time::TVMazeDate;
use crate::models::time::TVMazeDateTime;
use crate::models::time::TVMazeTime;
use crate::models::Image;
use crate::models::Links;
use crate::models::Rating;

verus! {

/// One episode, with its air date, optional air time and offset-aware air
/// stamp. The wire field `type` maps to `kind`.
#[derive(Clone, Debug, PartialEq)]
pub struct Episode {
    pub id: usize,
    pub url: String,
    pub name: String,
    pub season: usize,
    pub number: Option<usize>,
    pub kind: String,
    pub airdate: TVMazeDate,
    pub airtime: TVMazeTime,
    pub airstamp: TVMazeDateTime,
    pub runtime: Option<usize>,
    pub rating: Rating,
    pub image: Option<Image>,
    pub summary: Option<String>,
    pub _links: Links,
}

/// What decoding an `Episode` returns on any JSON value: each field read
/// from its wire key in order, the first failure surfaced.
pub open spec fn spec_episode_from(j: Json) -> Result<Episode, DecodeError> {
    let id = spec_req_usize(j, "id"@);
    let url = spec_req_string(j, "url"@);
    let name = spec_req_string(j, "name"@);
    let season = spec_req_usize(j, "season"@);
    let number = spec_opt_usize(j, "number"@);
    let kind = spec_req_string(j, "type"@);
    let airdate = spec_req_date(j, "airdate"@);
    let airtime = spec_req_time(j, "airtime"@);
    let airstamp = spec_req_stamp(j, "airstamp"@);
    let runtime = spec_opt_usize(j, "runtime"@);
    let rating = spec_req_obj_f(j, "rating"@, |x: Json| spec_rating_from(x));
    let image = spec_opt_obj_f(j, "image"@, |x: Json| spec_image_from(x));
    let summary = spec_opt_string(j, "summary"@);
    let links = spec_req_obj_f(j, "_links"@, |x: Json| spec_links_from(x));
    if id is Err {
        Err(id->Err_0)
    } else if url is Err {
        Err(url->Err_0)
    } else if name is Err {
        Err(name->Err_0)
    } else if season is Err {
        Err(season->Err_0)
    } else if number is Err {
        Err(number->Err_0)
    } else if kind is Err {
        Err(kind->Err_0)
    } else if airdate is Err {
        Err(airdate->Err_0)
    } else if airtime is Err {
        Err(airtime->Err_0)
    } else if airstamp is Err {
        Err(airstamp->Err_0)
    } else if runtime is Err {
        Err(runtime->Err_0)
    } else if rating is Err {
        Err(rating->Err_0)
    } else if image is Err {
        Err(image->Err_0)
    } else if summary is Err {
        Err(summary->Err_0)
    } else if links is Err {
        Err(links->Err_0)
    } else {
        Ok(
            Episode {
                id: id->Ok_0,
                url: url->Ok_0,
                name: name->Ok_0,
                season: season->Ok_0,
                number: number->Ok_0,
                kind: kind->Ok_0,
                airdate: airdate->Ok_0,
                airtime: airtime->Ok_0,
                airstamp: airstamp->Ok_0,
                runtime: runtime->Ok_0,
                rating: rating->Ok_0,
                image: image->Ok_0,
                summary: summary->Ok_0,
                _links: links->Ok_0,
            },
        )
    }
}

impl FromJson for Episode {
    /// Every temporal field of a decoded episode denotes a real instant.
    open spec fn wf(&self) -> bool {
        &&& self.airdate.wf()
        &&& self.airtime.wf()
        &&& self.airstamp.wf()
    }

    open spec fn jok(j: Json) -> bool {
        spec_episode_from(j) is Ok
    }

    open spec fn decodes(j: Json, r: Result<Self, DecodeError>) -> bool {
        r == spec_episode_from(j)
    }

    fn from_json(j: &Json) -> Result<Self, DecodeError> {
        Ok(
            Episode {
                id: req_usize(j, "id")?,
                url: req_string(j, "url")?,
                name: req_string(j, "name")?,
                season: req_usize(j, "season")?,
                number: opt_usize(j, "number")?,
                kind: req_string(j, "type")?,
                airdate: req_date(j, "airdate")?,
                airtime: req_time(j, "airtime")?,
                airstamp: req_stamp(j, "airstamp")?,
                runtime: opt_usize(j, "runtime")?,
                rating: req_obj::<Rating>(j, "rating")?,
                image: opt_obj::<Image>(j, "image")?,
                summary: opt_string(j, "summary")?,
                _links: req_obj::<Links>(j, "_links")?,
            },
        )
    }
}

} // verus!
