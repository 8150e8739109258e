//! The person entity and show-level credits.

use vstd::prelude::*;

use crate::error::DecodeError;
use crate::json::opt_date;
use crate::json::opt_obj;
use crate::json::opt_string;
use crate::json::req_bool;
use crate::json::req_obj;
use crate::json::req_string;
use crate::json::req_usize;
use crate::json::spec_opt_date;
use crate::json::spec_opt_obj_f;
use crate::json::spec_opt_string;
use crate::json::spec_req_bool;
use crate::json::spec_req_obj_f;
use crate::json::spec_req_string;
use crate::json::spec_req_usize;
use crate::json::FromJson;
use crate::json::Json;
use crate::models::spec_country_from;
use crate::models::spec_image_from;
use crate::models::spec_links_from;
use crate::models::time::TVMazeDate;
use crate::models::Country;
use crate::models::Image;
use crate::models::Links;

verus! {

/// One person.
#[derive(Clone, Debug, PartialEq)]
pub struct Person {
    pub id: usize,
    pub url: String,
    pub name: String,
    pub country: Option<Country>,
    pub birthday: Option<TVMazeDate>,
    pub deathday: Option<TVMazeDate>,
    pub gender: Option<String>,
    pub image: Option<Image>,
    pub updated: usize,
    pub _links: Links,
}

/// What decoding a `Person` returns on any JSON value: birth and death
/// days are `None` exactly when the wire field is null or missing, else
/// the date adapter's reading of the wire string.
pub open spec fn spec_person_from(j: Json) -> Result<Person, DecodeError> {
    let id = spec_req_usize(j, "id"@);
    let url = spec_req_string(j, "url"@);
    let name = spec_req_string(j, "name"@);
    let country = spec_opt_obj_f(j, "country"@, |x: Json| spec_country_from(x));
    let birthday = spec_opt_date(j, "birthday"@);
    let deathday = spec_opt_date(j, "deathday"@);
    let gender = spec_opt_string(j, "gender"@);
    let image = spec_opt_obj_f(j, "image"@, |x: Json| spec_image_from(x));
    let updated = spec_req_usize(j, "updated"@);
    let links = spec_req_obj_f(j, "_links"@, |x: Json| spec_links_from(x));
    if id is Err {
        Err(id->Err_0)
    } else if url is Err {
        Err(url->Err_0)
    } else if name is Err {
        Err(name->Err_0)
    } else if country is Err {
        Err(country->Err_0)
    } else if birthday is Err {
        Err(birthday->Err_0)
    } else if deathday is Err {
        Err(deathday->Err_0)
    } else if gender is Err {
        Err(gender->Err_0)
    } else if image is Err {
        Err(image->Err_0)
    } else if updated is Err {
        Err(updated->Err_0)
    } else if links is Err {
        Err(links->Err_0)
    } else {
        Ok(
            Person {
                id: id->Ok_0,
                url: url->Ok_0,
                name: name->Ok_0,
                country: country->Ok_0,
                birthday: birthday->Ok_0,
                deathday: deathday->Ok_0,
                gender: gender->Ok_0,
                image: image->Ok_0,
                updated: updated->Ok_0,
                _links: links->Ok_0,
            },
        )
    }
}

impl FromJson for Person {
    /// A decoded person's birth and death days denote real dates.
    open spec fn wf(&self) -> bool {
        &&& (self.birthday matches Some(d) ==> d.wf())
        &&& (self.deathday matches Some(d) ==> d.wf())
    }

    open spec fn jok(j: Json) -> bool {
        spec_person_from(j) is Ok
    }

    open spec fn decodes(j: Json, r: Result<Self, DecodeError>) -> bool {
        r == spec_person_from(j)
    }

    fn from_json(j: &Json) -> Result<Self, DecodeError> {
        Ok(
            Person {
                id: req_usize(j, "id")?,
                url: req_string(j, "url")?,
                name: req_string(j, "name")?,
                country: opt_obj::<Country>(j, "country")?,
                birthday: opt_date(j, "birthday")?,
                deathday: opt_date(j, "deathday")?,
                gender: opt_string(j, "gender")?,
                image: opt_obj::<Image>(j, "image")?,
                updated: req_usize(j, "updated")?,
                _links: req_obj::<Links>(j, "_links")?,
            },
        )
    }
}

/// A show-level crew credit. The wire field `type` maps to `kind`.
#[derive(Clone, Debug, PartialEq)]
pub struct CrewCredit {
    pub kind: String,
    pub _links: Links,
}

/// What decoding a `CrewCredit` returns on any JSON value.
pub open spec fn spec_crew_credit_from(j: Json) -> Result<CrewCredit, DecodeError> {
    let kind = spec_req_string(j, "type"@);
    let links = spec_req_obj_f(j, "_links"@, |x: Json| spec_links_from(x));
    if kind is Err {
        Err(kind->Err_0)
    } else if links is Err {
        Err(links->Err_0)
    } else {
        Ok(CrewCredit { kind: kind->Ok_0, _links: links->Ok_0 })
    }
}

impl FromJson for CrewCredit {
    open spec fn wf(&self) -> bool {
        true
    }

    open spec fn jok(j: Json) -> bool {
        spec_crew_credit_from(j) is Ok
    }

    open spec fn decodes(j: Json, r: Result<Self, DecodeError>) -> bool {
        r == spec_crew_credit_from(j)
    }

    fn from_json(j: &Json) -> Result<Self, DecodeError> {
        Ok(CrewCredit { kind: req_string(j, "type")?, _links: req_obj::<Links>(j, "_links")? })
    }
}

/// A show-level cast credit. The wire field `self` maps to `_self`.
#[derive(Clone, Debug, PartialEq)]
pub struct CastCredit {
    pub _self: bool,
    pub voice: bool,
    pub _links: Links,
}

/// What decoding a `CastCredit` returns on any JSON value.
pub open spec fn spec_cast_credit_from(j: Json) -> Result<CastCredit, DecodeError> {
    let s = spec_req_bool(j, "self"@);
    let voice = spec_req_bool(j, "voice"@);
    let links = spec_req_obj_f(j, "_links"@, |x: Json| spec_links_from(x));
    if s is Err {
        Err(s->Err_0)
    } else if voice is Err {
        Err(voice->Err_0)
    } else if links is Err {
        Err(links->Err_0)
    } else {
        Ok(CastCredit { _self: s->Ok_0, voice: voice->Ok_0, _links: links->Ok_0 })
    }
}

impl FromJson for CastCredit {
    open spec fn wf(&self) -> bool {
        true
    }

    open spec fn jok(j: Json) -> bool {
        spec_cast_credit_from(j) is Ok
    }

    open spec fn decodes(j: Json, r: Result<Self, DecodeError>) -> bool {
        r == spec_cast_credit_from(j)
    }

    fn from_json(j: &Json) -> Result<Self, DecodeError> {
        Ok(
            CastCredit {
                _self: req_bool(j, "self")?,
                voice: req_bool(j, "voice")?,
                _links: req_obj::<Links>(j, "_links")?,
            },
        )
    }
}

} // verus!
