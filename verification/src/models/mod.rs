//! The domain model: passive value objects mirroring the service's JSON
//! shapes, each with its decode step and the open spec function that pins
//! it. All optional remote fields are optional values here; absence is a
//! valid, non-error state.
//!
//! A wire field whose JSON key differs from the field name (`self`,
//! `type`, `averageRuntime`, …) is remapped inside the type's decode; the
//! remapping lives nowhere else.

use vstd::prelude::*;

pub mod episodes;
pub mod people;
pub mod search;
pub mod shows;
pub mod time;

use crate::error::DecodeError;
use crate::json::opt_number_text;
use crate::json::opt_obj;
use crate::json::req_string;
use crate::json::spec_opt_number_text;
use crate::json::spec_opt_obj_f;
use crate::json::spec_req_string;
use crate::json::FromJson;
use crate::json::Json;

verus! {

/// A country, as attached to networks, people and AKAs.
#[derive(Clone, Debug, PartialEq)]
pub struct Country {
    pub name: String,
    pub code: String,
    pub timezone: String,
}

/// What decoding a `Country` returns on any JSON value.
pub open spec fn spec_country_from(j: Json) -> Result<Country, DecodeError> {
    let name = spec_req_string(j, "name"@);
    let code = spec_req_string(j, "code"@);
    let timezone = spec_req_string(j, "timezone"@);
    if name is Err {
        Err(name->Err_0)
    } else if code is Err {
        Err(code->Err_0)
    } else if timezone is Err {
        Err(timezone->Err_0)
    } else {
        Ok(Country { name: name->Ok_0, code: code->Ok_0, timezone: timezone->Ok_0 })
    }
}

impl FromJson for Country {
    open spec fn wf(&self) -> bool {
        true
    }

    open spec fn jok(j: Json) -> bool {
        spec_country_from(j) is Ok
    }

    open spec fn decodes(j: Json, r: Result<Self, DecodeError>) -> bool {
        r == spec_country_from(j)
    }

    fn from_json(j: &Json) -> Result<Self, DecodeError> {
        Ok(
            Country {
                name: req_string(j, "name")?,
                code: req_string(j, "code")?,
                timezone: req_string(j, "timezone")?,
            },
        )
    }
}

/// A pair of image URLs.
#[derive(Clone, Debug, PartialEq)]
pub struct Image {
    pub medium: String,
    pub original: String,
}

/// What decoding an `Image` returns on any JSON value.
pub open spec fn spec_image_from(j: Json) -> Result<Image, DecodeError> {
    let medium = spec_req_string(j, "medium"@);
    let original = spec_req_string(j, "original"@);
    if medium is Err {
        Err(medium->Err_0)
    } else if original is Err {
        Err(original->Err_0)
    } else {
        Ok(Image { medium: medium->Ok_0, original: original->Ok_0 })
    }
}

impl FromJson for Image {
    open spec fn wf(&self) -> bool {
        true
    }

    open spec fn jok(j: Json) -> bool {
        spec_image_from(j) is Ok
    }

    open spec fn decodes(j: Json, r: Result<Self, DecodeError>) -> bool {
        r == spec_image_from(j)
    }

    fn from_json(j: &Json) -> Result<Self, DecodeError> {
        Ok(Image { medium: req_string(j, "medium")?, original: req_string(j, "original")? })
    }
}

/// A single hyperlink reference.
#[derive(Clone, Debug, PartialEq)]
pub struct Hrefed {
    pub href: String,
}

/// What decoding an `Hrefed` returns on any JSON value.
pub open spec fn spec_hrefed_from(j: Json) -> Result<Hrefed, DecodeError> {
    let href = spec_req_string(j, "href"@);
    if href is Err {
        Err(href->Err_0)
    } else {
        Ok(Hrefed { href: href->Ok_0 })
    }
}

impl FromJson for Hrefed {
    open spec fn wf(&self) -> bool {
        true
    }

    open spec fn jok(j: Json) -> bool {
        spec_hrefed_from(j) is Ok
    }

    open spec fn decodes(j: Json, r: Result<Self, DecodeError>) -> bool {
        r == spec_hrefed_from(j)
    }

    fn from_json(j: &Json) -> Result<Self, DecodeError> {
        Ok(Hrefed { href: req_string(j, "href")? })
    }
}

/// The `_links` block. The wire key `self` maps to `_self`.
#[derive(Clone, Debug, PartialEq)]
pub struct Links {
    pub _self: Option<Hrefed>,
    pub previousepisode: Option<Hrefed>,
}

/// What decoding a `Links` returns on any JSON value: the wire key `self`
/// fills `_self`.
pub open spec fn spec_links_from(j: Json) -> Result<Links, DecodeError> {
    let s = spec_opt_obj_f(j, "self"@, |x: Json| spec_hrefed_from(x));
    let p = spec_opt_obj_f(j, "previousepisode"@, |x: Json| spec_hrefed_from(x));
    if s is Err {
        Err(s->Err_0)
    } else if p is Err {
        Err(p->Err_0)
    } else {
        Ok(Links { _self: s->Ok_0, previousepisode: p->Ok_0 })
    }
}

impl FromJson for Links {
    open spec fn wf(&self) -> bool {
        true
    }

    open spec fn jok(j: Json) -> bool {
        spec_links_from(j) is Ok
    }

    open spec fn decodes(j: Json, r: Result<Self, DecodeError>) -> bool {
        r == spec_links_from(j)
    }

    fn from_json(j: &Json) -> Result<Self, DecodeError> {
        Ok(
            Links {
                _self: opt_obj::<Hrefed>(j, "self")?,
                previousepisode: opt_obj::<Hrefed>(j, "previousepisode")?,
            },
        )
    }
}

/// An aggregate rating. The service sends a fractional number; the library
/// carries its rendered decimal text, keeping floating point outside the
/// verified core.
#[derive(Clone, Debug, PartialEq)]
pub struct Rating {
    pub average: Option<String>,
}

/// What decoding a `Rating` returns on any JSON value.
pub open spec fn spec_rating_from(j: Json) -> Result<Rating, DecodeError> {
    let average = spec_opt_number_text(j, "average"@);
    if average is Err {
        Err(average->Err_0)
    } else {
        Ok(Rating { average: average->Ok_0 })
    }
}

impl FromJson for Rating {
    open spec fn wf(&self) -> bool {
        true
    }

    open spec fn jok(j: Json) -> bool {
        spec_rating_from(j) is Ok
    }

    open spec fn decodes(j: Json, r: Result<Self, DecodeError>) -> bool {
        r == spec_rating_from(j)
    }

    fn from_json(j: &Json) -> Result<Self, DecodeError> {
        Ok(Rating { average: opt_number_text(j, "average")? })
    }
}

} // verus!
