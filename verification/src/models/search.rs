//! Search result wrappers: a relevancy score around a show or person.

use vstd::prelude::*;

use crate::error::DecodeError;
use crate::json::req_number_text;
use crate::json::req_obj;
use crate::json::spec_req_number_text;
use crate::json::spec_req_obj_err;
use crate::json::spec_req_obj_f;
use crate::json::spec_req_obj_is;
use crate::json::spec_req_obj_ok;
use crate::json::FromJson;
use crate::json::Json;
use crate::models::people::spec_person_from;
use crate::models::people::Person;
use crate::models::shows::Show;

verus! {

/// A show search hit. The fractional relevancy score is carried as its
/// rendered decimal text: the library stores no floating point.
#[derive(Clone, Debug, PartialEq)]
pub struct SearchResult {
    pub score: String,
    pub show: Show,
}

/// Decoding a `SearchResult` succeeds.
pub open spec fn spec_search_result_ok(j: Json) -> bool {
    spec_req_number_text(j, "score"@) is Ok && spec_req_obj_ok::<Show>(j, "show"@)
}

/// `t` is the decoding of `j` as a `SearchResult`.
pub open spec fn spec_search_result_is(j: Json, t: SearchResult) -> bool {
    &&& spec_req_number_text(j, "score"@) == Ok::<String, DecodeError>(t.score)
    &&& spec_req_obj_is::<Show>(j, "show"@, t.show)
}

/// `e` is the failure of decoding `j` as a `SearchResult`.
pub open spec fn spec_search_result_err(j: Json, e: DecodeError) -> bool {
    let score = spec_req_number_text(j, "score"@);
    if score is Err {
        e == score->Err_0
    } else {
        spec_req_obj_err::<Show>(j, "show"@, e)
    }
}

impl FromJson for SearchResult {
    open spec fn wf(&self) -> bool {
        self.show.wf()
    }

    open spec fn jok(j: Json) -> bool {
        spec_search_result_ok(j)
    }

    open spec fn decodes(j: Json, r: Result<Self, DecodeError>) -> bool {
        match r {
            Ok(t) => spec_search_result_ok(j) && spec_search_result_is(j, t),
            Err(e) => !spec_search_result_ok(j) && spec_search_result_err(j, e),
        }
    }

    fn from_json(j: &Json) -> Result<Self, DecodeError> {
        Ok(
            SearchResult {
                score: req_number_text(j, "score")?,
                show: req_obj::<Show>(j, "show")?,
            },
        )
    }
}

/// A person search hit.
#[derive(Clone, Debug, PartialEq)]
pub struct SearchResultPerson {
    pub score: String,
    pub person: Person,
}

/// What decoding a `SearchResultPerson` returns on any JSON value.
pub open spec fn spec_search_result_person_from(j: Json) -> Result<
    SearchResultPerson,
    DecodeError,
> {
    let score = spec_req_number_text(j, "score"@);
    let person = spec_req_obj_f(j, "person"@, |x: Json| spec_person_from(x));
    if score is Err {
        Err(score->Err_0)
    } else if person is Err {
        Err(person->Err_0)
    } else {
        Ok(SearchResultPerson { score: score->Ok_0, person: person->Ok_0 })
    }
}

impl FromJson for SearchResultPerson {
    open spec fn wf(&self) -> bool {
        self.person.wf()
    }

    open spec fn jok(j: Json) -> bool {
        spec_search_result_person_from(j) is Ok
    }

    open spec fn decodes(j: Json, r: Result<Self, DecodeError>) -> bool {
        r == spec_search_result_person_from(j)
    }

    fn from_json(j: &Json) -> Result<Self, DecodeError> {
        Ok(
            SearchResultPerson {
                score: req_number_text(j, "score")?,
                person: req_obj::<Person>(j, "person")?,
            },
        )
    }
}

} // verus!
