//! The response classifier: one contract, reused by every endpoint.
//!
//! For an absence-meaningful endpoint a 404 status is the sanctioned "no
//! such resource" signal: it yields the absent outcome regardless of the
//! body, and it is the only status that does. Any other status has its
//! body parsed — `json_of` names the parse — and decoded by the entity's
//! decode relation; a failure is surfaced, never folded into absence.
//! Collection endpoints never classify: the service represents a missing
//! collection as an empty array, so their bodies decode unconditionally.
//!
//! Transport failures happen before a status and body exist, so they
//! short-circuit in the caller before anything reaches this module.

use std::collections::HashMap;

use vstd::prelude::*;

use crate::digits::all_digits;
use crate::digits::dec_val;
use crate::digits::parse_u64;
use crate::error::DecodeError;
use crate::json::json_of;
use crate::json::json_parse;
use crate::json::spec_arr_all_ok;
use crate::json::spec_arr_decoded;
use crate::json::spec_arr_err;
use crate::json::vec_from_json;
use crate::json::FromJson;
use crate::json::Json;
use crate::json::JsonPair;

verus! {

broadcast use vstd::std_specs::hash::group_hash_axioms;

/// What classifying a non-404 response yields, given the parse of its
/// body: no parse is a syntax error; a decoding body is the present
/// decoded value; a non-decoding body is its decode failure.
pub open spec fn spec_classified<T: FromJson>(
    p: Option<Json>,
    r: Result<Option<T>, DecodeError>,
) -> bool {
    match p {
        None => r == Err::<Option<T>, DecodeError>(DecodeError::Syntax),
        Some(j) => match r {
            Ok(Some(t)) => T::jok(j) && T::decodes(j, Ok(t)),
            Ok(None) => false,
            Err(e) => !T::jok(j) && T::decodes(j, Err(e)),
        },
    }
}

/// Classifies an absence-meaningful single-resource response.
///
/// `Ok(None)` exactly when the status is 404, whatever the body holds.
/// Otherwise the result is fixed by the body: syntax error for non-JSON,
/// the decoded entity — every field mapped per its decode relation — for
/// a body of the entity's shape, and that shape's decode failure for any
/// other body. Every decoded value is well formed.
pub fn classify<T: FromJson>(status: u16, body: &str) -> (r: Result<Option<T>, DecodeError>)
    ensures
        status == 404 <==> r == Ok::<Option<T>, DecodeError>(None::<T>),
        status != 404 ==> spec_classified::<T>(json_of(body@), r),
        r matches Ok(Some(t)) ==> t.wf(),
{
    if status == 404 {
        return Ok(None);
    }
    let v = match json_parse(body) {
        Some(v) => v,
        None => return Err(DecodeError::Syntax),
    };
    match T::from_json(&v) {
        Ok(t) => Ok(Some(t)),
        Err(e) => Err(e),
    }
}

/// What decoding a collection response yields, given the parse of its
/// body: one decoded element per document element, in document order.
pub open spec fn spec_decoded_list<T: FromJson>(
    p: Option<Json>,
    r: Result<Vec<T>, DecodeError>,
) -> bool {
    match p {
        None => r == Err::<Vec<T>, DecodeError>(DecodeError::Syntax),
        Some(j) => match r {
            Ok(xs) => spec_arr_all_ok::<T>(j) && spec_arr_decoded::<T>(j, xs),
            Err(e) => !spec_arr_all_ok::<T>(j) && spec_arr_err::<T>(j, e),
        },
    }
}

/// Decodes a collection response unconditionally: an empty array is a
/// valid success, and the elements keep the body's order — never
/// re-sorted, never filtered.
pub fn decode_list<T: FromJson>(body: &str) -> (r: Result<Vec<T>, DecodeError>)
    ensures
        spec_decoded_list::<T>(json_of(body@), r),
        r matches Ok(xs) ==> forall|i: int| 0 <= i < xs@.len() ==> (#[trigger] xs@[i]).wf(),
{
    let v = match json_parse(body) {
        Some(v) => v,
        None => return Err(DecodeError::Syntax),
    };
    vec_from_json::<T>(&v)
}

/// Classifies an absence-meaningful collection response: absent exactly
/// on 404, otherwise the body must decode as an array of `T` in document
/// order.
pub fn classify_list<T: FromJson>(status: u16, body: &str) -> (r: Result<
    Option<Vec<T>>,
    DecodeError,
>)
    ensures
        status == 404 <==> r == Ok::<Option<Vec<T>>, DecodeError>(None::<Vec<T>>),
        status != 404 ==> match (json_of(body@), r) {
            (None, _) => r == Err::<Option<Vec<T>>, DecodeError>(DecodeError::Syntax),
            (Some(j), Ok(Some(xs))) => spec_arr_all_ok::<T>(j) && spec_arr_decoded::<T>(j, xs),
            (Some(j), Ok(None)) => false,
            (Some(j), Err(e)) => !spec_arr_all_ok::<T>(j) && spec_arr_err::<T>(j, e),
        },
        r matches Ok(Some(xs)) ==> forall|i: int| 0 <= i < xs@.len() ==> (#[trigger] xs@[i]).wf(),
{
    if status == 404 {
        return Ok(None);
    }
    match decode_list::<T>(body) {
        Ok(xs) => Ok(Some(xs)),
        Err(e) => Err(e),
    }
}

/// One pair of an update feed decodes: the key is a decimal id and the
/// value an unsigned timestamp, both fitting a machine word.
pub open spec fn spec_update_pair_ok(p: JsonPair) -> bool {
    &&& p.key@.len() > 0
    &&& all_digits(p.key@)
    &&& dec_val(p.key@) <= usize::MAX
    &&& (p.value matches Json::Num(_, Some(n)) && n <= usize::MAX)
}

/// Decoding an update feed succeeds: the body is an object of such pairs.
pub open spec fn spec_updates_ok(j: Json) -> bool {
    match j {
        Json::Obj(ps) => forall|i: int| 0 <= i < ps@.len() ==> spec_update_pair_ok(#[trigger] ps@[i]),
        _ => false,
    }
}

/// The map an update feed's pairs denote, later pairs winning.
pub open spec fn spec_updates_map(ps: Seq<JsonPair>) -> Map<usize, usize>
    decreases ps.len(),
{
    if ps.len() == 0 {
        Map::empty()
    } else {
        let p = ps.last();
        let m = spec_updates_map(ps.drop_last());
        match p.value {
            Json::Num(_, Some(n)) => m.insert(dec_val(p.key@) as usize, n as usize),
            _ => m,
        }
    }
}

/// Decodes an update feed: a JSON object from decimal resource ids to
/// update timestamps. The returned map holds exactly the body object's
/// pairs.
#[verifier::loop_isolation(false)]
pub fn decode_updates(body: &str) -> (r: Result<HashMap<usize, usize>, DecodeError>)
    ensures
        match json_of(body@) {
            None => r == Err::<HashMap<usize, usize>, DecodeError>(DecodeError::Syntax),
            Some(j) => {
                &&& (r is Ok <==> spec_updates_ok(j))
                &&& (r matches Ok(m) ==> (j matches Json::Obj(ps) && m@ == spec_updates_map(ps@)))
                &&& (r matches Err(e) ==> e == DecodeError::Syntax || e == DecodeError::Field || e
                    == DecodeError::Range)
            },
        },
{
    let v = match json_parse(body) {
        Some(v) => v,
        None => return Err(DecodeError::Syntax),
    };
    let ps = match &v {
        Json::Obj(ps) => ps,
        _ => {
            proof {
                assert(!spec_updates_ok(v));
            }
            return Err(DecodeError::Field);
        },
    };
    let mut out: HashMap<usize, usize> = HashMap::new();
    let mut i: usize = 0;
    while i < ps.len()
        invariant
            0 <= i <= ps@.len(),
            forall|k: int| 0 <= k < i ==> spec_update_pair_ok(#[trigger] ps@[k]),
            out@ == spec_updates_map(ps@.take(i as int)),
        decreases ps@.len() - i,
    {
        let id64 = match parse_u64(ps[i].key.as_str()) {
            Some(n) => n,
            None => {
                proof {
                    assert(!spec_update_pair_ok(ps@[i as int]));
                }
                return Err(DecodeError::Field);
            },
        };
        if id64 > usize::MAX as u64 {
            proof {
                assert(!spec_update_pair_ok(ps@[i as int]));
            }
            return Err(DecodeError::Range);
        }
        let ts64 = match &ps[i].value {
            Json::Num(_, Some(n)) => *n,
            _ => {
                proof {
                    assert(!spec_update_pair_ok(ps@[i as int]));
                }
                return Err(DecodeError::Field);
            },
        };
        if ts64 > usize::MAX as u64 {
            proof {
                assert(!spec_update_pair_ok(ps@[i as int]));
            }
            return Err(DecodeError::Range);
        }
        out.insert(id64 as usize, ts64 as usize);
        proof {
            assert(ps@.take(i as int + 1).drop_last() =~= ps@.take(i as int));
            assert(ps@.take(i as int + 1).last() == ps@[i as int]);
        }
        i += 1;
    }
    proof {
        assert(ps@.take(ps@.len() as int) =~= ps@);
    }
    Ok(out)
}

} // verus!
