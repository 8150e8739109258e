//! The boundary to the JSON decoder, and the decode algebra on top of it.
//!
//! The library never parses JSON text itself: `serde_json` does, behind the
//! trusted items below, which hand the parsed tree over one-for-one as
//! the transparent [`Json`] type. `json_of` names the parse result, so
//! every decode contract downstream — field lookup, typing, the strict
//! temporal strings, whole entities — is exact over the body text, and a
//! malformed field always becomes a `DecodeError`, never a panic.

use vstd::prelude::*;

use crate::error::DecodeError;
use crate::models::time::date_str_wf;
use crate::models::time::num2;
use crate::models::time::num4;
use crate::models::time::parse_date;
use crate::models::time::parse_stamp;
use crate::models::time::parse_time;
use crate::models::time::stamp_offset_minutes;
use crate::models::time::stamp_str_wf;
use crate::models::time::time_str_wf;
use crate::models::time::ClockTime;
use crate::models::time::TVMazeDate;
use crate::models::time::TVMazeDateTime;
use crate::models::time::TVMazeTime;

verus! {

broadcast use vstd::std_specs::control_flow::group_control_flow_axioms;

/// A parsed JSON document, as the library sees it.
///
/// Numbers carry their rendering — the text `serde_json` prints for the
/// parsed number, which for a non-integer is a re-rendering of the wire
/// literal — together with their `u64` value when they are an unsigned
/// integer in range; the library stores no floating point. Objects carry
/// their pairs in the decoder map's iteration order.
#[derive(Debug)]
pub enum Json {
    Null,
    Bool(bool),
    Num(String, Option<u64>),
    Str(String),
    Arr(Vec<Json>),
    Obj(Vec<JsonPair>),
}

/// One key/value pair of a JSON object.
#[derive(Debug)]
pub struct JsonPair {
    pub key: String,
    pub value: Json,
}

/// What parsing a text as JSON yields: `None` when the text is not valid
/// JSON, otherwise the document tree. This names the (deterministic)
/// result of `serde_json::from_str::<Value>`.
pub uninterp spec fn json_of(s: Seq<char>) -> Option<Json>;

#[verifier::external_type_specification]
#[verifier::external_body]
pub struct ExValue(serde_json::Value);

/// The conversion half of [`json_parse`]: relies on the shape of
/// `serde_json::Value` (one `Json` variant per `Value` variant, fields
/// moved over), on `Number`'s `Display` for the rendering, and on
/// `Number::as_u64` for the integer value.
#[verifier::external_body]
fn value_to_json(v: &serde_json::Value) -> Json {
    match v {
        serde_json::Value::Null => Json::Null,
        serde_json::Value::Bool(b) => Json::Bool(*b),
        serde_json::Value::Number(n) => Json::Num(n.to_string(), n.as_u64()),
        serde_json::Value::String(s) => Json::Str(s.clone()),
        serde_json::Value::Array(a) => Json::Arr(a.iter().map(value_to_json).collect()),
        serde_json::Value::Object(m) => Json::Obj(
            m.iter().map(|(k, x)| JsonPair { key: k.clone(), value: value_to_json(x) }).collect(),
        ),
    }
}

/// Relies on `serde_json::from_str::<Value>`: parses the document —
/// `None` exactly when the text is not valid JSON — and hands the tree
/// over one-for-one through [`value_to_json`].
#[verifier::external_body]
pub(crate) fn json_parse(s: &str) -> (r: Option<Json>)
    ensures
        r == json_of(s@),
{
    serde_json::from_str::<serde_json::Value>(s).ok().map(|v| value_to_json(&v))
}

fn str_eq(a: &str, b: &str) -> (r: bool)
    ensures
        r == (a@ == b@),
{
    let la = a.unicode_len();
    let lb = b.unicode_len();
    if la != lb {
        return false;
    }
    let mut i: usize = 0;
    while i < la
        invariant
            0 <= i <= la,
            la == a@.len(),
            la == b@.len(),
            forall|k: int| 0 <= k < i ==> a@[k] == b@[k],
        decreases la - i,
    {
        if a.get_char(i) != b.get_char(i) {
            return false;
        }
        i += 1;
    }
    proof {
        assert(a@ =~= b@);
    }
    true
}

/// The value under `key` in an object's pair list: the first pair whose
/// key matches.
pub open spec fn spec_lookup(ps: Seq<JsonPair>, key: Seq<char>) -> Option<Json>
    decreases ps.len(),
{
    if ps.len() == 0 {
        None
    } else if ps[0].key@ == key {
        Some(ps[0].value)
    } else {
        spec_lookup(ps.drop_first(), key)
    }
}

/// The value under `key` when `j` is an object holding that key.
pub open spec fn spec_get(j: Json, key: Seq<char>) -> Option<Json> {
    match j {
        Json::Obj(ps) => spec_lookup(ps@, key),
        _ => None,
    }
}

/// The field under `key`, with JSON `null`, a missing key, and a
/// non-object all treated as absence.
pub open spec fn spec_field(j: Json, key: Seq<char>) -> Option<Json> {
    match spec_get(j, key) {
        None => None,
        Some(x) => if x is Null {
            None
        } else {
            Some(x)
        },
    }
}

fn obj_get<'a>(ps: &'a Vec<JsonPair>, key: &str) -> (r: Option<&'a Json>)
    ensures
        match r {
            None => spec_lookup(ps@, key@) is None,
            Some(x) => spec_lookup(ps@, key@) == Some(*x),
        },
{
    let mut i: usize = 0;
    proof {
        assert(ps@.skip(0) =~= ps@);
    }
    while i < ps.len()
        invariant
            0 <= i <= ps@.len(),
            spec_lookup(ps@, key@) == spec_lookup(ps@.skip(i as int), key@),
        decreases ps@.len() - i,
    {
        proof {
            assert(ps@.skip(i as int)[0] == ps@[i as int]);
            assert(ps@.skip(i as int).drop_first() =~= ps@.skip(i as int + 1));
        }
        if str_eq(ps[i].key.as_str(), key) {
            return Some(&ps[i].value);
        }
        i += 1;
    }
    proof {
        assert(ps@.skip(ps@.len() as int).len() == 0);
    }
    None
}

/// The executable form of [`spec_field`].
pub(crate) fn field<'a>(j: &'a Json, key: &str) -> (r: Option<&'a Json>)
    ensures
        match r {
            None => spec_field(*j, key@) is None,
            Some(x) => spec_field(*j, key@) == Some(*x),
        },
{
    match j {
        Json::Obj(ps) => match obj_get(ps, key) {
            None => None,
            Some(x) => match x {
                Json::Null => None,
                _ => Some(x),
            },
        },
        _ => None,
    }
}

// ---------------------------------------------------------------------
// Scalar fields: each executable helper returns exactly what its spec
// twin reads out of the tree.
// ---------------------------------------------------------------------

/// A required unsigned integer field.
pub open spec fn spec_req_u64(j: Json, key: Seq<char>) -> Result<u64, DecodeError> {
    match spec_field(j, key) {
        None => Err(DecodeError::Field),
        Some(x) => match x {
            Json::Num(_, Some(n)) => Ok(n),
            _ => Err(DecodeError::Field),
        },
    }
}

pub(crate) fn req_u64(j: &Json, key: &str) -> (r: Result<u64, DecodeError>)
    ensures
        r == spec_req_u64(*j, key@),
{
    match field(j, key) {
        None => Err(DecodeError::Field),
        Some(x) => match x {
            Json::Num(_, Some(n)) => Ok(*n),
            _ => Err(DecodeError::Field),
        },
    }
}

pub open spec fn spec_u64_to_usize(n: u64) -> Result<usize, DecodeError> {
    if n <= usize::MAX {
        Ok(n as usize)
    } else {
        Err(DecodeError::Range)
    }
}

fn u64_to_usize(n: u64) -> (r: Result<usize, DecodeError>)
    ensures
        r == spec_u64_to_usize(n),
{
    if n <= usize::MAX as u64 {
        Ok(n as usize)
    } else {
        Err(DecodeError::Range)
    }
}

/// A required unsigned integer field that must fit a machine word.
pub open spec fn spec_req_usize(j: Json, key: Seq<char>) -> Result<usize, DecodeError> {
    match spec_req_u64(j, key) {
        Ok(n) => spec_u64_to_usize(n),
        Err(e) => Err(e),
    }
}

pub(crate) fn req_usize(j: &Json, key: &str) -> (r: Result<usize, DecodeError>)
    ensures
        r == spec_req_usize(*j, key@),
{
    let n = req_u64(j, key)?;
    u64_to_usize(n)
}

/// An optional unsigned integer field.
pub open spec fn spec_opt_usize(j: Json, key: Seq<char>) -> Result<Option<usize>, DecodeError> {
    match spec_field(j, key) {
        None => Ok(None),
        Some(x) => match x {
            Json::Num(_, Some(n)) => match spec_u64_to_usize(n) {
                Ok(m) => Ok(Some(m)),
                Err(e) => Err(e),
            },
            _ => Err(DecodeError::Field),
        },
    }
}

pub(crate) fn opt_usize(j: &Json, key: &str) -> (r: Result<Option<usize>, DecodeError>)
    ensures
        r == spec_opt_usize(*j, key@),
{
    match field(j, key) {
        None => Ok(None),
        Some(x) => match x {
            Json::Num(_, Some(n)) => match u64_to_usize(*n) {
                Ok(m) => Ok(Some(m)),
                Err(e) => Err(e),
            },
            _ => Err(DecodeError::Field),
        },
    }
}

/// A required string field.
pub open spec fn spec_req_string(j: Json, key: Seq<char>) -> Result<String, DecodeError> {
    match spec_field(j, key) {
        None => Err(DecodeError::Field),
        Some(x) => match x {
            Json::Str(s) => Ok(s),
            _ => Err(DecodeError::Field),
        },
    }
}

pub(crate) fn req_string(j: &Json, key: &str) -> (r: Result<String, DecodeError>)
    ensures
        r == spec_req_string(*j, key@),
{
    match field(j, key) {
        None => Err(DecodeError::Field),
        Some(x) => match x {
            Json::Str(s) => Ok(s.clone()),
            _ => Err(DecodeError::Field),
        },
    }
}

/// An optional string field.
pub open spec fn spec_opt_string(j: Json, key: Seq<char>) -> Result<Option<String>, DecodeError> {
    match spec_field(j, key) {
        None => Ok(None),
        Some(x) => match x {
            Json::Str(s) => Ok(Some(s)),
            _ => Err(DecodeError::Field),
        },
    }
}

pub(crate) fn opt_string(j: &Json, key: &str) -> (r: Result<Option<String>, DecodeError>)
    ensures
        r == spec_opt_string(*j, key@),
{
    match field(j, key) {
        None => Ok(None),
        Some(x) => match x {
            Json::Str(s) => Ok(Some(s.clone())),
            _ => Err(DecodeError::Field),
        },
    }
}

/// A required boolean field.
pub open spec fn spec_req_bool(j: Json, key: Seq<char>) -> Result<bool, DecodeError> {
    match spec_field(j, key) {
        None => Err(DecodeError::Field),
        Some(x) => match x {
            Json::Bool(b) => Ok(b),
            _ => Err(DecodeError::Field),
        },
    }
}

pub(crate) fn req_bool(j: &Json, key: &str) -> (r: Result<bool, DecodeError>)
    ensures
        r == spec_req_bool(*j, key@),
{
    match field(j, key) {
        None => Err(DecodeError::Field),
        Some(x) => match x {
            Json::Bool(b) => Ok(*b),
            _ => Err(DecodeError::Field),
        },
    }
}

/// An optional field carrying a number, kept as its rendered decimal
/// text: the library stores no floating point.
pub open spec fn spec_opt_number_text(j: Json, key: Seq<char>) -> Result<
    Option<String>,
    DecodeError,
> {
    match spec_field(j, key) {
        None => Ok(None),
        Some(x) => match x {
            Json::Num(text, _) => Ok(Some(text)),
            _ => Err(DecodeError::Field),
        },
    }
}

pub(crate) fn opt_number_text(j: &Json, key: &str) -> (r: Result<Option<String>, DecodeError>)
    ensures
        r == spec_opt_number_text(*j, key@),
{
    match field(j, key) {
        None => Ok(None),
        Some(x) => match x {
            Json::Num(text, _) => Ok(Some(text.clone())),
            _ => Err(DecodeError::Field),
        },
    }
}

/// A required field carrying a number, kept as its rendered decimal text.
pub open spec fn spec_req_number_text(j: Json, key: Seq<char>) -> Result<String, DecodeError> {
    match spec_opt_number_text(j, key) {
        Ok(None) => Err(DecodeError::Field),
        Ok(Some(s)) => Ok(s),
        Err(e) => Err(e),
    }
}

pub(crate) fn req_number_text(j: &Json, key: &str) -> (r: Result<String, DecodeError>)
    ensures
        r == spec_req_number_text(*j, key@),
{
    match opt_number_text(j, key)? {
        None => Err(DecodeError::Field),
        Some(s) => Ok(s),
    }
}

// ---------------------------------------------------------------------
// Temporal fields, through the three strict adapters.
// ---------------------------------------------------------------------

/// What the date adapter returns on a string.
pub open spec fn spec_parse_date(s: Seq<char>) -> Result<TVMazeDate, DecodeError> {
    if date_str_wf(s) {
        Ok(TVMazeDate { year: num4(s, 0) as u16, month: num2(s, 5) as u8, day: num2(s, 8) as u8 })
    } else {
        Err(DecodeError::Date)
    }
}

/// What the time adapter returns on a string.
pub open spec fn spec_parse_time(s: Seq<char>) -> Result<TVMazeTime, DecodeError> {
    if s.len() == 0 {
        Ok(TVMazeTime { time: None })
    } else if time_str_wf(s) {
        Ok(TVMazeTime { time: Some(ClockTime { hour: num2(s, 0) as u8, minute: num2(s, 3) as u8 }) })
    } else {
        Err(DecodeError::Time)
    }
}

/// What the offset date-time adapter returns on a string.
pub open spec fn spec_parse_stamp(s: Seq<char>) -> Result<TVMazeDateTime, DecodeError> {
    if stamp_str_wf(s) {
        Ok(
            TVMazeDateTime {
                date: TVMazeDate {
                    year: num4(s, 0) as u16,
                    month: num2(s, 5) as u8,
                    day: num2(s, 8) as u8,
                },
                time: ClockTime { hour: num2(s, 11) as u8, minute: num2(s, 14) as u8 },
                second: num2(s, 17) as u8,
                offset_minutes: stamp_offset_minutes(s) as i32,
            },
        )
    } else {
        Err(DecodeError::Timestamp)
    }
}

/// An optional strict-date field. A malformed date string fails the whole
/// decode of the enclosing entity.
pub open spec fn spec_opt_date(j: Json, key: Seq<char>) -> Result<Option<TVMazeDate>, DecodeError> {
    match spec_field(j, key) {
        None => Ok(None),
        Some(x) => match x {
            Json::Str(s) => match spec_parse_date(s@) {
                Ok(d) => Ok(Some(d)),
                Err(e) => Err(e),
            },
            _ => Err(DecodeError::Field),
        },
    }
}

pub(crate) fn opt_date(j: &Json, key: &str) -> (r: Result<Option<TVMazeDate>, DecodeError>)
    ensures
        r == spec_opt_date(*j, key@),
        r matches Ok(Some(d)) ==> d.wf(),
{
    match field(j, key) {
        None => Ok(None),
        Some(x) => match x {
            Json::Str(s) => match parse_date(s.as_str()) {
                Ok(d) => Ok(Some(d)),
                Err(e) => Err(e),
            },
            _ => Err(DecodeError::Field),
        },
    }
}

/// A required strict-date field.
pub open spec fn spec_req_date(j: Json, key: Seq<char>) -> Result<TVMazeDate, DecodeError> {
    match spec_field(j, key) {
        None => Err(DecodeError::Field),
        Some(x) => match x {
            Json::Str(s) => spec_parse_date(s@),
            _ => Err(DecodeError::Field),
        },
    }
}

pub(crate) fn req_date(j: &Json, key: &str) -> (r: Result<TVMazeDate, DecodeError>)
    ensures
        r == spec_req_date(*j, key@),
        r matches Ok(d) ==> d.wf(),
{
    match field(j, key) {
        None => Err(DecodeError::Field),
        Some(x) => match x {
            Json::Str(s) => parse_date(s.as_str()),
            _ => Err(DecodeError::Field),
        },
    }
}

/// A required time-of-day field; the empty string means "absent time".
pub open spec fn spec_req_time(j: Json, key: Seq<char>) -> Result<TVMazeTime, DecodeError> {
    match spec_field(j, key) {
        None => Err(DecodeError::Field),
        Some(x) => match x {
            Json::Str(s) => spec_parse_time(s@),
            _ => Err(DecodeError::Field),
        },
    }
}

pub(crate) fn req_time(j: &Json, key: &str) -> (r: Result<TVMazeTime, DecodeError>)
    ensures
        r == spec_req_time(*j, key@),
        r matches Ok(t) ==> t.wf(),
{
    match field(j, key) {
        None => Err(DecodeError::Field),
        Some(x) => match x {
            Json::Str(s) => parse_time(s.as_str()),
            _ => Err(DecodeError::Field),
        },
    }
}

/// A required offset date-time field.
pub open spec fn spec_req_stamp(j: Json, key: Seq<char>) -> Result<TVMazeDateTime, DecodeError> {
    match spec_field(j, key) {
        None => Err(DecodeError::Field),
        Some(x) => match x {
            Json::Str(s) => spec_parse_stamp(s@),
            _ => Err(DecodeError::Field),
        },
    }
}

pub(crate) fn req_stamp(j: &Json, key: &str) -> (r: Result<TVMazeDateTime, DecodeError>)
    ensures
        r == spec_req_stamp(*j, key@),
        r matches Ok(t) ==> t.wf(),
{
    match field(j, key) {
        None => Err(DecodeError::Field),
        Some(x) => match x {
            Json::Str(s) => parse_stamp(s.as_str()),
            _ => Err(DecodeError::Field),
        },
    }
}

// ---------------------------------------------------------------------
// Entities and collections of entities.
// ---------------------------------------------------------------------

/// A domain type that decodes itself from one JSON value.
pub trait FromJson: Sized {
    /// The well-formedness invariant that every decoded value satisfies.
    spec fn wf(&self) -> bool;

    /// Whether decoding `j` as `Self` succeeds.
    spec fn jok(j: Json) -> bool;

    /// The decode relation: holds exactly of the result `from_json`
    /// returns on `j`. For scalar-only types this is an equation with an
    /// open spec function; for types carrying vectors it pins the length
    /// and every element.
    spec fn decodes(j: Json, r: Result<Self, DecodeError>) -> bool;

    /// Decodes `j`. The result is the one the decode relation describes:
    /// success exactly when the value has the entity's shape, every field
    /// mapped from its wire key, and a named failure otherwise — never
    /// silently absorbed.
    fn from_json(j: &Json) -> (r: Result<Self, DecodeError>)
        ensures
            Self::decodes(*j, r),
            r is Ok <==> Self::jok(*j),
            r matches Ok(t) ==> t.wf(),
    ;
}

/// A required-field helper over a functional entity spec: the field must
/// be present, and decodes by `f`.
pub open spec fn spec_req_obj_f<T>(
    j: Json,
    key: Seq<char>,
    f: spec_fn(Json) -> Result<T, DecodeError>,
) -> Result<T, DecodeError> {
    match spec_field(j, key) {
        None => Err(DecodeError::Field),
        Some(x) => f(x),
    }
}

/// An optional-field helper over a functional entity spec.
pub open spec fn spec_opt_obj_f<T>(
    j: Json,
    key: Seq<char>,
    f: spec_fn(Json) -> Result<T, DecodeError>,
) -> Result<Option<T>, DecodeError> {
    match spec_field(j, key) {
        None => Ok(None),
        Some(x) => match f(x) {
            Ok(t) => Ok(Some(t)),
            Err(e) => Err(e),
        },
    }
}

/// Decoding a required nested-entity field succeeds.
pub open spec fn spec_req_obj_ok<T: FromJson>(j: Json, key: Seq<char>) -> bool {
    match spec_field(j, key) {
        None => false,
        Some(x) => T::jok(x),
    }
}

/// `t` is the decoding of a required nested-entity field.
pub open spec fn spec_req_obj_is<T: FromJson>(j: Json, key: Seq<char>, t: T) -> bool {
    match spec_field(j, key) {
        None => false,
        Some(x) => T::decodes(x, Ok(t)),
    }
}

/// `e` is the failure of a required nested-entity field.
pub open spec fn spec_req_obj_err<T: FromJson>(j: Json, key: Seq<char>, e: DecodeError) -> bool {
    match spec_field(j, key) {
        None => e == DecodeError::Field,
        Some(x) => T::decodes(x, Err(e)),
    }
}

pub(crate) fn req_obj<T: FromJson>(j: &Json, key: &str) -> (r: Result<T, DecodeError>)
    ensures
        r is Ok <==> spec_req_obj_ok::<T>(*j, key@),
        r matches Ok(t) ==> spec_req_obj_is::<T>(*j, key@, t) && t.wf(),
        r matches Err(e) ==> spec_req_obj_err::<T>(*j, key@, e),
{
    match field(j, key) {
        None => Err(DecodeError::Field),
        Some(x) => T::from_json(x),
    }
}

/// Decoding an optional nested-entity field succeeds.
pub open spec fn spec_opt_obj_ok<T: FromJson>(j: Json, key: Seq<char>) -> bool {
    match spec_field(j, key) {
        None => true,
        Some(x) => T::jok(x),
    }
}

/// `o` is the decoding of an optional nested-entity field.
pub open spec fn spec_opt_obj_is<T: FromJson>(j: Json, key: Seq<char>, o: Option<T>) -> bool {
    match spec_field(j, key) {
        None => o is None,
        Some(x) => match o {
            Some(t) => T::decodes(x, Ok(t)),
            None => false,
        },
    }
}

/// `e` is the failure of an optional nested-entity field.
pub open spec fn spec_opt_obj_err<T: FromJson>(j: Json, key: Seq<char>, e: DecodeError) -> bool {
    match spec_field(j, key) {
        None => false,
        Some(x) => T::decodes(x, Err(e)),
    }
}

pub(crate) fn opt_obj<T: FromJson>(j: &Json, key: &str) -> (r: Result<Option<T>, DecodeError>)
    ensures
        r is Ok <==> spec_opt_obj_ok::<T>(*j, key@),
        r matches Ok(o) ==> spec_opt_obj_is::<T>(*j, key@, o),
        r matches Ok(Some(t)) ==> t.wf(),
        r matches Err(e) ==> spec_opt_obj_err::<T>(*j, key@, e),
{
    match field(j, key) {
        None => Ok(None),
        Some(x) => match T::from_json(x) {
            Ok(t) => Ok(Some(t)),
            Err(e) => Err(e),
        },
    }
}

/// `j` is an array whose every element decodes as `T`.
pub open spec fn spec_arr_all_ok<T: FromJson>(j: Json) -> bool {
    match j {
        Json::Arr(a) => forall|i: int| 0 <= i < a@.len() ==> T::jok(#[trigger] a@[i]),
        _ => false,
    }
}

/// `xs` is the element-wise decoding of the array `j`, in document order.
pub open spec fn spec_arr_decoded<T: FromJson>(j: Json, xs: Vec<T>) -> bool {
    match j {
        Json::Arr(a) => xs@.len() == a@.len() && forall|i: int|
            0 <= i < a@.len() ==> T::decodes(a@[i], Ok(#[trigger] xs@[i])),
        _ => false,
    }
}

/// `e` is a failure of decoding the array `j`: the failure of some
/// element, or the shape failure of a non-array.
pub open spec fn spec_arr_err<T: FromJson>(j: Json, e: DecodeError) -> bool {
    match j {
        Json::Arr(a) => exists|i: int| 0 <= i < a@.len() && T::decodes(#[trigger] a@[i], Err(e)),
        _ => e == DecodeError::Field,
    }
}

/// Decodes a JSON array into the element type, one element per document
/// element, in document order — never re-sorted, never filtered.
#[verifier::loop_isolation(false)]
pub(crate) fn vec_from_json<T: FromJson>(j: &Json) -> (r: Result<Vec<T>, DecodeError>)
    ensures
        r is Ok <==> spec_arr_all_ok::<T>(*j),
        r matches Ok(xs) ==> spec_arr_decoded::<T>(*j, xs),
        r matches Ok(xs) ==> forall|i: int| 0 <= i < xs@.len() ==> (#[trigger] xs@[i]).wf(),
        r matches Err(e) ==> spec_arr_err::<T>(*j, e),
{
    let a = match j {
        Json::Arr(a) => a,
        _ => { return Err(DecodeError::Field) },
    };
    let mut out: Vec<T> = Vec::new();
    let mut i: usize = 0;
    while i < a.len()
        invariant
            0 <= i <= a@.len(),
            out@.len() == i,
            forall|k: int| 0 <= k < i ==> T::jok(#[trigger] a@[k]),
            forall|k: int| 0 <= k < i ==> T::decodes(a@[k], Ok(#[trigger] out@[k])),
            forall|k: int| 0 <= k < i ==> (#[trigger] out@[k]).wf(),
        decreases a@.len() - i,
    {
        match T::from_json(&a[i]) {
            Ok(t) => out.push(t),
            Err(e) => {
                proof {
                    assert(!T::jok(a@[i as int]));
                    assert(T::decodes(a@[i as int], Err(e)));
                }
                return Err(e);
            },
        }
        i += 1;
    }
    Ok(out)
}

/// Decoding an optional array field succeeds.
pub open spec fn spec_opt_arr_ok<T: FromJson>(j: Json, key: Seq<char>) -> bool {
    match spec_field(j, key) {
        None => true,
        Some(x) => spec_arr_all_ok::<T>(x),
    }
}

/// `o` is the decoding of an optional array field.
pub open spec fn spec_opt_arr_is<T: FromJson>(j: Json, key: Seq<char>, o: Option<Vec<T>>) -> bool {
    match spec_field(j, key) {
        None => o is None,
        Some(x) => match o {
            Some(xs) => spec_arr_decoded::<T>(x, xs),
            None => false,
        },
    }
}

/// `e` is the failure of an optional array field.
pub open spec fn spec_opt_arr_err<T: FromJson>(j: Json, key: Seq<char>, e: DecodeError) -> bool {
    match spec_field(j, key) {
        None => false,
        Some(x) => spec_arr_err::<T>(x, e),
    }
}

pub(crate) fn opt_vec<T: FromJson>(j: &Json, key: &str) -> (r: Result<Option<Vec<T>>, DecodeError>)
    ensures
        r is Ok <==> spec_opt_arr_ok::<T>(*j, key@),
        r matches Ok(o) ==> spec_opt_arr_is::<T>(*j, key@, o),
        r matches Ok(Some(xs)) ==> forall|i: int| 0 <= i < xs@.len() ==> (#[trigger] xs@[i]).wf(),
        r matches Err(e) ==> spec_opt_arr_err::<T>(*j, key@, e),
{
    match field(j, key) {
        None => Ok(None),
        Some(x) => match vec_from_json::<T>(x) {
            Ok(xs) => Ok(Some(xs)),
            Err(e) => Err(e),
        },
    }
}

/// A required array-of-strings field: decoding succeeds.
pub open spec fn spec_string_list_ok(j: Json, key: Seq<char>) -> bool {
    match spec_field(j, key) {
        None => false,
        Some(x) => match x {
            Json::Arr(a) => forall|i: int| 0 <= i < a@.len() ==> (#[trigger] a@[i]) is Str,
            _ => false,
        },
    }
}

/// `xs` holds exactly the field's strings, in document order.
pub open spec fn spec_string_list_is(j: Json, key: Seq<char>, xs: Seq<String>) -> bool {
    match spec_field(j, key) {
        None => false,
        Some(x) => match x {
            Json::Arr(a) => xs.len() == a@.len() && forall|i: int|
                0 <= i < a@.len() ==> a@[i] == Json::Str(#[trigger] xs[i]),
            _ => false,
        },
    }
}

#[verifier::loop_isolation(false)]
pub(crate) fn string_list(j: &Json, key: &str) -> (r: Result<Vec<String>, DecodeError>)
    ensures
        r is Ok <==> spec_string_list_ok(*j, key@),
        r matches Ok(xs) ==> spec_string_list_is(*j, key@, xs@),
        r matches Err(e) ==> e == DecodeError::Field,
{
    let a = match field(j, key) {
        None => { return Err(DecodeError::Field) },
        Some(x) => match x {
            Json::Arr(a) => a,
            _ => {
                proof {
                    assert(!(*x is Arr));
                }
                return Err(DecodeError::Field);
            },
        },
    };
    let mut out: Vec<String> = Vec::new();
    let mut i: usize = 0;
    while i < a.len()
        invariant
            0 <= i <= a@.len(),
            out@.len() == i,
            forall|k: int| 0 <= k < i ==> (#[trigger] a@[k]) is Str,
            forall|k: int| 0 <= k < i ==> a@[k] == Json::Str(#[trigger] out@[k]),
        decreases a@.len() - i,
    {
        match &a[i] {
            Json::Str(s) => out.push(s.clone()),
            _ => {
                proof {
                    assert(!(a@[i as int] is Str));
                }
                return Err(DecodeError::Field);
            },
        }
        i += 1;
    }
    Ok(out)
}

} // verus!
