use vstd::prelude::*;

verus! {

/// Why a response body failed to decode into the expected shape.
///
/// A decode failure is surfaced to the caller unmodified; it is never folded
/// into the "resource absent" outcome, which only a 404 status may produce.
#[derive(Clone, Copy, Debug, PartialEq, Eq, Structural)]
pub enum DecodeError {
    /// The body is not valid JSON.
    Syntax,
    /// A required field is missing or has the wrong type.
    Field,
    /// A date field is not a valid strict `YYYY-MM-DD` string.
    Date,
    /// A non-empty time field is not a valid strict `HH:MM` string.
    Time,
    /// A timestamp field is not a valid strict
    /// `YYYY-MM-DDTHH:MM:SS(+|-)HH:MM` string.
    Timestamp,
    /// An integer field does not fit the machine word it is stored in.
    Range,
}

} // verus!
