//! Reading the fields of API responses that arrive as JSON strings but
//! stand for dates (RFC 2822) or numbers.
use vstd::prelude::*;

use crate::decimal::{decimal, digit_char, digits_value, is_digit, parse_u32};

verus! {

/// A JSON value, as far as the readers of single fields tell values apart:
/// `null`, a string, or anything else.
#[derive(Debug, PartialEq, Eq)]
pub enum JsonField {
    Null,
    String(String),
    Other,
}

/// An instant in UTC: seconds since the Unix epoch, and nanoseconds past
/// that second (from 1_000_000_000 on during a leap second).
#[derive(Debug, Clone, Copy, PartialEq, Eq, Structural)]
pub struct UtcTimestamp {
    pub unix_seconds: i64,
    pub nanos: u32,
}

#[verifier::external_type_specification]
#[verifier::external_body]
pub struct ExChronoParseError(chrono::ParseError);

#[verifier::external_type_specification]
#[verifier::external_body]
pub struct ExParseIntError(core::num::ParseIntError);

/// Why a field could not be read.
#[derive(Debug)]
pub enum FieldError {
    /// The field was neither a string nor null.
    ExpectedStringOrNull,
    /// The string is not an RFC 2822 date.
    InvalidDate(chrono::ParseError),
    /// The string is not a `u32` in decimal.
    InvalidNumber(core::num::ParseIntError),
}

/// The instant that `chrono::DateTime::parse_from_rfc2822` reads from
/// `text` (seconds since the epoch and nanoseconds), or `None` where it
/// refuses the text.
pub uninterp spec fn rfc2822_instant(text: Seq<char>) -> Option<(i64, u32)>;

/// `chrono::DateTime::parse_from_rfc2822`, handing back the instant as
/// `timestamp()` and `timestamp_subsec_nanos()`, which do not depend on the
/// offset (so they are those of the date in UTC). Which `ParseError` comes on
/// a refusal is not stated.
#[verifier::external_body]
fn parse_rfc2822(text: &str) -> (r: Result<(i64, u32), chrono::ParseError>)
    ensures
        r is Ok <==> rfc2822_instant(text@) is Some,
        r matches Ok(instant) ==> rfc2822_instant(text@) == Some(instant),
{
    match chrono::DateTime::parse_from_rfc2822(text) {
        Ok(date) => Ok((date.timestamp(), date.timestamp_subsec_nanos())),
        Err(e) => Err(e),
    }
}

/// `text.parse::<u32>()`: as its documentation says, an optional `+`
/// followed by one or more ASCII digits, with a value that fits in a `u32`,
/// and nothing else. Which `ParseIntError` comes on a refusal is not stated.
#[verifier::external_body]
fn parse_u32_text(text: &str) -> (r: Result<u32, core::num::ParseIntError>)
    ensures
        r is Ok <==> parse_u32(text@) is Some,
        r matches Ok(n) ==> parse_u32(text@) == Some(n),
{
    text.parse::<u32>()
}

/// What `deserialize_rfc2822` gives for a field.
pub open spec fn spec_deserialize_rfc2822(value: JsonField) -> Option<Option<UtcTimestamp>> {
    match value {
        JsonField::Null => Some(None),
        JsonField::String(s) => match rfc2822_instant(s@) {
            Some(instant) => Some(Some(UtcTimestamp { unix_seconds: instant.0, nanos: instant.1 })),
            None => None,
        },
        JsonField::Other => None,
    }
}

/// Reads an optional RFC 2822 date: `null` is no date, a string is parsed
/// as a date, and anything else is refused.
pub fn deserialize_rfc2822(value: &JsonField) -> (r: Result<Option<UtcTimestamp>, FieldError>)
    ensures
        r is Ok <==> spec_deserialize_rfc2822(*value) is Some,
        r matches Ok(date) ==> spec_deserialize_rfc2822(*value) == Some(date),
        r matches Err(e) ==> (e is ExpectedStringOrNull <==> value is Other),
        r matches Err(e) ==> (e is InvalidDate <==> value is String),
{
    match value {
        JsonField::Null => Ok(None),
        JsonField::String(s) => match parse_rfc2822(s.as_str()) {
            Ok((unix_seconds, nanos)) => Ok(Some(UtcTimestamp { unix_seconds, nanos })),
            Err(e) => Err(FieldError::InvalidDate(e)),
        },
        JsonField::Other => Err(FieldError::ExpectedStringOrNull),
    }
}

/// What `deserialize_str_to_u32` gives for a field.
pub open spec fn spec_deserialize_str_to_u32(value: JsonField) -> Option<Option<u32>> {
    match value {
        JsonField::Null => Some(None),
        JsonField::String(s) => match parse_u32(s@) {
            Some(n) => Some(Some(n)),
            None => None,
        },
        JsonField::Other => None,
    }
}

/// Reads an optional number sent as a decimal string: `null` is no number,
/// a string is parsed as a `u32`, and anything else is refused.
pub fn deserialize_str_to_u32(value: &JsonField) -> (r: Result<Option<u32>, FieldError>)
    ensures
        r is Ok <==> spec_deserialize_str_to_u32(*value) is Some,
        r matches Ok(n) ==> spec_deserialize_str_to_u32(*value) == Some(n),
        r matches Err(e) ==> (e is ExpectedStringOrNull <==> value is Other),
        r matches Err(e) ==> (e is InvalidNumber <==> value is String),
{
    match value {
        JsonField::Null => Ok(None),
        JsonField::String(s) => match parse_u32_text(s.as_str()) {
            Ok(n) => Ok(Some(n)),
            Err(e) => Err(FieldError::InvalidNumber(e)),
        },
        JsonField::Other => Err(FieldError::ExpectedStringOrNull),
    }
}

} // verus!
