//! The library's error values.

use vstd::prelude::*;
use crate::num::IntErrorKind;

verus! {

/// The ways a text can fail to parse as a date and time (the kinds of
/// `chrono::format::ParseError`).
#[derive(Debug, Clone, Copy, PartialEq, Eq)]
pub enum DatetimeParseErrorKind {
    OutOfRange,
    Impossible,
    NotEnough,
    Invalid,
    TooShort,
    TooLong,
    BadFormat,
}

/// What went wrong in a WMI operation or conversion.
#[derive(Debug, PartialEq)]
#[non_exhaustive]
pub enum WMIError {
    /// A call failed with this `HRESULT`.
    HResultError { hres: i32 },
    /// An integer did not parse.
    ParseIntError(IntErrorKind),
    /// A floating-point number did not parse; the parser's message.
    ParseFloatError(String),
    /// A date and time did not parse.
    ParseDatetimeError(DatetimeParseErrorKind),
    /// A local date and time has no single meaning in its time zone.
    ParseDatetimeLocalError,
    /// A date and time with an offset did not parse; the parser's message.
    ParseOffsetDatetimeError(String),
    /// A `VARIANT` of this type cannot be read yet.
    ConvertError(u16),
    /// A value cannot be turned into the type asked for; why.
    ConvertVariantError(String),
    /// A boolean `VARIANT` held neither true nor false.
    ConvertBoolError(i16),
    /// A UTF-16 text was not valid.
    ConvertStringError,
    /// A date and time text is shorter than 21 bytes.
    ConvertDatetimeError(String),
    /// An interval text is not 25 bytes long.
    ConvertDurationError(String),
    /// A length did not fit.
    ConvertLengthError(u64),
    /// A (de)serialization failed; why.
    SerdeError(String),
    /// A value failed to deserialize; why.
    DeserializeValueError(String),
    /// A query returned no result.
    ResultEmpty,
    /// WMI handed back a null pointer.
    NullPointerResult,
    /// An array of this element type cannot be read.
    UnimplementedArrayItem,
    /// A value of this kind cannot be deserialized.
    InvalidDeserializationVariantError(String),
}

} // verus!
