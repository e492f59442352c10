//! WMI's date and time format read with the `time` crate: the year is read
//! apart from the rest, and the six fraction digits are taken as
//! microseconds, as WMI writes them.

use vstd::prelude::*;
use vstd::string::StringSliceAdditionalSpecFns;
use vstd::utf8::is_char_boundary;
use std::num::NonZeroU8;
use time::parsing::Parsed;
use time::{Month, PrimitiveDateTime, UtcOffset};
use crate::datetime::offset_minutes;
use crate::duration::{byte_chars, byte_chars_of};
use crate::error::WMIError;
use crate::num::{parse_int_spec, parse_int_chars, lemma_parse_in_range};

verus! {

/// The components of a date and time that the `time` crate's parser holds
/// after reading, `None` for one it did not set.
#[derive(Debug, Clone, Copy, PartialEq, Eq, Hash)]
pub struct TimeFields {
    pub month: Option<u8>,
    pub day: Option<u8>,
    pub hour: Option<u8>,
    pub minute: Option<u8>,
    pub second: Option<u8>,
    /// In nanoseconds.
    pub subsecond: Option<u32>,
}

/// A date and time read from WMI's format: the year, the other components
/// (the subsecond in nanoseconds), and the offset from UTC in seconds, which
/// the `time` crate makes one `OffsetDateTime` of.
#[derive(Debug, Clone, Copy, PartialEq, Eq, Hash)]
pub struct WMIOffsetDateTime {
    pub year: i32,
    pub fields: TimeFields,
    pub offset_seconds: i32,
}

/// The layout of bytes 4 to 20 of WMI's date and time format (after the
/// year), in the `time` crate's notation.
pub const WMI_TIME_DESCRIPTION: &'static str = "[month][day][hour][minute][second].[subsecond digits:6]";

/// The text of the `time` crate's error for an offset of `secs` seconds that
/// is out of its range.
pub uninterp spec fn time_offset_error(secs: i32) -> Seq<char>;

/// What a fresh `Parsed` holds after `parse_items` reads `text` with the
/// format description `description`, or the text of its error.
pub uninterp spec fn time_parse_items(text: Seq<u8>, description: Seq<char>) -> Result<TimeFields, Seq<char>>;

/// Whether `PrimitiveDateTime::try_from` accepts a `Parsed` holding the year
/// and the components `fields`, or the text of its error.
pub uninterp spec fn time_primitive(year: i32, fields: TimeFields) -> Result<(), Seq<char>>;

/// `UtcOffset::from_whole_seconds`: offsets of up to 25:59:59 either way.
#[verifier::external_body]
fn utc_offset_check(secs: i32) -> (r: Result<(), String>)
    ensures
        r is Ok <==> (-93_599 <= secs && secs <= 93_599),
        r matches Err(m) ==> m@ == time_offset_error(secs),
{
    match UtcOffset::from_whole_seconds(secs) {
        Ok(_) => Ok(()),
        Err(e) => Err(time::Error::from(e).to_string()),
    }
}

/// The number that a sequence of ASCII decimal digits writes.
pub open spec fn decimal_value(d: Seq<u8>) -> int
    decreases d.len(),
{
    if d.len() == 0 {
        0
    } else {
        10 * decimal_value(d.drop_last()) + (d.last() - 48)
    }
}

/// `Parsed::parse_items` on a fresh `Parsed`, with the items of the format
/// description `description`, and the components it then holds, as named by
/// [`time_parse_items`]. With [`WMI_TIME_DESCRIPTION`], whose components
/// before the fraction are two digits each (zero padding), a successful read
/// took the fraction from exactly the six digits at bytes 11 to 16, and the
/// subsecond is their number times a thousand (`SubsecondDigits::Six`).
#[verifier::external_body]
fn parse_time_items(text: &[u8], description: &str) -> (r: Result<TimeFields, String>)
    ensures
        match time_parse_items(text@, description@) {
            Ok(f) => r == Ok::<TimeFields, String>(f),
            Err(m) => r matches Err(e) && e@ == m,
        },
        r matches Ok(f) ==> (description@ == WMI_TIME_DESCRIPTION@ ==> {
            &&& text@.len() >= 17
            &&& forall|i: int| 11 <= i < 17 ==> 48 <= #[trigger] text@[i] <= 57
            &&& f.subsecond matches Some(n) && n == 1000 * decimal_value(text@.subrange(11, 17))
        }),
{
    let items = match time::format_description::parse(description) {
        Ok(items) => items,
        Err(e) => return Err(time::Error::from(e).to_string()),
    };
    let mut p = Parsed::new();
    match p.parse_items(text, &items) {
        Ok(_) => Ok(TimeFields { month: p.month().map(u8::from), day: p.day().map(NonZeroU8::get),
            hour: p.hour_24(), minute: p.minute(), second: p.second(), subsecond: p.subsecond() }),
        Err(e) => Err(time::Error::from(e).to_string()),
    }
}

/// `PrimitiveDateTime::try_from` on a `Parsed` holding the year and the
/// components `fields`, as named by [`time_primitive`].
#[verifier::external_body]
fn primitive_check(year: i32, f: TimeFields) -> (r: Result<(), String>)
    ensures
        match time_primitive(year, f) {
            Ok(()) => r is Ok,
            Err(m) => r matches Err(e) && e@ == m,
        },
{
    let mut p = Parsed::new();
    p.set_year(year);
    if let Some(m) = f.month.and_then(|m| Month::try_from(m).ok()) { p.set_month(m); }
    if let Some(d) = f.day.and_then(NonZeroU8::new) { p.set_day(d); }
    if let Some(h) = f.hour { p.set_hour_24(h); }
    if let Some(m) = f.minute { p.set_minute(m); }
    if let Some(s) = f.second { p.set_second(s); }
    if let Some(n) = f.subsecond { p.set_subsecond(n); }
    match PrimitiveDateTime::try_from(p) {
        Ok(_) => Ok(()),
        Err(e) => Err(time::Error::from(e).to_string()),
    }
}

/// The text can be cut after bytes 4 and 21, where the components after the
/// year and the offset begin: a text of at least 21 bytes must start a
/// character at both.
pub open spec fn offset_time_cuts_ok(b: Seq<u8>) -> bool {
    b.len() >= 21 ==> is_char_boundary(b, 4) && is_char_boundary(b, 21)
}

/// An offset that parses, once in seconds, fits an `i32`.
pub open spec fn offset_time_minutes_ok(b: Seq<u8>) -> bool {
    b.len() >= 21 ==> (offset_minutes(b) matches Ok(t) ==> i32::MIN <= t * 60 && t * 60 <= i32::MAX)
}

/// The components read, with the subsecond taken as microseconds: the
/// nanoseconds that the parser read (none counting as zero), divided by a
/// thousand.
pub open spec fn as_microsecond_fraction(f: TimeFields) -> TimeFields {
    TimeFields {
        subsecond: Some((match f.subsecond { Some(n) => n, None => 0u32 }) / 1000),
        ..f
    }
}

/// How a text reads as a date and time with the `time` crate: at least 21
/// bytes; the offset in minutes after them, within 25:59:59; bytes 4 to 20
/// by [`WMI_TIME_DESCRIPTION`], the fraction then taken as microseconds; the
/// year in bytes 0 to 3; and the components must make a date and time.
pub open spec fn offset_datetime_outcome(s: Seq<char>, b: Seq<u8>, r: Result<WMIOffsetDateTime, WMIError>) -> bool {
    if b.len() < 21 {
        r matches Err(WMIError::ConvertDatetimeError(t)) && t@ == s
    } else {
        match offset_minutes(b) {
            Err(e) => r == Err::<WMIOffsetDateTime, WMIError>(WMIError::ParseIntError(e)),
            Ok(t) => if !(-93_599 <= t * 60 && t * 60 <= 93_599) {
                r matches Err(WMIError::ParseOffsetDatetimeError(m)) && m@ == time_offset_error((t * 60) as i32)
            } else {
                match time_parse_items(b.subrange(4, 21), WMI_TIME_DESCRIPTION@) {
                    Err(m) => r matches Err(WMIError::ParseOffsetDatetimeError(e)) && e@ == m,
                    Ok(f) => match parse_int_spec(byte_chars(b.subrange(0, 4)), i32::MIN as int, i32::MAX as int) {
                        Err(e) => r == Err::<WMIOffsetDateTime, WMIError>(WMIError::ParseIntError(e)),
                        Ok(y) => match time_primitive(y as i32, as_microsecond_fraction(f)) {
                            Ok(()) => r == Ok::<WMIOffsetDateTime, WMIError>(WMIOffsetDateTime {
                                year: y as i32,
                                fields: as_microsecond_fraction(f),
                                offset_seconds: (t * 60) as i32,
                            }),
                            Err(m) => r matches Err(WMIError::ParseOffsetDatetimeError(e)) && e@ == m,
                        },
                    },
                }
            },
        }
    }
}

/// The components that the parser read, with the subsecond taken as
/// microseconds (see [`as_microsecond_fraction`]).
pub fn microsecond_fraction(read: TimeFields) -> (r: TimeFields)
    ensures
        r == as_microsecond_fraction(read),
{
    let nanos = match read.subsecond {
        Some(v) => v,
        None => 0,
    };
    TimeFields { subsecond: Some(nanos / 1000), ..read }
}

fn bytes_between(b: &[u8], start: usize, end: usize) -> (r: Vec<u8>)
    requires
        start <= end <= b@.len(),
    ensures
        r@ == b@.subrange(start as int, end as int),
{
    let mut r: Vec<u8> = Vec::new();
    let mut i: usize = start;
    while i < end
        invariant
            start <= i <= end <= b@.len(),
            r@ == b@.subrange(start as int, i as int),
        decreases end - i,
    {
        r.push(b[i]);
        assert(b@.subrange(start as int, i + 1) =~= b@.subrange(start as int, i as int).push(b@[i as int]));
        i = i + 1;
    }
    r
}

impl WMIOffsetDateTime {
    /// Reads a date and time in WMI's format (see [`offset_datetime_outcome`]).
    /// The subsecond digits are read as microseconds (`1.1` is one second and
    /// one hundred microseconds), as WMI writes them without leading zeros.
    pub fn from_str(s: &str) -> (r: Result<WMIOffsetDateTime, WMIError>)
        requires
            offset_time_cuts_ok(s.spec_bytes()),
            offset_time_minutes_ok(s.spec_bytes()),
        ensures
            offset_datetime_outcome(s@, s.spec_bytes(), r),
            r matches Ok(d) ==> (d.fields.subsecond matches Some(n) && n == decimal_value(s.spec_bytes().subrange(15, 21))),
    {
        let b = s.as_bytes();
        let n = b.len();
        if n < 21 {
            return Err(WMIError::ConvertDatetimeError(s.to_owned()));
        }
        let tz_text = byte_chars_of(b, 21, n);
        proof { lemma_parse_in_range(tz_text@, i32::MIN as int, i32::MAX as int); }
        let minutes_offset = match parse_int_chars(&tz_text, i32::MIN as i128, i32::MAX as i128) {
            Ok(v) => v as i32,
            Err(e) => return Err(WMIError::ParseIntError(e)),
        };
        let offset_seconds = minutes_offset * 60;
        match utc_offset_check(offset_seconds) {
            Ok(()) => {},
            Err(m) => return Err(WMIError::ParseOffsetDatetimeError(m)),
        }
        let middle = bytes_between(b, 4, 21);
        let parsed = match parse_time_items(middle.as_slice(), WMI_TIME_DESCRIPTION) {
            Ok(f) => f,
            Err(m) => return Err(WMIError::ParseOffsetDatetimeError(m)),
        };
        proof {
            let v = decimal_value(middle@.subrange(11, 17));
            assert(middle@.subrange(11, 17) =~= s.spec_bytes().subrange(15, 21));
            assert((1000 * v) / 1000 == v) by (nonlinear_arith);
        }
        let fields = microsecond_fraction(parsed);
        let year_text = byte_chars_of(b, 0, 4);
        proof { lemma_parse_in_range(year_text@, i32::MIN as int, i32::MAX as int); }
        let year = match parse_int_chars(&year_text, i32::MIN as i128, i32::MAX as i128) {
            Ok(v) => v as i32,
            Err(e) => return Err(WMIError::ParseIntError(e)),
        };
        match primitive_check(year, fields) {
            Ok(()) => Ok(WMIOffsetDateTime { year, fields, offset_seconds }),
            Err(m) => Err(WMIError::ParseOffsetDatetimeError(m)),
        }
    }
}

} // verus!
