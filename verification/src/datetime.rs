//! WMI's date and time format, `yyyymmddHHMMSS.ffffff±UUU`, read with
//! `chrono` into a local date and time and an offset from UTC.

use vstd::prelude::*;
use vstd::string::StringSliceAdditionalSpecFns;
use vstd::utf8::{is_char_boundary, decode_utf8};
use chrono::{Datelike, FixedOffset, NaiveDate, NaiveDateTime, Timelike};
use chrono::format::ParseErrorKind;
use crate::duration::{byte_chars, byte_chars_of};
use crate::error::{DatetimeParseErrorKind, WMIError};
use crate::num::{parse_int_spec, parse_int_chars, lemma_parse_in_range};
use crate::text::{chars_of, string_of};

verus! {

broadcast use vstd::string::group_string_axioms, vstd::utf8::encode_utf8_decode_utf8;

/// A local date and time by its fields, as chrono reads them.
#[derive(Debug, Clone, Copy, PartialEq, Eq, Hash)]
pub struct NaiveParts {
    pub year: i32,
    pub month: u32,
    pub day: u32,
    pub hour: u32,
    pub minute: u32,
    pub second: u32,
    pub nanosecond: u32,
}

/// A date and time read from WMI's format: the local date and time, and its
/// offset from UTC in seconds.
#[derive(Debug, Clone, Copy, PartialEq, Eq, Hash)]
pub struct WMIDateTime {
    pub local: NaiveParts,
    pub offset_seconds: i32,
}

/// A date and time read from WMI's format, in which an asterisk stands for
/// a digit that is not known and is read as zero.
#[derive(Debug, Clone, Copy, PartialEq, Eq, Hash)]
pub struct WMIDateTimeWithAsterisks(pub WMIDateTime);

/// What `NaiveDateTime::parse_from_str(text, format)` reads, by its fields,
/// or the kind of its error.
pub uninterp spec fn chrono_naive_parse(text: Seq<char>, format: Seq<char>) -> Result<NaiveParts, DatetimeParseErrorKind>;

/// Whether chrono makes one point in time of the local date and time with
/// the fields `local` at `offset_seconds` east of UTC
/// (`and_local_timezone(..).single()` is `Some`); false where chrono accepts
/// neither the fields nor the offset.
pub uninterp spec fn chrono_local_fits(local: NaiveParts, offset_seconds: i32) -> bool;

/// The layout of the first 21 bytes of WMI's date and time format, in
/// chrono's notation.
pub const WMI_DATETIME_FORMAT: &'static str = "%Y%m%d%H%M%S.%f";

/// `NaiveDateTime::parse_from_str(text, format)`: the fields of the date and
/// time read, or chrono's error kind, as named by [`chrono_naive_parse`].
#[verifier::external_body]
fn naive_parse_from_str(text: &str, format: &str) -> (r: Result<NaiveParts, DatetimeParseErrorKind>)
    ensures
        r == chrono_naive_parse(text@, format@),
{
    match NaiveDateTime::parse_from_str(text, format) {
        Ok(dt) => Ok(NaiveParts { year: dt.year(), month: dt.month(), day: dt.day(), hour: dt.hour(),
            minute: dt.minute(), second: dt.second(), nanosecond: dt.nanosecond() }),
        Err(e) => Err(match e.kind() {
            ParseErrorKind::OutOfRange => DatetimeParseErrorKind::OutOfRange,
            ParseErrorKind::Impossible => DatetimeParseErrorKind::Impossible,
            ParseErrorKind::NotEnough => DatetimeParseErrorKind::NotEnough,
            ParseErrorKind::TooShort => DatetimeParseErrorKind::TooShort,
            ParseErrorKind::TooLong => DatetimeParseErrorKind::TooLong,
            ParseErrorKind::BadFormat => DatetimeParseErrorKind::BadFormat,
            _ => DatetimeParseErrorKind::Invalid,
        }),
    }
}

/// `naive.and_local_timezone(offset).single().is_some()` for the
/// `NaiveDateTime` with the fields `local` and the `FixedOffset` of
/// `offset_seconds`, as named by [`chrono_local_fits`].
#[verifier::external_body]
fn local_fits(local: &NaiveParts, offset_seconds: i32) -> (r: bool)
    ensures
        r == chrono_local_fits(*local, offset_seconds),
{
    let naive = match NaiveDate::from_ymd_opt(local.year, local.month, local.day) {
        Some(d) => d.and_hms_nano_opt(local.hour, local.minute, local.second, local.nanosecond),
        None => None,
    };
    match (naive, FixedOffset::east_opt(offset_seconds)) {
        (Some(n), Some(o)) => n.and_local_timezone(o).single().is_some(),
        _ => false,
    }
}

/// The text can be cut after byte 21, where the offset begins: a text of at
/// least 21 bytes must start a character there.
pub open spec fn datetime_cut_ok(b: Seq<u8>) -> bool {
    b.len() >= 21 ==> is_char_boundary(b, 21)
}

/// The offset that a text gives after byte 21, parsed as an `i32` number of
/// minutes, if it parses.
pub open spec fn offset_minutes(b: Seq<u8>) -> Result<int, crate::num::IntErrorKind> {
    parse_int_spec(byte_chars(b.subrange(21, b.len() as int)), i32::MIN as int, i32::MAX as int)
}

/// An offset that parses is less than a day either way (so that it is a
/// number of seconds that chrono takes as a fixed offset).
pub open spec fn offset_ok(b: Seq<u8>) -> bool {
    b.len() >= 21 ==> (offset_minutes(b) matches Ok(t) ==> -1440 < t && t < 1440)
}

/// How a text reads as a date and time: at least 21 bytes; the offset in
/// minutes after them; then the 21 bytes as `%Y%m%d%H%M%S.%f`; then the
/// local date and time at that offset, which chrono must make one point in
/// time of. The result holds the fields read and the offset in seconds.
pub open spec fn datetime_outcome(s: Seq<char>, b: Seq<u8>, r: Result<WMIDateTime, WMIError>) -> bool {
    if b.len() < 21 {
        r matches Err(WMIError::ConvertDatetimeError(t)) && t@ == s
    } else {
        match offset_minutes(b) {
            Err(e) => r == Err::<WMIDateTime, WMIError>(WMIError::ParseIntError(e)),
            Ok(t) => match chrono_naive_parse(decode_utf8(b.subrange(0, 21)), WMI_DATETIME_FORMAT@) {
                Err(k) => r == Err::<WMIDateTime, WMIError>(WMIError::ParseDatetimeError(k)),
                Ok(local) => if chrono_local_fits(local, (t * 60) as i32) {
                    r == Ok::<WMIDateTime, WMIError>(WMIDateTime { local, offset_seconds: (t * 60) as i32 })
                } else {
                    r == Err::<WMIDateTime, WMIError>(WMIError::ParseDatetimeLocalError)
                },
            },
        }
    }
}

fn parse_datetime(s: &str) -> (r: Result<WMIDateTime, WMIError>)
    requires
        datetime_cut_ok(s.spec_bytes()),
        offset_ok(s.spec_bytes()),
    ensures
        datetime_outcome(s@, s.spec_bytes(), r),
{
    let b = s.as_bytes();
    let n = b.len();
    if n < 21 {
        return Err(WMIError::ConvertDatetimeError(s.to_owned()));
    }
    let (datetime_part, _) = s.split_at(21);
    let tz_text = byte_chars_of(b, 21, n);
    proof { lemma_parse_in_range(tz_text@, i32::MIN as int, i32::MAX as int); }
    let tz_min = match parse_int_chars(&tz_text, i32::MIN as i128, i32::MAX as i128) {
        Ok(v) => v as i32,
        Err(e) => return Err(WMIError::ParseIntError(e)),
    };
    let offset_seconds = tz_min * 60;
    proof {
        assert(datetime_part.spec_bytes() == vstd::utf8::encode_utf8(datetime_part@));
        assert(decode_utf8(s.spec_bytes().subrange(0, 21)) == datetime_part@);
    }
    let read = naive_parse_from_str(datetime_part, WMI_DATETIME_FORMAT);
    let fits = match &read {
        Ok(local) => local_fits(local, offset_seconds),
        Err(_) => false,
    };
    datetime_from_read(read, offset_seconds, fits)
}

/// The date and time that chrono read, at `offset_seconds` east of UTC,
/// where chrono makes one point in time of it (`fits`); else the error.
pub fn datetime_from_read(read: Result<NaiveParts, DatetimeParseErrorKind>, offset_seconds: i32, fits: bool) -> (r: Result<WMIDateTime, WMIError>)
    ensures
        r == match read {
            Err(k) => Err::<WMIDateTime, WMIError>(WMIError::ParseDatetimeError(k)),
            Ok(local) => if fits {
                Ok::<WMIDateTime, WMIError>(WMIDateTime { local, offset_seconds })
            } else {
                Err::<WMIDateTime, WMIError>(WMIError::ParseDatetimeLocalError)
            },
        },
{
    match read {
        Err(k) => Err(WMIError::ParseDatetimeError(k)),
        Ok(local) => if fits {
            Ok(WMIDateTime { local, offset_seconds })
        } else {
            Err(WMIError::ParseDatetimeLocalError)
        },
    }
}

impl WMIDateTime {
    /// Reads a date and time in WMI's format (see [`datetime_outcome`]).
    pub fn from_str(s: &str) -> (r: Result<WMIDateTime, WMIError>)
        requires
            datetime_cut_ok(s.spec_bytes()),
            offset_ok(s.spec_bytes()),
        ensures
            datetime_outcome(s@, s.spec_bytes(), r),
    {
        parse_datetime(s)
    }
}

/// The text with every asterisk replaced by a zero.
pub open spec fn stars_to_zeros(s: Seq<char>) -> Seq<char> {
    s.map_values(|c: char| if c == '*' { '0' } else { c })
}

fn replace_stars(s: &str) -> (r: String)
    ensures
        r@ == stars_to_zeros(s@),
{
    let cs = chars_of(s);
    let mut out: Vec<char> = Vec::new();
    let mut i: usize = 0;
    while i < cs.len()
        invariant
            0 <= i <= cs@.len(),
            cs@ == s@,
            out@ == stars_to_zeros(s@.take(i as int)),
        decreases cs@.len() - i,
    {
        let c = cs[i];
        out.push(if c == '*' { '0' } else { c });
        assert(stars_to_zeros(s@.take(i + 1)) =~= stars_to_zeros(s@.take(i as int)).push(if c == '*' { '0' } else { c }));
        i = i + 1;
    }
    assert(s@.take(cs@.len() as int) =~= s@);
    string_of(&out)
}

impl WMIDateTimeWithAsterisks {
    /// Reads a date and time in WMI's format after replacing each asterisk
    /// with a zero.
    pub fn from_str(s: &str) -> (r: Result<WMIDateTimeWithAsterisks, WMIError>)
        requires
            datetime_cut_ok(vstd::utf8::encode_utf8(stars_to_zeros(s@))),
            offset_ok(vstd::utf8::encode_utf8(stars_to_zeros(s@))),
        ensures
            datetime_outcome(stars_to_zeros(s@), vstd::utf8::encode_utf8(stars_to_zeros(s@)),
                match r { Ok(d) => Ok::<WMIDateTime, WMIError>(d.0), Err(e) => Err(e) }),
    {
        let replaced = replace_stars(s);
        match parse_datetime(replaced.as_str()) {
            Ok(dt) => Ok(WMIDateTimeWithAsterisks(dt)),
            Err(e) => Err(e),
        }
    }

    /// The same date and time.
    pub fn from_datetime(value: WMIDateTime) -> (r: WMIDateTimeWithAsterisks)
        ensures
            r.0 == value,
    {
        WMIDateTimeWithAsterisks(value)
    }
}

} // verus!
