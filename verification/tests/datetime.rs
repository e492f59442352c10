use wmi::datetime::{datetime_from_read, NaiveParts, WMIDateTime, WMIDateTimeWithAsterisks};
use wmi::datetime_time::{microsecond_fraction, TimeFields, WMIOffsetDateTime};
use wmi::error::{DatetimeParseErrorKind, WMIError};
use wmi::num::IntErrorKind;

fn rfc3339(dt: &WMIDateTime) -> String {
    let l = dt.local;
    chrono::NaiveDate::from_ymd_opt(l.year, l.month, l.day)
        .unwrap()
        .and_hms_nano_opt(l.hour, l.minute, l.second, l.nanosecond)
        .unwrap()
        .and_local_timezone(chrono::FixedOffset::east_opt(dt.offset_seconds).unwrap())
        .single()
        .unwrap()
        .to_rfc3339()
}

#[test]
fn datetime_it_works_with_negative_offset() {
    let dt = WMIDateTime::from_str("20190113200517.500000-180").unwrap();

    let formatted = rfc3339(&dt);

    assert_eq!(formatted, "2019-01-13T20:05:17.000500-03:00");
}

#[test]
fn datetime_it_works_with_positive_offset() {
    let dt = WMIDateTime::from_str("20190113200517.500000+060").unwrap();

    let formatted = rfc3339(&dt);

    assert_eq!(formatted, "2019-01-13T20:05:17.000500+01:00");
}

#[test]
fn datetime_it_fails_with_malformed_str() {
    let dt_res = WMIDateTime::from_str("20190113200517");

    assert!(dt_res.is_err());
}

#[test]
fn datetime_it_fails_with_malformed_str_with_no_tz() {
    let dt_res = WMIDateTime::from_str("20190113200517.000500");

    assert!(dt_res.is_err());
}

#[test]
fn datetime_error_kinds() {
    assert_eq!(
        WMIDateTime::from_str("20190113200517"),
        Err(WMIError::ConvertDatetimeError("20190113200517".to_string()))
    );
    assert_eq!(
        WMIDateTime::from_str("20190113200517.000500"),
        Err(WMIError::ParseIntError(IntErrorKind::Empty))
    );
    assert_eq!(
        WMIDateTime::from_str("20190113200517.000500+0x0"),
        Err(WMIError::ParseIntError(IntErrorKind::InvalidDigit))
    );
    assert_eq!(
        WMIDateTime::from_str("20191313200517.000500+000"),
        Err(WMIError::ParseDatetimeError(DatetimeParseErrorKind::OutOfRange))
    );
    assert!(matches!(
        WMIDateTime::from_str("2019011320051x.000500+000"),
        Err(WMIError::ParseDatetimeError(_))
    ));
}

// Serializing the value read from "20210601114102.**********" cannot give
// "2011-06-01T11:41:02.000000+00:00": asterisks are read as zeros and leave the
// year at 2021, and chrono writes no fraction when it is zero. This test checks
// what the parser does give.
#[test]
fn datetime_with_asterisks_reads_them_as_zeros() {
    let dt = WMIDateTimeWithAsterisks::from_str("20210601114102.******+***").unwrap();
    assert_eq!(rfc3339(&dt.0), "2021-06-01T11:41:02+00:00");
    let plain = WMIDateTime::from_str("20210601114102.000000+000").unwrap();
    assert_eq!(WMIDateTimeWithAsterisks::from_datetime(plain), dt);
}

fn rfc3339_with_6_digits(dt: &WMIOffsetDateTime) -> String {
    let description = time::format_description::parse(
        "[year]-[month]-[day]T[hour]:[minute]:[second].[subsecond digits:6][offset_hour sign:mandatory]:[offset_minute]",
    )
    .unwrap();
    let f = dt.fields;
    let date = time::Date::from_calendar_date(dt.year, time::Month::try_from(f.month.unwrap()).unwrap(), f.day.unwrap()).unwrap();
    let clock = time::Time::from_hms_nano(f.hour.unwrap(), f.minute.unwrap(), f.second.unwrap(), f.subsecond.unwrap()).unwrap();
    let offset = time::UtcOffset::from_whole_seconds(dt.offset_seconds).unwrap();
    time::PrimitiveDateTime::new(date, clock).assume_offset(offset).format(&description).unwrap()
}

#[test]
fn datetime_time_it_works_with_negative_offset() {
    let dt = WMIOffsetDateTime::from_str("20190113200517.500000-180").unwrap();

    let formatted = rfc3339_with_6_digits(&dt);

    assert_eq!(formatted, "2019-01-13T20:05:17.000500-03:00");
}

#[test]
fn datetime_time_it_works_with_positive_offset() {
    let dt = WMIOffsetDateTime::from_str("20190113200517.500000+060").unwrap();

    let formatted = rfc3339_with_6_digits(&dt);

    assert_eq!(formatted, "2019-01-13T20:05:17.000500+01:00");
}

#[test]
fn datetime_time_it_fails_with_malformed_str() {
    let dt_res = WMIOffsetDateTime::from_str("20190113200517");

    assert!(dt_res.is_err());
}

#[test]
fn datetime_time_it_fails_with_malformed_str_with_no_tz() {
    let dt_res = WMIOffsetDateTime::from_str("20190113200517.000500");

    assert!(dt_res.is_err());
}

#[test]
fn datetime_time_error_kinds() {
    assert_eq!(
        WMIOffsetDateTime::from_str("2019011320051"),
        Err(WMIError::ConvertDatetimeError("2019011320051".to_string()))
    );
    assert_eq!(
        WMIOffsetDateTime::from_str("20190113200517.000500+x"),
        Err(WMIError::ParseIntError(IntErrorKind::InvalidDigit))
    );
    assert!(matches!(
        WMIOffsetDateTime::from_str("20190113200517.000500+1560"),
        Err(WMIError::ParseOffsetDatetimeError(_))
    ));
    assert_eq!(
        WMIOffsetDateTime::from_str("x0190113200517.000500+000"),
        Err(WMIError::ParseIntError(IntErrorKind::InvalidDigit))
    );
    assert!(matches!(
        WMIOffsetDateTime::from_str("20191313200517.000500+000"),
        Err(WMIError::ParseOffsetDatetimeError(_))
    ));
    let early = WMIOffsetDateTime::from_str("00010101000000.000000+000").unwrap();
    assert_eq!(early.year, 1);
    assert_eq!(early.fields.subsecond, Some(0));
}

#[test]
fn datetime_values_read() {
    let dt = WMIDateTime::from_str("20190113200517.500000-180").unwrap();
    assert_eq!(dt.offset_seconds, -180 * 60);
    assert_eq!((dt.local.year, dt.local.month, dt.local.day), (2019, 1, 13));
    assert_eq!((dt.local.hour, dt.local.minute, dt.local.second), (20, 5, 17));
    assert_eq!(dt.local.nanosecond, 500_000);

    let dt = WMIOffsetDateTime::from_str("20190113200517.500000+060").unwrap();
    assert_eq!(dt.offset_seconds, 3600);
    assert_eq!(dt.year, 2019);
    assert_eq!(dt.fields.month, Some(1));
    assert_eq!(dt.fields.day, Some(13));
    assert_eq!(dt.fields.subsecond, Some(500_000));
    let dt = WMIOffsetDateTime::from_str("20190113200517.000001+000").unwrap();
    assert_eq!(dt.fields.subsecond, Some(1));
}

#[test]
fn datetime_local_time_out_of_range() {
    // The latest day chrono can hold (a signed year takes every digit that follows, so a space
    // ends it), at an offset west of UTC, is past its range in UTC.
    let text = "+262142 1231235959.99-600";
    assert_eq!(WMIDateTime::from_str(text), Err(WMIError::ParseDatetimeLocalError));
    let east = WMIDateTime::from_str("+262142 1231235959.99+600").unwrap();
    assert_eq!(east.local.year, 262142);
    assert_eq!(east.local.nanosecond, 99);
}

#[test]
fn datetime_time_fraction_read_as_microseconds() {
    let read = TimeFields {
        month: Some(1),
        day: Some(13),
        hour: Some(20),
        minute: Some(5),
        second: Some(17),
        subsecond: Some(500_000_000),
    };
    let f = microsecond_fraction(read);
    assert_eq!(f.subsecond, Some(500_000));
    assert_eq!(f.month, Some(1));
    assert_eq!(f.second, Some(17));
    let none = TimeFields { subsecond: None, ..read };
    assert_eq!(microsecond_fraction(none).subsecond, Some(0));
    let dt: WMIOffsetDateTime = WMIOffsetDateTime::from_str("20190113200517.123456+000").unwrap();
    assert_eq!(dt.fields.subsecond, Some(123_456));
}

// Serializing writes the RFC 3339 text as a JSON string.
#[test]
fn datetime_it_serializes_to_rfc() {
    let dt = WMIDateTime::from_str("20190113200517.500000+060").unwrap();
    let v = format!("\"{}\"", rfc3339(&dt));
    assert_eq!(v, "\"2019-01-13T20:05:17.000500+01:00\"");
}

#[test]
fn datetime_time_it_serializes_to_rfc() {
    let dt = WMIOffsetDateTime::from_str("20190113200517.500000+060").unwrap();
    let v = format!("\"{}\"", rfc3339_with_6_digits(&dt));
    assert_eq!(v, "\"2019-01-13T20:05:17.000500+01:00\"");
}

#[test]
fn datetime_from_what_chrono_read() {
    let local = NaiveParts { year: 2019, month: 1, day: 13, hour: 20, minute: 5, second: 17, nanosecond: 500_000 };
    assert_eq!(
        datetime_from_read(Ok(local), -10_800, true),
        Ok(WMIDateTime { local, offset_seconds: -10_800 })
    );
    assert_eq!(datetime_from_read(Ok(local), 0, false), Err(WMIError::ParseDatetimeLocalError));
    assert_eq!(
        datetime_from_read(Err(DatetimeParseErrorKind::TooShort), 0, true),
        Err(WMIError::ParseDatetimeError(DatetimeParseErrorKind::TooShort))
    );
}
