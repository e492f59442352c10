use wmi::duration::WMIDuration;
use wmi::error::WMIError;
use wmi::num::IntErrorKind;

#[test]
fn duration_it_works() {
    let duration = WMIDuration::from_str("00000005141436.100001:000").unwrap();

    assert_eq!(duration.0.as_micros(), 5141436100001);
    assert_eq!(duration.0.as_millis(), 5141436100);
    assert_eq!(duration.0.as_secs(), 5141436);
}

#[test]
fn duration_subsec_micros_are_the_six_digits() {
    let duration = WMIDuration::from_str("00000000000001.000042:000").unwrap();
    assert_eq!(duration.0.as_secs(), 1);
    assert_eq!(duration.0.subsec_micros(), 42);
    assert_eq!(duration.0.as_micros(), 1_000_042);
    assert_eq!(duration.0.as_millis(), 1_000);
}

#[test]
fn duration_rejects_wrong_length() {
    let r = WMIDuration::from_str("00000005141436.100001:00");
    assert_eq!(r.unwrap_err(), WMIError::ConvertDurationError("00000005141436.100001:00".to_string()));
    let r = WMIDuration::from_str("");
    assert!(matches!(r, Err(WMIError::ConvertDurationError(_))));
}

#[test]
fn duration_rejects_bad_digits() {
    let r = WMIDuration::from_str("0000000514143x.100001:000");
    assert_eq!(r.unwrap_err(), WMIError::ParseIntError(IntErrorKind::InvalidDigit));
    let r = WMIDuration::from_str("00000005141436.1000-1:000");
    assert_eq!(r.unwrap_err(), WMIError::ParseIntError(IntErrorKind::InvalidDigit));
}

#[test]
fn duration_ignores_separator_bytes() {
    // Byte 14 and the last four bytes are not read.
    let duration = WMIDuration::from_str("00000000000002x000003abcd").unwrap();
    assert_eq!(duration.0.as_micros(), 2_000_003);
}
