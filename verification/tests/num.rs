use wmi::num::{parse_i32, parse_u64, IntErrorKind};

#[test]
fn num_parses_like_std() {
    for t in ["0", "+7", "-7", "2147483647", "-2147483648", "2147483648", "", "+", "-", "1a", "٣", " 1"] {
        let expected = t.parse::<i32>().map_err(|e| match e.kind() {
            std::num::IntErrorKind::Empty => IntErrorKind::Empty,
            std::num::IntErrorKind::InvalidDigit => IntErrorKind::InvalidDigit,
            std::num::IntErrorKind::PosOverflow => IntErrorKind::PosOverflow,
            std::num::IntErrorKind::NegOverflow => IntErrorKind::NegOverflow,
            _ => unreachable!(),
        });
        assert_eq!(parse_i32(t), expected, "{:?}", t);
    }
    assert_eq!(parse_u64("18446744073709551615"), Ok(u64::MAX));
    assert_eq!(parse_u64("18446744073709551616"), Err(IntErrorKind::PosOverflow));
    assert_eq!(parse_u64("-1"), Err(IntErrorKind::InvalidDigit));
}
