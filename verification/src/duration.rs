//! WMI's interval format: `ddddddddHHMMSS.mmmmmm:000`.

use vstd::prelude::*;
use vstd::utf8::is_continuation_byte;
use vstd::string::StringSliceAdditionalSpecFns;
use crate::error::WMIError;
use crate::num::{IntErrorKind, parse_int_spec, parse_int_chars, lemma_parse_in_range, scan_digits, digit_value, pow10};

verus! {

/// A length of time with microsecond precision.
#[derive(Debug, Clone, Copy, PartialEq, Eq)]
pub struct Interval {
    secs: u64,
    micros: u32,
}

impl Interval {
    /// Every interval has fewer than a million microseconds past its seconds.
    pub closed spec fn wf(self) -> bool {
        self.micros < 1_000_000
    }

    /// The whole seconds.
    pub closed spec fn secs_spec(self) -> nat {
        self.secs as nat
    }

    /// The length in microseconds.
    pub closed spec fn total_micros(self) -> nat {
        self.secs as nat * 1_000_000 + self.micros as nat
    }

    /// The interval of `secs` seconds and `micros` more microseconds.
    pub fn new(secs: u64, micros: u32) -> (r: Interval)
        requires
            micros < 1_000_000,
        ensures
            r.wf(),
            r.secs_spec() == secs,
            r.total_micros() == secs * 1_000_000 + micros,
    {
        Interval { secs, micros }
    }

    /// The whole seconds of the interval.
    pub fn as_secs(&self) -> (r: u64)
        requires
            self.wf(),
        ensures
            r == self.total_micros() / 1_000_000,
    {
        self.secs
    }

    /// The microseconds past the whole seconds.
    pub fn subsec_micros(&self) -> (r: u32)
        requires
            self.wf(),
        ensures
            r == self.total_micros() % 1_000_000,
    {
        self.micros
    }

    /// The whole milliseconds of the interval.
    pub fn as_millis(&self) -> (r: u128)
        requires
            self.wf(),
        ensures
            r == self.total_micros() / 1_000,
    {
        assert((self.secs as nat * 1_000_000 + self.micros as nat) / 1_000
            == self.secs as nat * 1_000 + (self.micros / 1_000) as nat) by (nonlinear_arith)
            requires self.micros < 1_000_000;
        self.secs as u128 * 1_000 + (self.micros / 1_000) as u128
    }

    /// The length of the interval in microseconds.
    pub fn as_micros(&self) -> (r: u128)
        ensures
            r == self.total_micros(),
    {
        self.secs as u128 * 1_000_000 + self.micros as u128
    }
}

/// An interval read from WMI's text form.
#[derive(Debug)]
pub struct WMIDuration(pub Interval);

/// The bytes as Latin-1 characters (so that a byte outside ASCII is never a
/// digit or a sign).
pub open spec fn byte_chars(b: Seq<u8>) -> Seq<char> {
    b.map_values(|x: u8| x as char)
}

/// Whether the text can be cut where the interval parser cuts it: a text of
/// 25 bytes is cut after bytes 14, 15 and 21, which must start characters.
pub open spec fn duration_cuts_ok(b: Seq<u8>) -> bool {
    b.len() == 25 ==> !is_continuation_byte(b[14]) && !is_continuation_byte(b[15])
        && !is_continuation_byte(b[21])
}

/// The interval that a text of WMI's interval format stands for: 25 bytes,
/// of which the first 14 are the seconds and bytes 15 to 20 the
/// microseconds, each parsed as a `u64` (the other bytes are not read).
pub open spec fn duration_text_parse(b: Seq<u8>) -> Result<(nat, nat), Option<IntErrorKind>> {
    if b.len() != 25 {
        Err(None)
    } else {
        match parse_int_spec(byte_chars(b.subrange(0, 14)), 0, u64::MAX as int) {
            Err(e) => Err(Some(e)),
            Ok(secs) => match parse_int_spec(byte_chars(b.subrange(15, 21)), 0, u64::MAX as int) {
                Err(e) => Err(Some(e)),
                Ok(micros) => Ok((secs as nat, micros as nat)),
            },
        }
    }
}

pub(crate) fn byte_chars_of(b: &[u8], start: usize, end: usize) -> (r: Vec<char>)
    requires
        start <= end <= b@.len(),
    ensures
        r@ == byte_chars(b@.subrange(start as int, end as int)),
{
    let mut r: Vec<char> = Vec::new();
    let mut i: usize = start;
    while i < end
        invariant
            start <= i <= end <= b@.len(),
            r@ == byte_chars(b@.subrange(start as int, i as int)),
        decreases end - i,
    {
        r.push(b[i] as char);
        assert(byte_chars(b@.subrange(start as int, i + 1)) =~= byte_chars(b@.subrange(start as int, i as int)).push(b@[i as int] as char));
        i = i + 1;
    }
    r
}

impl WMIDuration {
    /// Reads an interval in WMI's format, `ddddddddHHMMSS.mmmmmm:000`: the
    /// text must be 25 bytes long, and its first 14 bytes (the seconds) and
    /// bytes 15 to 20 (the microseconds) must parse as `u64` values.
    pub fn from_str(s: &str) -> (r: Result<WMIDuration, WMIError>)
        requires
            duration_cuts_ok(s.spec_bytes()),
        ensures
            match duration_text_parse(s.spec_bytes()) {
                Ok((secs, micros)) => r matches Ok(d) && d.0.wf() && d.0.secs_spec() == secs
                    && d.0.total_micros() == secs * 1_000_000 + micros,
                Err(None) => r matches Err(WMIError::ConvertDurationError(t)) && t@ == s@,
                Err(Some(e)) => r == Err::<WMIDuration, WMIError>(WMIError::ParseIntError(e)),
            },
    {
        let b = s.as_bytes();
        if b.len() != 25 {
            return Err(WMIError::ConvertDurationError(s.to_owned()));
        }
        let secs_text = byte_chars_of(b, 0, 14);
        proof { lemma_parse_in_range(secs_text@, 0, u64::MAX as int); }
        let secs = match parse_int_chars(&secs_text, 0, u64::MAX as i128) {
            Ok(v) => v as u64,
            Err(e) => return Err(WMIError::ParseIntError(e)),
        };
        let micros_text = byte_chars_of(b, 15, 21);
        proof { lemma_parse_in_range(micros_text@, 0, u64::MAX as int); }
        let micros = match parse_int_chars(&micros_text, 0, u64::MAX as i128) {
            Ok(v) => v,
            Err(e) => return Err(WMIError::ParseIntError(e)),
        };
        proof { lemma_six_digit_bound(micros_text@); }
        Ok(WMIDuration(Interval::new(secs, micros as u32)))
    }
}

pub(crate) proof fn lemma_scan_below(d: Seq<char>, acc: int, lo: int, hi: int)
    requires
        0 <= acc,
    ensures
        scan_digits(d, acc, false, lo, hi) matches Ok(v) ==> v < (acc + 1) * pow10(d.len()),
    decreases d.len(),
{
    if d.len() == 0 {
        assert((acc + 1) * 1 == acc + 1);
    } else {
        if let Some(v0) = digit_value(d[0]) {
            let next = acc * 10 + v0;
            if lo <= next <= hi {
                lemma_scan_below(d.drop_first(), next, lo, hi);
                let p = pow10((d.len() - 1) as nat);
                assert(pow10(d.len()) == 10 * p);
                assert((next + 1) * p <= (acc + 1) * (10 * p)) by (nonlinear_arith)
                    requires next + 1 <= (acc + 1) * 10, p >= 0;
            }
        }
    }
}

proof fn lemma_six_digit_bound(t: Seq<char>)
    requires
        t.len() == 6,
    ensures
        parse_int_spec(t, 0, u64::MAX as int) matches Ok(v) ==> v < 1_000_000,
{
    reveal_with_fuel(pow10, 7);
    lemma_scan_below(t, 0, 0, u64::MAX as int);
    lemma_scan_below(t.drop_first(), 0, 0, u64::MAX as int);
}

} // verus!
