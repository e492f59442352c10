//! Decimal text for integers: formatting, and parsing with the rules of
//! `str::parse` for the primitive integer types.

use vstd::prelude::*;

verus! {

/// The decimal digit for `d` (`0 <= d < 10`).
pub open spec fn digit_char(d: nat) -> char {
    if d == 0 { '0' } else if d == 1 { '1' } else if d == 2 { '2' } else if d == 3 { '3' }
    else if d == 4 { '4' } else if d == 5 { '5' } else if d == 6 { '6' } else if d == 7 { '7' }
    else if d == 8 { '8' } else { '9' }
}

/// The value of a decimal digit character, if it is one.
pub open spec fn digit_value(c: char) -> Option<nat> {
    if '0' <= c && c <= '9' { Some((c as u32 - '0' as u32) as nat) } else { None }
}

/// Ten to the power `n`.
pub open spec fn pow10(n: nat) -> nat
    decreases n,
{
    if n == 0 { 1 } else { 10 * pow10((n - 1) as nat) }
}

/// The decimal text of a natural number, without leading zeros.
pub open spec fn nat_text(n: nat) -> Seq<char>
    decreases n,
{
    if n < 10 {
        seq![digit_char(n)]
    } else {
        nat_text(n / 10).push(digit_char(n % 10))
    }
}

/// The decimal text of an integer: a `-` before a negative one.
pub open spec fn int_text(n: int) -> Seq<char> {
    if n < 0 { seq!['-'] + nat_text((-n) as nat) } else { nat_text(n as nat) }
}

/// The failures of integer parsing (the kinds of `std::num::ParseIntError`).
#[derive(Debug, Clone, Copy, PartialEq, Eq)]
pub enum IntErrorKind {
    Empty,
    InvalidDigit,
    PosOverflow,
    NegOverflow,
}

/// Reads the digits `d` after a value `acc` already read, for a result that must
/// lie in `[lo, hi]`; digits are read from left to right and the first failure
/// is the one reported.
pub open spec fn scan_digits(d: Seq<char>, acc: int, neg: bool, lo: int, hi: int) -> Result<int, IntErrorKind>
    decreases d.len(),
{
    if d.len() == 0 {
        Ok(acc)
    } else {
        match digit_value(d[0]) {
            None => Err(IntErrorKind::InvalidDigit),
            Some(v) => {
                let next = if neg { acc * 10 - v } else { acc * 10 + v };
                if next < lo {
                    Err(IntErrorKind::NegOverflow)
                } else if next > hi {
                    Err(IntErrorKind::PosOverflow)
                } else {
                    scan_digits(d.drop_first(), next, neg, lo, hi)
                }
            }
        }
    }
}

/// `str::parse` for an integer type whose values are `[lo, hi]`: an optional
/// sign (`-` only where `lo < 0`), then at least one decimal digit.
pub open spec fn parse_int_spec(s: Seq<char>, lo: int, hi: int) -> Result<int, IntErrorKind> {
    if s.len() == 0 {
        Err(IntErrorKind::Empty)
    } else if (s[0] == '+' || s[0] == '-') && s.len() == 1 {
        Err(IntErrorKind::InvalidDigit)
    } else if s[0] == '+' {
        scan_digits(s.drop_first(), 0, false, lo, hi)
    } else if s[0] == '-' && lo < 0 {
        scan_digits(s.drop_first(), 0, true, lo, hi)
    } else {
        scan_digits(s, 0, false, lo, hi)
    }
}

proof fn lemma_scan_in_range(d: Seq<char>, acc: int, neg: bool, lo: int, hi: int)
    requires
        lo <= acc <= hi,
    ensures
        scan_digits(d, acc, neg, lo, hi) matches Ok(v) ==> lo <= v <= hi,
    decreases d.len(),
{
    if d.len() > 0 {
        if let Some(v) = digit_value(d[0]) {
            let next = if neg { acc * 10 - v } else { acc * 10 + v };
            if lo <= next <= hi {
                lemma_scan_in_range(d.drop_first(), next, neg, lo, hi);
            }
        }
    }
}

/// A parsed value lies in the range it was parsed for.
pub proof fn lemma_parse_in_range(s: Seq<char>, lo: int, hi: int)
    requires
        lo <= 0 <= hi,
    ensures
        parse_int_spec(s, lo, hi) matches Ok(v) ==> lo <= v <= hi,
{
    if s.len() > 0 {
        lemma_scan_in_range(s.drop_first(), 0, s[0] == '-', lo, hi);
        lemma_scan_in_range(s, 0, false, lo, hi);
    }
}

proof fn lemma_scan_concat(d1: Seq<char>, d2: Seq<char>, acc: int, neg: bool, lo: int, hi: int)
    ensures
        scan_digits(d1 + d2, acc, neg, lo, hi) == match scan_digits(d1, acc, neg, lo, hi) {
            Ok(a) => scan_digits(d2, a, neg, lo, hi),
            Err(e) => Err(e),
        },
    decreases d1.len(),
{
    if d1.len() == 0 {
        assert(d1 + d2 =~= d2);
    } else {
        assert((d1 + d2)[0] == d1[0]);
        assert((d1 + d2).drop_first() =~= d1.drop_first() + d2);
        if let Some(v) = digit_value(d1[0]) {
            let next = if neg { acc * 10 - v } else { acc * 10 + v };
            lemma_scan_concat(d1.drop_first(), d2, next, neg, lo, hi);
        }
    }
}

proof fn lemma_digit_char_value(d: nat)
    requires
        d < 10,
    ensures
        digit_value(digit_char(d)) == Some(d),
{
}

proof fn lemma_nat_text_shape(n: nat)
    ensures
        nat_text(n).len() >= 1,
        digit_value(nat_text(n)[0]) is Some,
    decreases n,
{
    if n >= 10 {
        lemma_nat_text_shape(n / 10);
    } else {
        lemma_digit_char_value(n);
    }
}

proof fn lemma_scan_nat_text(m: nat, neg: bool, lo: int, hi: int)
    requires
        lo <= 0 <= hi,
        neg ==> lo <= -m,
        !neg ==> m <= hi,
    ensures
        scan_digits(nat_text(m), 0, neg, lo, hi) == Ok::<int, IntErrorKind>(if neg { -m } else { m as int }),
    decreases m,
{
    reveal_with_fuel(scan_digits, 2);
    if m < 10 {
        lemma_digit_char_value(m);
        assert(seq![digit_char(m)].drop_first() =~= Seq::<char>::empty());
    } else {
        let q = m / 10;
        let c = digit_char(m % 10);
        lemma_scan_nat_text(q, neg, lo, hi);
        lemma_scan_concat(nat_text(q), seq![c], 0, neg, lo, hi);
        assert(nat_text(q) + seq![c] =~= nat_text(m));
        lemma_digit_char_value(m % 10);
        assert(seq![c].drop_first() =~= Seq::<char>::empty());
        assert(q * 10 + m % 10 == m);
        let a: int = if neg { -q } else { q as int };
        assert(lo <= a <= hi);
        let next: int = if neg { a * 10 - (m % 10) } else { a * 10 + (m % 10) };
        assert(next == (if neg { -m } else { m as int }));
        assert(scan_digits(seq![c], a, neg, lo, hi) == Ok::<int, IntErrorKind>(next));
    }
}

/// Parsing the decimal text of a value of `[lo, hi]` gives the value back.
pub proof fn lemma_parse_int_text(n: int, lo: int, hi: int)
    requires
        lo <= 0 <= hi,
        lo <= n <= hi,
    ensures
        parse_int_spec(int_text(n), lo, hi) == Ok::<int, IntErrorKind>(n),
{
    if n < 0 {
        let m = (-n) as nat;
        lemma_nat_text_shape(m);
        lemma_scan_nat_text(m, true, lo, hi);
        assert((seq!['-'] + nat_text(m)).drop_first() =~= nat_text(m));
    } else {
        lemma_nat_text_shape(n as nat);
        lemma_scan_nat_text(n as nat, false, lo, hi);
    }
}

fn digit_of(c: char) -> (r: Option<u8>)
    ensures
        match digit_value(c) {
            Some(v) => r == Some(v as u8),
            None => r is None,
        },
{
    if '0' <= c && c <= '9' {
        Some((c as u32 - '0' as u32) as u8)
    } else {
        None
    }
}

/// Parses decimal text into a value of `[lo, hi]`, as `str::parse` does for
/// the integer type with that range.
pub fn parse_int_chars(s: &Vec<char>, lo: i128, hi: i128) -> (r: Result<i128, IntErrorKind>)
    requires
        -0x1_0000_0000_0000_0000 <= lo <= 0 <= hi <= 0x1_0000_0000_0000_0000,
    ensures
        match parse_int_spec(s@, lo as int, hi as int) {
            Ok(v) => r == Ok::<i128, IntErrorKind>(v as i128),
            Err(e) => r == Err::<i128, IntErrorKind>(e),
        },
{
    let n = s.len();
    if n == 0 {
        return Err(IntErrorKind::Empty);
    }
    let first = s[0];
    if (first == '+' || first == '-') && n == 1 {
        return Err(IntErrorKind::InvalidDigit);
    }
    let neg = first == '-' && lo < 0;
    let start: usize = if first == '+' || neg { 1 } else { 0 };
    let ghost digits = s@.subrange(start as int, n as int);
    assert(parse_int_spec(s@, lo as int, hi as int) == scan_digits(digits, 0, neg, lo as int, hi as int)) by {
        if start == 1 {
            assert(digits =~= s@.drop_first());
        } else {
            assert(digits =~= s@);
        }
    }
    let mut acc: i128 = 0;
    let mut i: usize = start;
    while i < n
        invariant
            start <= i <= n,
            n == s@.len(),
            lo <= acc <= hi,
            -0x1_0000_0000_0000_0000 <= lo <= 0 <= hi <= 0x1_0000_0000_0000_0000,
            parse_int_spec(s@, lo as int, hi as int) == scan_digits(digits, 0, neg, lo as int, hi as int),
            scan_digits(digits, 0, neg, lo as int, hi as int)
                == scan_digits(s@.subrange(i as int, n as int), acc as int, neg, lo as int, hi as int),
        decreases n - i,
    {
        let ghost rest = s@.subrange(i as int, n as int);
        assert(rest[0] == s@[i as int]);
        assert(rest.drop_first() =~= s@.subrange(i + 1, n as int));
        match digit_of(s[i]) {
            None => {
                return Err(IntErrorKind::InvalidDigit);
            },
            Some(v) => {
                let next: i128 = if neg { acc * 10 - v as i128 } else { acc * 10 + v as i128 };
                if next < lo {
                    return Err(IntErrorKind::NegOverflow);
                }
                if next > hi {
                    return Err(IntErrorKind::PosOverflow);
                }
                acc = next;
            },
        }
        i = i + 1;
    }
    assert(s@.subrange(n as int, n as int).len() == 0);
    Ok(acc)
}

/// Parses a string slice as `str::parse::<u64>` does.
pub fn parse_u64(s: &str) -> (r: Result<u64, IntErrorKind>)
    ensures
        match parse_int_spec(s@, 0, u64::MAX as int) {
            Ok(v) => r == Ok::<u64, IntErrorKind>(v as u64),
            Err(e) => r == Err::<u64, IntErrorKind>(e),
        },
{
    let cs = crate::text::chars_of(s);
    proof { lemma_parse_in_range(s@, 0, u64::MAX as int); }
    match parse_int_chars(&cs, 0, u64::MAX as i128) {
        Ok(v) => Ok(v as u64),
        Err(e) => Err(e),
    }
}

/// Parses a string slice as `str::parse::<i32>` does.
pub fn parse_i32(s: &str) -> (r: Result<i32, IntErrorKind>)
    ensures
        match parse_int_spec(s@, i32::MIN as int, i32::MAX as int) {
            Ok(v) => r == Ok::<i32, IntErrorKind>(v as i32),
            Err(e) => r == Err::<i32, IntErrorKind>(e),
        },
{
    let cs = crate::text::chars_of(s);
    proof { lemma_parse_in_range(s@, i32::MIN as int, i32::MAX as int); }
    match parse_int_chars(&cs, i32::MIN as i128, i32::MAX as i128) {
        Ok(v) => Ok(v as i32),
        Err(e) => Err(e),
    }
}

fn digit_to_char(d: u8) -> (c: char)
    requires
        d < 10,
    ensures
        c == digit_char(d as nat),
{
    if d == 0 { '0' } else if d == 1 { '1' } else if d == 2 { '2' } else if d == 3 { '3' }
    else if d == 4 { '4' } else if d == 5 { '5' } else if d == 6 { '6' } else if d == 7 { '7' }
    else if d == 8 { '8' } else { '9' }
}

/// Appends the decimal text of `n` to `out`.
pub fn push_nat_text(out: &mut Vec<char>, n: u128)
    ensures
        final(out)@ == old(out)@ + nat_text(n as nat),
    decreases n,
{
    if n >= 10 {
        push_nat_text(out, n / 10);
    }
    out.push(digit_to_char((n % 10) as u8));
    proof {
        if n >= 10 {
            assert(old(out)@ + nat_text(n as nat) =~= (old(out)@ + nat_text((n / 10) as nat)).push(digit_char((n % 10) as nat)));
        } else {
            assert(nat_text(n as nat) =~= seq![digit_char(n as nat)]);
        }
    }
}

/// Appends the decimal text of `n` to `out`, with a `-` before a negative value.
pub fn push_int_text(out: &mut Vec<char>, n: i128)
    requires
        n > i128::MIN,
    ensures
        final(out)@ == old(out)@ + int_text(n as int),
{
    if n < 0 {
        out.push('-');
        push_nat_text(out, (-n) as u128);
        assert(old(out)@ + int_text(n as int) =~= old(out)@.push('-') + nat_text((-n) as nat));
    } else {
        push_nat_text(out, n as u128);
    }
}

} // verus!
