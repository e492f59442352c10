//! The integer part of an IEEE 754 binary32 or binary64 value, read from its
//! bits: what `f as i128` keeps of a float, rounding toward zero.

use vstd::prelude::*;
use vstd::arithmetic::power2::{pow2, lemma2_to64, lemma2_to64_rest, lemma_pow2_adds, lemma_pow2_pos,
    lemma_pow2_strictly_increases};
use vstd::arithmetic::div_mod::lemma_basic_div;
use vstd::bits::{lemma_u64_shl_is_mul, lemma_u64_shr_is_div};

verus! {

/// `x` held within `[lo, hi]`: `lo` below it, `hi` above it.
pub open spec fn clamp_int(x: int, lo: int, hi: int) -> int {
    if x < lo { lo } else if x > hi { hi } else { x }
}

/// The integer part of `full · 2^(e − point)` for `full >= 0`.
pub open spec fn scaled_part(full: int, e: int, point: int) -> int {
    if e >= point {
        full * pow2((e - point) as nat)
    } else {
        full / (pow2((point - e) as nat) as int)
    }
}

/// The biased exponent field of an `f64`'s bits.
pub open spec fn f64_exponent(b: u64) -> int {
    (b as int / 0x10_0000_0000_0000) % 0x800
}

/// The fraction field of an `f64`'s bits.
pub open spec fn f64_fraction(b: u64) -> int {
    b as int % 0x10_0000_0000_0000
}

/// The sign bit of an `f64`'s bits is set.
pub open spec fn f64_negative(b: u64) -> bool {
    b as int >= 0x8000_0000_0000_0000
}

/// The integer part, toward zero, of the `f64` with bits `b`: a normal value
/// is `(2^52 + fraction) · 2^(exponent − 1075)`, a subnormal one is less
/// than one, NaN counts as zero, and the infinities as `±2^1024`, beyond
/// every finite `f64`.
pub open spec fn f64_trunc(b: u64) -> int {
    let e = f64_exponent(b);
    let frac = f64_fraction(b);
    let mag: int = if e == 0x7ff {
        if frac == 0 { pow2(1024) as int } else { 0 }
    } else if e == 0 {
        0
    } else {
        scaled_part(frac + 0x10_0000_0000_0000, e, 1075)
    };
    if f64_negative(b) { -mag } else { mag }
}

/// The biased exponent field of an `f32`'s bits.
pub open spec fn f32_exponent(b: u32) -> int {
    (b as int / 0x80_0000) % 0x100
}

/// The fraction field of an `f32`'s bits.
pub open spec fn f32_fraction(b: u32) -> int {
    b as int % 0x80_0000
}

/// The sign bit of an `f32`'s bits is set.
pub open spec fn f32_negative(b: u32) -> bool {
    b as int >= 0x8000_0000
}

/// The integer part, toward zero, of the `f32` with bits `b`: a normal value
/// is `(2^23 + fraction) · 2^(exponent − 150)`, a subnormal one is less than
/// one, NaN counts as zero, and the infinities as `±2^128`, beyond every
/// finite `f32`.
pub open spec fn f32_trunc(b: u32) -> int {
    let e = f32_exponent(b);
    let frac = f32_fraction(b);
    let mag: int = if e == 0xff {
        if frac == 0 { pow2(128) as int } else { 0 }
    } else if e == 0 {
        0
    } else {
        scaled_part(frac + 0x80_0000, e, 150)
    };
    if f32_negative(b) { -mag } else { mag }
}

/// The integer part of a finite `f64` rounds its value toward zero: it has
/// the value's sign, and its magnitude is the greatest integer not above the
/// value's magnitude `mantissa · 2^(exponent − 1075)` (a subnormal value has
/// mantissa `fraction` and exponent 1).
pub proof fn lemma_f64_trunc_toward_zero(b: u64)
    requires
        f64_exponent(b) != 0x7ff,
    ensures
        f64_negative(b) ==> f64_trunc(b) <= 0,
        !f64_negative(b) ==> f64_trunc(b) >= 0,
        ({
            let e = f64_exponent(b);
            let ex = if e == 0 { 1 } else { e };
            let mant = if e == 0 { f64_fraction(b) } else { f64_fraction(b) + 0x10_0000_0000_0000 };
            let t = if f64_negative(b) { -f64_trunc(b) } else { f64_trunc(b) };
            if ex < 1075 {
                let d = pow2((1075 - ex) as nat) as int;
                t * d <= mant < (t + 1) * d
            } else {
                t == mant * pow2((ex - 1075) as nat)
            }
        }),
{
    lemma2_to64();
    lemma2_to64_rest();
    lemma_toward_zero(f64_exponent(b), f64_fraction(b), 0x10_0000_0000_0000, 52, 1075);
}

/// The integer part of a finite `f32` rounds its value toward zero: it has
/// the value's sign, and its magnitude is the greatest integer not above the
/// value's magnitude `mantissa · 2^(exponent − 150)` (a subnormal value has
/// mantissa `fraction` and exponent 1).
pub proof fn lemma_f32_trunc_toward_zero(b: u32)
    requires
        f32_exponent(b) != 0xff,
    ensures
        f32_negative(b) ==> f32_trunc(b) <= 0,
        !f32_negative(b) ==> f32_trunc(b) >= 0,
        ({
            let e = f32_exponent(b);
            let ex = if e == 0 { 1 } else { e };
            let mant = if e == 0 { f32_fraction(b) } else { f32_fraction(b) + 0x80_0000 };
            let t = if f32_negative(b) { -f32_trunc(b) } else { f32_trunc(b) };
            if ex < 150 {
                let d = pow2((150 - ex) as nat) as int;
                t * d <= mant < (t + 1) * d
            } else {
                t == mant * pow2((ex - 150) as nat)
            }
        }),
{
    lemma2_to64();
    lemma_toward_zero(f32_exponent(b), f32_fraction(b), 0x80_0000, 23, 150);
}

/// The shared part of the two laws above, over the fields of either format.
proof fn lemma_toward_zero(e: int, frac: int, hidden: int, frac_bits: nat, point: int)
    requires
        0 <= e,
        0 <= frac < hidden,
        hidden == pow2(frac_bits),
        frac_bits + 2 <= point,
    ensures
        ({
            let ex = if e == 0 { 1 } else { e };
            let mant = if e == 0 { frac } else { frac + hidden };
            let m = if e == 0 { 0 } else { scaled_part(frac + hidden, e, point) };
            &&& m >= 0
            &&& if ex < point {
                let d = pow2((point - ex) as nat) as int;
                m * d <= mant < (m + 1) * d
            } else {
                m == mant * pow2((ex - point) as nat)
            }
        }),
{
    let ex = if e == 0 { 1 } else { e };
    let mant = if e == 0 { frac } else { frac + hidden };
    if ex < point {
        let d = pow2((point - ex) as nat) as int;
        lemma_pow2_pos((point - ex) as nat);
        if e == 0 {
            lemma_pow2_strictly_increases(frac_bits, (point - 1) as nat);
            assert(d == pow2((point - 1) as nat));
            assert(mant < d);
        } else {
            let m = scaled_part(frac + hidden, e, point);
            assert(m == mant / d);
            assert(m * d <= mant < (m + 1) * d && m >= 0) by (nonlinear_arith)
                requires d > 0, m == mant / d, mant >= 0;
        }
    } else {
        lemma_pow2_pos((ex - point) as nat);
        let m = scaled_part(frac + hidden, e, point);
        assert(m >= 0) by (nonlinear_arith)
            requires m == mant * pow2((ex - point) as nat), mant >= 0;
    }
}

/// The bound at which the integer parts are saturated: beyond every
/// integer CIM type.
pub const TRUNC_BOUND: i128 = 0x1_0000_0000_0000_0000;

/// The integer part of `full · 2^(e − point)`, saturated at `2^64`, where
/// `full` has exactly `width` bits.
fn scaled_magnitude(full: u64, e: u64, point: u64, width: u64) -> (r: u128)
    requires
        1 <= width <= 53,
        point < 0x1000,
        e < 0x1000,
        pow2((width - 1) as nat) <= full < pow2(width as nat),
    ensures
        r == clamp_int(scaled_part(full as int, e as int, point as int), 0, TRUNC_BOUND as int),
{
    proof {
        lemma2_to64();
        lemma2_to64_rest();
    }
    if e >= point + (65 - width) {
        proof {
            let s: nat = (e - point) as nat;
            let k: nat = (65 - width) as nat;
            if s > k {
                lemma_pow2_strictly_increases(k, s);
            }
            lemma_pow2_adds((width - 1) as nat, k);
            assert(((width - 1) + k) as nat == 64);
            let a = pow2((width - 1) as nat);
            let c = pow2(k);
            let d = pow2(s);
            assert(full * d >= a * c) by (nonlinear_arith)
                requires a <= full, c <= d;
            assert(scaled_part(full as int, e as int, point as int) == full * d);
        }
        0x1_0000_0000_0000_0000u128
    } else if e >= point {
        let s: u64 = e - point;
        proof {
            let k: nat = (64 - width) as nat;
            if (s as nat) < k {
                lemma_pow2_strictly_increases(s as nat, k);
            }
            lemma_pow2_adds(width as nat, k);
            assert((width + k) as nat == 64);
            let a = pow2(width as nat);
            let c = pow2(k);
            let d = pow2(s as nat);
            lemma_pow2_pos(s as nat);
            assert(full * d < a * c) by (nonlinear_arith)
                requires full < a, d <= c, 0 < d;
            lemma_u64_shl_is_mul(full, s);
        }
        (full << s) as u128
    } else {
        let s: u64 = point - e;
        if s >= width {
            proof {
                if (s as nat) > (width as nat) {
                    lemma_pow2_strictly_increases(width as nat, s as nat);
                }
                lemma_basic_div(full as int, pow2(s as nat) as int);
            }
            0
        } else {
            proof {
                lemma_u64_shr_is_div(full, s);
                lemma_pow2_pos(s as nat);
                assert(full as nat / pow2(s as nat) <= full) by (nonlinear_arith)
                    requires pow2(s as nat) > 0;
            }
            (full >> s) as u128
        }
    }
}

/// The integer part of the `f64` with bits `b` (see [`f64_trunc`]),
/// saturated at `±2^64`.
pub fn trunc_f64_bits(b: u64) -> (r: i128)
    ensures
        r == clamp_int(f64_trunc(b), -TRUNC_BOUND, TRUNC_BOUND as int),
{
    let e: u64 = (b >> 52) & 0x7ff;
    let frac: u64 = b & 0xf_ffff_ffff_ffff;
    let neg: bool = (b >> 63) == 1;
    proof {
        assert(e == (b / 0x10_0000_0000_0000) % 0x800) by (bit_vector)
            requires e == (b >> 52) & 0x7ff;
        assert(frac == b % 0x10_0000_0000_0000) by (bit_vector)
            requires frac == b & 0xf_ffff_ffff_ffff;
        assert(neg == (b >= 0x8000_0000_0000_0000)) by (bit_vector)
            requires neg == ((b >> 63) == 1);
        lemma2_to64();
        lemma2_to64_rest();
    }
    let mag: u128 = if e == 0x7ff {
        if frac == 0 {
            proof {
                lemma_pow2_strictly_increases(64, 1024);
            }
            0x1_0000_0000_0000_0000u128
        } else {
            0
        }
    } else if e == 0 {
        0
    } else {
        proof {
            assert(pow2(52) == 0x10_0000_0000_0000) by {
                lemma_pow2_adds(32, 20);
            }
            assert(pow2(53) == 0x20_0000_0000_0000) by {
                lemma_pow2_adds(32, 21);
            }
        }
        scaled_magnitude(frac + 0x10_0000_0000_0000, e, 1075, 53)
    };
    proof {
        let ghost m: int = if e == 0x7ff {
            if frac == 0 { pow2(1024) as int } else { 0 }
        } else if e == 0 {
            0
        } else {
            scaled_part((frac + 0x10_0000_0000_0000) as int, e as int, 1075)
        };
        if e != 0x7ff && e != 0 {
            lemma_pow2_pos((1075 - e) as nat);
            lemma_pow2_pos((e - 1075) as nat);
            assert(m >= 0) by (nonlinear_arith)
                requires
                    m == scaled_part((frac + 0x10_0000_0000_0000) as int, e as int, 1075),
                    pow2((1075 - e) as nat) > 0,
                    pow2((e - 1075) as nat) > 0,
                    (frac + 0x10_0000_0000_0000) >= 0;
        }
        assert(mag == clamp_int(m, 0, TRUNC_BOUND as int));
        assert(f64_trunc(b) == if neg { -m } else { m });
    }
    if neg { -(mag as i128) } else { mag as i128 }
}

/// The integer part of the `f32` with bits `b` (see [`f32_trunc`]),
/// saturated at `±2^64`.
pub fn trunc_f32_bits(b: u32) -> (r: i128)
    ensures
        r == clamp_int(f32_trunc(b), -TRUNC_BOUND, TRUNC_BOUND as int),
{
    let e: u32 = (b >> 23) & 0xff;
    let frac: u32 = b & 0x7f_ffff;
    let neg: bool = (b >> 31) == 1;
    proof {
        assert(e == (b / 0x80_0000) % 0x100) by (bit_vector)
            requires e == (b >> 23) & 0xff;
        assert(frac == b % 0x80_0000) by (bit_vector)
            requires frac == b & 0x7f_ffff;
        assert(neg == (b >= 0x8000_0000)) by (bit_vector)
            requires neg == ((b >> 31) == 1);
        lemma2_to64();
        lemma2_to64_rest();
    }
    let mag: u128 = if e == 0xff {
        if frac == 0 {
            proof {
                lemma_pow2_strictly_increases(64, 128);
            }
            0x1_0000_0000_0000_0000u128
        } else {
            0
        }
    } else if e == 0 {
        0
    } else {
        scaled_magnitude((frac + 0x80_0000) as u64, e as u64, 150, 24)
    };
    proof {
        let ghost m: int = if e == 0xff {
            if frac == 0 { pow2(128) as int } else { 0 }
        } else if e == 0 {
            0
        } else {
            scaled_part((frac + 0x80_0000) as int, e as int, 150)
        };
        if e != 0xff && e != 0 {
            lemma_pow2_pos((150 - e) as nat);
            lemma_pow2_pos((e - 150) as nat);
            assert(m >= 0) by (nonlinear_arith)
                requires
                    m == scaled_part((frac + 0x80_0000) as int, e as int, 150),
                    pow2((150 - e) as nat) > 0,
                    pow2((e - 150) as nat) > 0,
                    (frac + 0x80_0000) >= 0;
        }
        assert(mag == clamp_int(m, 0, TRUNC_BOUND as int));
        assert(f32_trunc(b) == if neg { -m } else { m });
    }
    if neg { -(mag as i128) } else { mag as i128 }
}

} // verus!
