//! Values as WMI hands them out and takes them in, and their conversion to
//! the CIM type that a property declares.

use vstd::prelude::*;
use crate::error::WMIError;
use crate::num::{int_text, push_int_text, parse_int_spec, parse_int_chars, lemma_parse_in_range};
use crate::text::{chars_of, char_from_u32, push_str_chars, string_of};
use crate::real_bits::{clamp_int, f32_trunc, f64_trunc, trunc_f32_bits, trunc_f64_bits};

verus! {

/// CIM type: no type.
pub const CIM_EMPTY: i32 = 0;
/// CIM type: signed 8-bit integer.
pub const CIM_SINT8: i32 = 16;
/// CIM type: unsigned 8-bit integer.
pub const CIM_UINT8: i32 = 17;
/// CIM type: signed 16-bit integer.
pub const CIM_SINT16: i32 = 2;
/// CIM type: unsigned 16-bit integer.
pub const CIM_UINT16: i32 = 18;
/// CIM type: signed 32-bit integer.
pub const CIM_SINT32: i32 = 3;
/// CIM type: unsigned 32-bit integer.
pub const CIM_UINT32: i32 = 19;
/// CIM type: signed 64-bit integer.
pub const CIM_SINT64: i32 = 20;
/// CIM type: unsigned 64-bit integer.
pub const CIM_UINT64: i32 = 21;
/// CIM type: 32-bit floating point.
pub const CIM_REAL32: i32 = 4;
/// CIM type: 64-bit floating point.
pub const CIM_REAL64: i32 = 5;
/// CIM type: boolean.
pub const CIM_BOOLEAN: i32 = 11;
/// CIM type: string.
pub const CIM_STRING: i32 = 8;
/// CIM type: date and time (carried as a string).
pub const CIM_DATETIME: i32 = 101;
/// CIM type: reference to an object (carried as a string).
pub const CIM_REFERENCE: i32 = 102;
/// CIM type: one UTF-16 code unit.
pub const CIM_CHAR16: i32 = 103;
/// CIM type: embedded object.
pub const CIM_OBJECT: i32 = 13;
/// Flag of a CIM type that is an array of its base type (the low octet).
pub const CIM_FLAG_ARRAY: i32 = 0x2000;

/// A value of a WMI property or method parameter. Floating-point values are
/// carried as their IEEE 754 bit patterns; `U` is the type of a bare COM
/// object and `O` that of a WMI class object.
#[derive(Debug, PartialEq)]
pub enum Variant<U, O> {
    Empty,
    Null,
    String(String),
    I1(i8),
    I2(i16),
    I4(i32),
    I8(i64),
    /// A 32-bit float, as its bits.
    R4(u32),
    /// A 64-bit float, as its bits.
    R8(u64),
    Bool(bool),
    UI1(u8),
    UI2(u16),
    UI4(u32),
    UI8(u64),
    Array(Vec<Variant<U, O>>),
    /// A COM object that is yet to be read as a class object.
    Unknown(U),
    Object(O),
}

/// The operations on floating-point numbers and COM objects that the
/// conversions need, supplied by the caller.
pub trait CimHost<U, O> {
    /// The bits of `v as f32`.
    fn real32_from_int(&self, v: i128) -> u32;
    /// The bits of `v as f64`.
    fn real64_from_int(&self, v: i128) -> u64;
    /// The bits of `f as f32` for the `f64` with bits `bits`.
    fn real32_from_real64(&self, bits: u64) -> u32;
    /// The bits of `f as f64` for the `f32` with bits `bits`.
    fn real64_from_real32(&self, bits: u32) -> u64;
    /// `f as i128` for the `f32` with bits `bits`. (The conversions read the
    /// integer part from the bits themselves, see `real_bits`.)
    fn trunc_real32(&self, bits: u32) -> i128;
    /// `f as i128` for the `f64` with bits `bits`. (The conversions read the
    /// integer part from the bits themselves, see `real_bits`.)
    fn trunc_real64(&self, bits: u64) -> i128;
    /// `s.parse::<f32>()`, as bits, or the parser's message.
    fn parse_real32(&self, s: &str) -> Result<u32, String>;
    /// `s.parse::<f64>()`, as bits, or the parser's message.
    fn parse_real64(&self, s: &str) -> Result<u64, String>;
    /// The debug text of the `f32` with bits `bits`.
    fn real32_text(&self, bits: u32) -> String;
    /// The debug text of the `f64` with bits `bits`.
    fn real64_text(&self, bits: u64) -> String;
    /// The class object behind a COM object.
    fn unknown_to_object(&self, u: U) -> Result<O, WMIError>;
}

/// The CIM types of the integer variants.
pub open spec fn is_int_target(t: i32) -> bool {
    t == CIM_UINT8 || t == CIM_UINT16 || t == CIM_UINT32 || t == CIM_UINT64
        || t == CIM_SINT8 || t == CIM_SINT16 || t == CIM_SINT32 || t == CIM_SINT64
}

/// The least value of an integer CIM type.
pub open spec fn int_target_lo(t: i32) -> int {
    if t == CIM_SINT8 { i8::MIN as int } else if t == CIM_SINT16 { i16::MIN as int }
    else if t == CIM_SINT32 { i32::MIN as int } else if t == CIM_SINT64 { i64::MIN as int }
    else { 0 }
}

/// The greatest value of an integer CIM type.
pub open spec fn int_target_hi(t: i32) -> int {
    if t == CIM_UINT8 { u8::MAX as int } else if t == CIM_UINT16 { u16::MAX as int }
    else if t == CIM_UINT32 { u32::MAX as int } else if t == CIM_UINT64 { u64::MAX as int }
    else if t == CIM_SINT8 { i8::MAX as int } else if t == CIM_SINT16 { i16::MAX as int }
    else if t == CIM_SINT32 { i32::MAX as int } else { i64::MAX as int }
}

/// The variant of an integer CIM type holding `n` cast with `as` (keeping the
/// low bits).
pub open spec fn int_target_cast<U, O>(n: int, t: i32) -> Variant<U, O> {
    if t == CIM_UINT8 { Variant::UI1(n as u8) }
    else if t == CIM_UINT16 { Variant::UI2(n as u16) }
    else if t == CIM_UINT32 { Variant::UI4(n as u32) }
    else if t == CIM_UINT64 { Variant::UI8(n as u64) }
    else if t == CIM_SINT8 { Variant::I1(n as i8) }
    else if t == CIM_SINT16 { Variant::I2(n as i16) }
    else if t == CIM_SINT32 { Variant::I4(n as i32) }
    else { Variant::I8(n as i64) }
}

/// `w` is a value of the integer CIM type `t`.
pub open spec fn has_int_target<U, O>(w: Variant<U, O>, t: i32) -> bool {
    match w {
        Variant::UI1(_) => t == CIM_UINT8,
        Variant::UI2(_) => t == CIM_UINT16,
        Variant::UI4(_) => t == CIM_UINT32,
        Variant::UI8(_) => t == CIM_UINT64,
        Variant::I1(_) => t == CIM_SINT8,
        Variant::I2(_) => t == CIM_SINT16,
        Variant::I4(_) => t == CIM_SINT32,
        Variant::I8(_) => t == CIM_SINT64,
        _ => false,
    }
}

/// The value of an integer variant.
pub open spec fn int_value<U, O>(v: Variant<U, O>) -> Option<int> {
    match v {
        Variant::I1(n) => Some(n as int),
        Variant::I2(n) => Some(n as int),
        Variant::I4(n) => Some(n as int),
        Variant::I8(n) => Some(n as int),
        Variant::UI1(n) => Some(n as int),
        Variant::UI2(n) => Some(n as int),
        Variant::UI4(n) => Some(n as int),
        Variant::UI8(n) => Some(n as int),
        _ => None,
    }
}

/// The debug text of a CIM type.
pub open spec fn cimtype_text(t: i32) -> Seq<char> {
    "CIMTYPE_ENUMERATION("@ + int_text(t as int) + ")"@
}

/// A single UTF-16 code unit read as a string: one character, or an error
/// for a lone surrogate.
pub open spec fn char16_converts<U, O>(u: u16, r: Result<Variant<U, O>, WMIError>) -> bool {
    if 0xD800 <= u && u <= 0xDFFF {
        r == Err::<Variant<U, O>, WMIError>(WMIError::ConvertStringError)
    } else {
        r matches Ok(Variant::String(s)) && s@ == seq![(u as u32) as char]
    }
}

/// How an integer `n` converts to the CIM type `t`.
pub open spec fn int_converts<U, O>(n: int, t: i32, r: Result<Variant<U, O>, WMIError>) -> bool {
    if is_int_target(t) {
        r == Ok::<Variant<U, O>, WMIError>(int_target_cast(n, t))
    } else if t == CIM_REAL32 {
        r matches Ok(Variant::R4(_))
    } else if t == CIM_REAL64 {
        r matches Ok(Variant::R8(_))
    } else if t == CIM_CHAR16 {
        char16_converts(n as u16, r)
    } else {
        r matches Err(WMIError::ConvertVariantError(m))
            && m@ == "Value "@ + int_text(n) + " cannot be turned into a CIMTYPE "@ + cimtype_text(t)
    }
}

/// How a floating-point value converts to the CIM type `t`: to the integer
/// types its integer part `trunc`, saturated at the type's bounds (NaN as
/// zero); to the other float type; to one UTF-16 unit, its integer part
/// saturated to `0..=65535`; or not at all. `same` is the value itself when
/// `t` is its own type.
pub open spec fn real_converts<U, O>(same: Option<Variant<U, O>>, trunc: int, t: i32, r: Result<Variant<U, O>, WMIError>) -> bool {
    if is_int_target(t) {
        r == Ok::<Variant<U, O>, WMIError>(int_target_cast(clamp_int(trunc, int_target_lo(t), int_target_hi(t)), t))
    } else if t == CIM_REAL32 || t == CIM_REAL64 {
        match same {
            Some(v) => r == Ok::<Variant<U, O>, WMIError>(v),
            None => if t == CIM_REAL32 { r matches Ok(Variant::R4(_)) } else { r matches Ok(Variant::R8(_)) },
        }
    } else if t == CIM_CHAR16 {
        char16_converts(clamp_int(trunc, 0, 65535) as u16, r)
    } else {
        r matches Err(WMIError::ConvertVariantError(_))
    }
}

/// How a string converts to the CIM type `t`: kept for string, character,
/// date, reference and unknown types; parsed for the number types.
pub open spec fn string_converts<U, O>(s: String, t: i32, r: Result<Variant<U, O>, WMIError>) -> bool {
    if t == CIM_STRING || t == CIM_CHAR16 {
        r == Ok::<Variant<U, O>, WMIError>(Variant::String(s))
    } else if t == CIM_REAL64 {
        (r matches Ok(Variant::R8(_))) || (r matches Err(WMIError::ParseFloatError(_)))
    } else if t == CIM_REAL32 {
        (r matches Ok(Variant::R4(_))) || (r matches Err(WMIError::ParseFloatError(_)))
    } else if is_int_target(t) {
        match parse_int_spec(s@, int_target_lo(t), int_target_hi(t)) {
            Ok(v) => r == Ok::<Variant<U, O>, WMIError>(int_target_cast(v, t)),
            Err(e) => r == Err::<Variant<U, O>, WMIError>(WMIError::ParseIntError(e)),
        }
    } else {
        r == Ok::<Variant<U, O>, WMIError>(Variant::String(s))
    }
}

/// `t` asks for an array of its base type.
pub open spec fn is_array_type(t: i32) -> bool {
    t & CIM_FLAG_ARRAY != 0
}

/// The base type of an array CIM type.
pub open spec fn base_type(t: i32) -> i32 {
    t & 0xff
}

/// How a value converts to the CIM type `t`, as `convert_into_cim_type` does
/// it: `r` is a possible outcome (the float and COM steps are the host's).
pub open spec fn converts<U, O>(v: Variant<U, O>, t: i32, r: Result<Variant<U, O>, WMIError>) -> bool
    decreases v, if is_array_type(t) { 1int } else { 0int },
{
    if t == CIM_EMPTY {
        r == Ok::<Variant<U, O>, WMIError>(Variant::Null)
    } else if is_array_type(t) {
        proof {
            assert((t & 0xff) & 0x2000 == 0) by (bit_vector);
        }
        match v {
            Variant::Array(a) => converts(Variant::Array(a), base_type(t), r),
            Variant::Empty => r matches Ok(Variant::Array(w)) && w@.len() == 0,
            Variant::Null => r matches Ok(Variant::Array(w)) && w@.len() == 0,
            _ => match r {
                Ok(Variant::Array(w)) => w@.len() == 1 && converts(v, base_type(t), Ok(w@[0])),
                Ok(_) => false,
                Err(e) => converts(v, base_type(t), Err(e)),
            },
        }
    } else {
        match v {
            Variant::Empty => r == Ok::<Variant<U, O>, WMIError>(Variant::Empty),
            Variant::Null => r == Ok::<Variant<U, O>, WMIError>(Variant::Null),
            Variant::I1(n) => int_converts(n as int, t, r),
            Variant::I2(n) => int_converts(n as int, t, r),
            Variant::I4(n) => int_converts(n as int, t, r),
            Variant::I8(n) => int_converts(n as int, t, r),
            Variant::UI1(n) => int_converts(n as int, t, r),
            Variant::UI2(n) => int_converts(n as int, t, r),
            Variant::UI4(n) => int_converts(n as int, t, r),
            Variant::UI8(n) => int_converts(n as int, t, r),
            Variant::R4(b) => real_converts(if t == CIM_REAL32 { Some(Variant::R4(b)) } else { None }, f32_trunc(b), t, r),
            Variant::R8(b) => real_converts(if t == CIM_REAL64 { Some(Variant::R8(b)) } else { None }, f64_trunc(b), t, r),
            Variant::Bool(b) => if t == CIM_BOOLEAN {
                r == Ok::<Variant<U, O>, WMIError>(Variant::Bool(b))
            } else {
                r matches Err(WMIError::ConvertVariantError(m))
                    && m@ == "A boolean Variant cannot be turned into a CIMTYPE "@ + cimtype_text(t)
            },
            Variant::String(s) => string_converts(s, t, r),
            Variant::Array(a) => match r {
                Ok(Variant::Array(w)) => w@.len() == a@.len()
                    && forall|i: int| 0 <= i < a@.len() ==> converts(#[trigger] a@[i], t, Ok(w@[i])),
                Ok(_) => false,
                Err(e) => exists|w: Seq<Variant<U, O>>| #![trigger w.len()]
                    w.len() < a@.len()
                    && converts(a@[w.len() as int], t, Err(e))
                    && forall|i: int| 0 <= i < w.len() ==> converts(#[trigger] a@[i], t, Ok(w[i])),
            },
            Variant::Unknown(_) => if t == CIM_OBJECT {
                (r matches Ok(Variant::Object(_))) || (r is Err)
            } else {
                r matches Err(WMIError::ConvertVariantError(m))
                    && m@ == "A unknown Variant cannot be turned into a CIMTYPE "@ + cimtype_text(t)
            },
            Variant::Object(o) => r == Ok::<Variant<U, O>, WMIError>(Variant::Object(o)),
        }
    }
}


/// A value of an integer CIM type converts to that type unchanged.
proof fn lemma_int_value_fixed<U, O>(w: Variant<U, O>, t: i32)
    requires
        is_int_target(t),
        has_int_target(w, t),
    ensures
        converts(w, t, Ok(w)),
{
    assert(0 <= t < 0x2000 ==> t & 0x2000 == 0) by (bit_vector);
}

/// Casting into an integer CIM type gives a value of that type.
proof fn lemma_int_cast_has_target<U, O>(n: int, t: i32)
    requires
        is_int_target(t),
    ensures
        has_int_target(int_target_cast::<U, O>(n, t), t),
{
}

/// Converting what a conversion to `t` gave back to `t` once more gives it
/// back unchanged (each float and COM step of the host taken as it came).
/// This fails only for an array type whose base type is `CIM_EMPTY`: the
/// first conversion gives `Null`, the second the empty array.
proof fn lemma_convert_idempotent<U, O>(v: Variant<U, O>, t: i32, r: Variant<U, O>)
    requires
        converts(v, t, Ok(r)),
        !(is_array_type(t) && base_type(t) == CIM_EMPTY),
    ensures
        converts(r, t, Ok(r)),
    decreases v, if is_array_type(t) { 1int } else { 0int },
{
    if t == CIM_EMPTY {
    } else if is_array_type(t) {
        let base = base_type(t);
        assert((t & 0xff) & 0x2000 == 0) by (bit_vector);
        assert(!is_array_type(base));
        match v {
            Variant::Array(a) => {
                assert(converts(Variant::Array(a), base, Ok(r)));
                assert(r is Array);
                lemma_convert_idempotent(Variant::Array(a), base, r);
            },
            Variant::Empty => {
                assert(converts(r, base, Ok(r)));
            },
            Variant::Null => {
                assert(converts(r, base, Ok(r)));
            },
            _ => {
                let w = r->Array_0;
                lemma_convert_idempotent(v, base, w@[0]);
                assert(converts(r, base, Ok(r)));
            },
        }
    } else {
        match v {
            Variant::Array(a) => {
                let w = r->Array_0;
                assert forall|i: int| 0 <= i < w@.len() implies converts(#[trigger] w@[i], t, Ok(w@[i])) by {
                    assert(converts(a@[i], t, Ok(w@[i])));
                    lemma_convert_idempotent(a@[i], t, w@[i]);
                }
            },
            Variant::I1(n) => if is_int_target(t) { lemma_int_cast_has_target::<U, O>(n as int, t); lemma_int_value_fixed(r, t); },
            Variant::I2(n) => if is_int_target(t) { lemma_int_cast_has_target::<U, O>(n as int, t); lemma_int_value_fixed(r, t); },
            Variant::I4(n) => if is_int_target(t) { lemma_int_cast_has_target::<U, O>(n as int, t); lemma_int_value_fixed(r, t); },
            Variant::I8(n) => if is_int_target(t) { lemma_int_cast_has_target::<U, O>(n as int, t); lemma_int_value_fixed(r, t); },
            Variant::UI1(n) => if is_int_target(t) { lemma_int_cast_has_target::<U, O>(n as int, t); lemma_int_value_fixed(r, t); },
            Variant::UI2(n) => if is_int_target(t) { lemma_int_cast_has_target::<U, O>(n as int, t); lemma_int_value_fixed(r, t); },
            Variant::UI4(n) => if is_int_target(t) { lemma_int_cast_has_target::<U, O>(n as int, t); lemma_int_value_fixed(r, t); },
            Variant::UI8(n) => if is_int_target(t) { lemma_int_cast_has_target::<U, O>(n as int, t); lemma_int_value_fixed(r, t); },
            Variant::R4(b) => if is_int_target(t) {
                lemma_int_cast_has_target::<U, O>(clamp_int(f32_trunc(b), int_target_lo(t), int_target_hi(t)), t);
                lemma_int_value_fixed(r, t);
            },
            Variant::R8(b) => if is_int_target(t) {
                lemma_int_cast_has_target::<U, O>(clamp_int(f64_trunc(b), int_target_lo(t), int_target_hi(t)), t);
                lemma_int_value_fixed(r, t);
            },
            Variant::String(s) => if is_int_target(t) && t != CIM_STRING && t != CIM_CHAR16 {
                if let Ok(x) = parse_int_spec(s@, int_target_lo(t), int_target_hi(t)) {
                    lemma_int_cast_has_target::<U, O>(x, t);
                    lemma_int_value_fixed(r, t);
                }
            },
            _ => {},
        }
    }
}

/// Two values are the same: equal, with arrays compared element by element.
pub open spec fn same_value<U, O>(a: Variant<U, O>, b: Variant<U, O>) -> bool
    decreases a,
{
    match a {
        Variant::Array(x) => match b {
            Variant::Array(y) => x@.len() == y@.len()
                && forall|i: int| 0 <= i < x@.len() ==> same_value(#[trigger] x@[i], y@[i]),
            _ => false,
        },
        _ => a == b,
    }
}

/// A value that converts to `t` unchanged has no other outcome: converting
/// it to `t` gives the same value back.
proof fn lemma_fixed_value_unique<U, O>(x: Variant<U, O>, t: i32, r2: Result<Variant<U, O>, WMIError>)
    requires
        converts(x, t, Ok(x)),
        converts(x, t, r2),
        !(is_array_type(t) && base_type(t) == CIM_EMPTY),
    ensures
        r2 matches Ok(y) && same_value(y, x),
    decreases x, if is_array_type(t) { 1int } else { 0int },
{
    if t == CIM_EMPTY {
    } else if is_array_type(t) {
        let base = base_type(t);
        assert((t & 0xff) & 0x2000 == 0) by (bit_vector);
        assert(!is_array_type(base));
        match x {
            Variant::Array(a) => {
                assert(converts(Variant::Array(a), base, Ok(x)));
                assert(converts(Variant::Array(a), base, r2));
                lemma_fixed_value_unique(x, base, r2);
            },
            Variant::Empty => {},
            Variant::Null => {},
            _ => {},
        }
    } else {
        match x {
            Variant::Array(a) => {
                match r2 {
                    Ok(Variant::Array(w2)) => {
                        assert forall|i: int| 0 <= i < w2@.len() implies same_value(#[trigger] w2@[i], a@[i]) by {
                            assert(converts(a@[i], t, Ok(a@[i])));
                            assert(converts(a@[i], t, Ok(w2@[i])));
                            lemma_fixed_value_unique(a@[i], t, Ok(w2@[i]));
                        }
                    },
                    Ok(_) => {},
                    Err(e) => {
                        let w = choose|w: Seq<Variant<U, O>>| #![trigger w.len()]
                            w.len() < a@.len()
                            && converts(a@[w.len() as int], t, Err(e))
                            && forall|i: int| 0 <= i < w.len() ==> converts(#[trigger] a@[i], t, Ok(w[i]));
                        let k = w.len() as int;
                        assert(converts(a@[k], t, Ok(a@[k])));
                        lemma_fixed_value_unique(a@[k], t, Err(e));
                    },
                }
            },
            _ => {},
        }
    }
}

/// Converting what a conversion to `t` gave back to `t` once more has one
/// outcome: the same value. This fails only for an array type whose base
/// type is `CIM_EMPTY`, where the first conversion gives `Null` and the
/// second the empty array.
pub proof fn lemma_convert_twice<U, O>(v: Variant<U, O>, t: i32, r: Variant<U, O>, r2: Result<Variant<U, O>, WMIError>)
    requires
        converts(v, t, Ok(r)),
        converts(r, t, r2),
        !(is_array_type(t) && base_type(t) == CIM_EMPTY),
    ensures
        r2 matches Ok(y) && same_value(y, r),
{
    lemma_convert_idempotent(v, t, r);
    lemma_fixed_value_unique(r, t, r2);
}

/// A float converted to an integer CIM type holds its integer part when
/// that fits the type, and the type's least or greatest value when the part
/// lies below or above it (so a negative float converted to a signed type
/// gives a value that is not positive, and to an unsigned type zero).
pub proof fn lemma_real_to_int_saturates<U, O>(v: Variant<U, O>, t: i32, r: Result<Variant<U, O>, WMIError>)
    requires
        v is R4 || v is R8,
        is_int_target(t),
        converts(v, t, r),
    ensures
        ({
            let x = match v { Variant::R4(b) => f32_trunc(b), Variant::R8(b) => f64_trunc(b), _ => 0 };
            let lo = int_target_lo(t);
            let hi = int_target_hi(t);
            &&& r matches Ok(w) && has_int_target(w, t)
            &&& lo <= x <= hi ==> (r matches Ok(w) && int_value(w) == Some(x))
            &&& x < lo ==> (r matches Ok(w) && int_value(w) == Some(lo))
            &&& x > hi ==> (r matches Ok(w) && int_value(w) == Some(hi))
        }),
{
    assert(0 <= t < 0x2000 ==> t & 0x2000 == 0) by (bit_vector);
    let x = match v { Variant::R4(b) => f32_trunc(b), Variant::R8(b) => f64_trunc(b), _ => 0 };
    lemma_int_cast_has_target::<U, O>(clamp_int(x, int_target_lo(t), int_target_hi(t)), t);
}

fn is_int_target_exec(t: i32) -> (r: bool)
    ensures
        r == is_int_target(t),
{
    t == CIM_UINT8 || t == CIM_UINT16 || t == CIM_UINT32 || t == CIM_UINT64
        || t == CIM_SINT8 || t == CIM_SINT16 || t == CIM_SINT32 || t == CIM_SINT64
}

fn int_target_range(t: i32) -> (r: (i128, i128))
    ensures
        r.0 == int_target_lo(t),
        r.1 == int_target_hi(t),
{
    let lo: i128 = if t == CIM_SINT8 { i8::MIN as i128 } else if t == CIM_SINT16 { i16::MIN as i128 }
        else if t == CIM_SINT32 { i32::MIN as i128 } else if t == CIM_SINT64 { i64::MIN as i128 }
        else { 0 };
    let hi: i128 = if t == CIM_UINT8 { u8::MAX as i128 } else if t == CIM_UINT16 { u16::MAX as i128 }
        else if t == CIM_UINT32 { u32::MAX as i128 } else if t == CIM_UINT64 { u64::MAX as i128 }
        else if t == CIM_SINT8 { i8::MAX as i128 } else if t == CIM_SINT16 { i16::MAX as i128 }
        else if t == CIM_SINT32 { i32::MAX as i128 } else { i64::MAX as i128 };
    (lo, hi)
}

fn cast_int<U, O>(n: i128, t: i32) -> (r: Variant<U, O>)
    requires
        is_int_target(t),
    ensures
        r == int_target_cast::<U, O>(n as int, t),
{
    if t == CIM_UINT8 { Variant::UI1(n as u8) }
    else if t == CIM_UINT16 { Variant::UI2(n as u16) }
    else if t == CIM_UINT32 { Variant::UI4(n as u32) }
    else if t == CIM_UINT64 { Variant::UI8(n as u64) }
    else if t == CIM_SINT8 { Variant::I1(n as i8) }
    else if t == CIM_SINT16 { Variant::I2(n as i16) }
    else if t == CIM_SINT32 { Variant::I4(n as i32) }
    else { Variant::I8(n as i64) }
}

fn char16_variant<U, O>(u: u16) -> (r: Result<Variant<U, O>, WMIError>)
    ensures
        char16_converts(u, r),
{
    if 0xD800 <= u && u <= 0xDFFF {
        return Err(WMIError::ConvertStringError);
    }
    match char_from_u32(u as u32) {
        Some(c) => {
            let mut v: Vec<char> = Vec::new();
            v.push(c);
            assert(v@ =~= seq![(u as u32) as char]);
            Ok(Variant::String(string_of(&v)))
        },
        None => Err(WMIError::ConvertStringError),
    }
}

fn cimtype_message(prefix: &str, t: i32) -> (r: String)
    ensures
        r@ == prefix@ + cimtype_text(t),
{
    let mut out = chars_of(prefix);
    push_str_chars(&mut out, "CIMTYPE_ENUMERATION(");
    push_int_text(&mut out, t as i128);
    push_str_chars(&mut out, ")");
    assert(out@ =~= prefix@ + cimtype_text(t));
    string_of(&out)
}

fn value_message(value: &Vec<char>, t: i32) -> (r: String)
    ensures
        r@ == "Value "@ + value@ + " cannot be turned into a CIMTYPE "@ + cimtype_text(t),
{
    let mut out = chars_of("Value ");
    let mut v = value.clone();
    out.append(&mut v);
    push_str_chars(&mut out, " cannot be turned into a CIMTYPE ");
    push_str_chars(&mut out, "CIMTYPE_ENUMERATION(");
    push_int_text(&mut out, t as i128);
    push_str_chars(&mut out, ")");
    assert(out@ =~= "Value "@ + value@ + " cannot be turned into a CIMTYPE "@ + cimtype_text(t));
    string_of(&out)
}

fn convert_int<U, O, H: CimHost<U, O>>(n: i128, t: i32, host: &H) -> (r: Result<Variant<U, O>, WMIError>)
    requires
        i64::MIN <= n <= u64::MAX,
    ensures
        int_converts(n as int, t, r),
{
    if is_int_target_exec(t) {
        Ok(cast_int(n, t))
    } else if t == CIM_REAL32 {
        Ok(Variant::R4(host.real32_from_int(n)))
    } else if t == CIM_REAL64 {
        Ok(Variant::R8(host.real64_from_int(n)))
    } else if t == CIM_CHAR16 {
        char16_variant(n as u16)
    } else {
        let mut text: Vec<char> = Vec::new();
        push_int_text(&mut text, n);
        Err(WMIError::ConvertVariantError(value_message(&text, t)))
    }
}

fn clamp(x: i128, lo: i128, hi: i128) -> (r: i128)
    requires
        lo <= hi,
    ensures
        r == clamp_int(x as int, lo as int, hi as int),
{
    if x < lo { lo } else if x > hi { hi } else { x }
}

fn convert_real<U, O, H: CimHost<U, O>>(v: Variant<U, O>, t: i32, host: &H) -> (r: Result<Variant<U, O>, WMIError>)
    requires
        v is R4 || v is R8,
    ensures
        match v {
            Variant::R4(b) => real_converts(if t == CIM_REAL32 { Some(Variant::R4(b)) } else { None }, f32_trunc(b), t, r),
            Variant::R8(b) => real_converts(if t == CIM_REAL64 { Some(Variant::R8(b)) } else { None }, f64_trunc(b), t, r),
            _ => false,
        },
{
    let (is_r4, b4, b8): (bool, u32, u64) = match v {
        Variant::R4(b) => (true, b, 0),
        Variant::R8(b) => (false, 0, b),
        _ => (false, 0, 0),
    };
    if is_int_target_exec(t) {
        let x = if is_r4 { trunc_f32_bits(b4) } else { trunc_f64_bits(b8) };
        let (lo, hi) = int_target_range(t);
        Ok(cast_int(clamp(x, lo, hi), t))
    } else if t == CIM_REAL32 {
        if is_r4 { Ok(Variant::R4(b4)) } else { Ok(Variant::R4(host.real32_from_real64(b8))) }
    } else if t == CIM_REAL64 {
        if is_r4 { Ok(Variant::R8(host.real64_from_real32(b4))) } else { Ok(Variant::R8(b8)) }
    } else if t == CIM_CHAR16 {
        let x = if is_r4 { trunc_f32_bits(b4) } else { trunc_f64_bits(b8) };
        char16_variant(clamp(x, 0, 65535) as u16)
    } else {
        let text = if is_r4 { host.real32_text(b4) } else { host.real64_text(b8) };
        Err(WMIError::ConvertVariantError(value_message(&chars_of(text.as_str()), t)))
    }
}

fn convert_string<U, O, H: CimHost<U, O>>(s: String, t: i32, host: &H) -> (r: Result<Variant<U, O>, WMIError>)
    ensures
        string_converts(s, t, r),
{
    if t == CIM_STRING || t == CIM_CHAR16 {
        Ok(Variant::String(s))
    } else if t == CIM_REAL64 {
        match host.parse_real64(s.as_str()) {
            Ok(b) => Ok(Variant::R8(b)),
            Err(m) => Err(WMIError::ParseFloatError(m)),
        }
    } else if t == CIM_REAL32 {
        match host.parse_real32(s.as_str()) {
            Ok(b) => Ok(Variant::R4(b)),
            Err(m) => Err(WMIError::ParseFloatError(m)),
        }
    } else if is_int_target_exec(t) {
        let (lo, hi) = int_target_range(t);
        let cs = chars_of(s.as_str());
        proof { lemma_parse_in_range(s@, lo as int, hi as int); }
        match parse_int_chars(&cs, lo, hi) {
            Ok(v) => Ok(cast_int(v, t)),
            Err(e) => Err(WMIError::ParseIntError(e)),
        }
    } else {
        Ok(Variant::String(s))
    }
}

impl<U, O> Variant<U, O> {
    /// Converts the value to the CIM type `cim_type` (as WMI declares a
    /// property's type): numbers are cast with `as` (floats saturate), strings
    /// are parsed into numbers, booleans and objects keep their type, arrays
    /// convert element by element, and an array type wraps a single value in
    /// an array (an empty or null value becomes the empty array).
    pub fn convert_into_cim_type<H: CimHost<U, O>>(self, cim_type: i32, host: &H) -> (r: Result<Variant<U, O>, WMIError>)
        ensures
            converts(self, cim_type, r),
        decreases self, if is_array_type(cim_type) { 1int } else { 0int },
    {
        if cim_type == CIM_EMPTY {
            return Ok(Variant::Null);
        }
        if cim_type & CIM_FLAG_ARRAY != 0 {
            let base = cim_type & 0xff;
            assert(base & 0x2000 == 0) by (bit_vector)
                requires base == cim_type & 0xff;
            let ghost orig = self;
            return match self {
                Variant::Array(arr) => Variant::Array(arr).convert_into_cim_type(base, host),
                Variant::Empty => Ok(Variant::Array(Vec::new())),
                Variant::Null => Ok(Variant::Array(Vec::new())),
                not_array => {
                    match not_array.convert_into_cim_type(base, host) {
                        Ok(x) => {
                            let mut w: Vec<Variant<U, O>> = Vec::new();
                            w.push(x);
                            Ok(Variant::Array(w))
                        },
                        Err(e) => Err(e),
                    }
                },
            };
        }
        let ghost orig = self;
        match self {
            Variant::Empty => Ok(Variant::Empty),
            Variant::Null => Ok(Variant::Null),
            Variant::I1(n) => convert_int(n as i128, cim_type, host),
            Variant::I2(n) => convert_int(n as i128, cim_type, host),
            Variant::I4(n) => convert_int(n as i128, cim_type, host),
            Variant::I8(n) => convert_int(n as i128, cim_type, host),
            Variant::UI1(n) => convert_int(n as i128, cim_type, host),
            Variant::UI2(n) => convert_int(n as i128, cim_type, host),
            Variant::UI4(n) => convert_int(n as i128, cim_type, host),
            Variant::UI8(n) => convert_int(n as i128, cim_type, host),
            Variant::R4(b) => convert_real(Variant::R4(b), cim_type, host),
            Variant::R8(b) => convert_real(Variant::R8(b), cim_type, host),
            Variant::Bool(b) => {
                if cim_type == CIM_BOOLEAN {
                    Ok(Variant::Bool(b))
                } else {
                    Err(WMIError::ConvertVariantError(
                        cimtype_message("A boolean Variant cannot be turned into a CIMTYPE ", cim_type),
                    ))
                }
            },
            Variant::String(s) => convert_string(s, cim_type, host),
            Variant::Array(vs) => {
                let ghost a = vs@;
                let ghost vs_g = vs;
                let n = vs.len();
                let mut rest = vs;
                let mut rev: Vec<Variant<U, O>> = Vec::new();
                while rest.len() > 0
                    invariant
                        rest@.len() + rev@.len() == n,
                        n == a.len(),
                        rest@ == a.subrange(0, rest@.len() as int),
                        forall|j: int| 0 <= j < rev@.len() ==> #[trigger] rev@[j] == a[n - 1 - j],
                    decreases rest@.len(),
                {
                    let x = rest.pop().unwrap();
                    rev.push(x);
                }
                let mut out: Vec<Variant<U, O>> = Vec::new();
                let mut i: usize = 0;
                while i < n
                    invariant
                        0 <= i <= n,
                        n == a.len(),
                        orig == Variant::<U, O>::Array(vs_g),
                        orig == self,
                        a == vs_g@,
                        cim_type != CIM_EMPTY,
                        !is_array_type(cim_type),
                        rev@.len() == n - i,
                        out@.len() == i,
                        forall|j: int| 0 <= j < rev@.len() ==> #[trigger] rev@[j] == a[n - 1 - j],
                        forall|j: int| 0 <= j < i ==> converts(#[trigger] a[j], cim_type, Ok(out@[j])),
                    decreases n - i,
                {
                    let x = rev.pop().unwrap();
                    assert(x == a[i as int]);
                    assert(orig->Array_0 == vs_g);
                    assert(decreases_to!(orig => orig->Array_0));
                    assert(decreases_to!(vs_g => vs_g@));
                    assert(decreases_to!(vs_g@ => vs_g@[i as int]));
                    assert(decreases_to!(orig => x));
                    match x.convert_into_cim_type(cim_type, host) {
                        Ok(y) => {
                            out.push(y);
                        },
                        Err(e) => {
                            assert(out@.len() < vs_g@.len());
                            assert(converts(vs_g@[out@.len() as int], cim_type, Err(e)));
                            assert(forall|j: int| 0 <= j < out@.len() ==> converts(#[trigger] vs_g@[j], cim_type, Ok(out@[j])));
                            assert(converts(self, cim_type, Err(e)));
                            return Err(e);
                        },
                    }
                    i = i + 1;
                }
                Ok(Variant::Array(out))
            },
            Variant::Unknown(u) => {
                if cim_type == CIM_OBJECT {
                    match host.unknown_to_object(u) {
                        Ok(o) => Ok(Variant::Object(o)),
                        Err(e) => Err(e),
                    }
                } else {
                    Err(WMIError::ConvertVariantError(
                        cimtype_message("A unknown Variant cannot be turned into a CIMTYPE ", cim_type),
                    ))
                }
            },
            Variant::Object(o) => Ok(Variant::Object(o)),
        }
    }
}

} // verus!
