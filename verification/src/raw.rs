//! The contents of a COM `VARIANT` as plain values, and the rules by which a
//! [`Variant`] is written into one and read back from one.

use vstd::prelude::*;
use crate::error::WMIError;
use crate::num::{int_text, push_int_text, lemma_parse_int_text};
use crate::text::string_of;
use crate::variant::{Variant, converts, CIM_STRING, CIM_SINT8, CIM_SINT16, CIM_SINT32, CIM_SINT64,
    CIM_REAL32, CIM_REAL64, CIM_BOOLEAN, CIM_UINT8, CIM_UINT16, CIM_UINT32, CIM_UINT64};

verus! {

/// One value of a `VARIANT` or of a `SAFEARRAY`, by its `VARTYPE`.
#[derive(Debug, PartialEq)]
pub enum RawScalar {
    /// `VT_I1`.
    I1(i8),
    /// `VT_I2`.
    I2(i16),
    /// `VT_I4`.
    I4(i32),
    /// `VT_I8`.
    I8(i64),
    /// `VT_UI1`.
    UI1(u8),
    /// `VT_UI2`.
    UI2(u16),
    /// `VT_UI4`.
    UI4(u32),
    /// `VT_UI8`.
    UI8(u64),
    /// `VT_R4`, as bits.
    R4(u32),
    /// `VT_R8`, as bits.
    R8(u64),
    /// `VT_BOOL`: a `VARIANT_BOOL`, `-1` for true and `0` for false.
    Bool(i16),
    /// `VT_BSTR`.
    Bstr(String),
}

/// What a `VARIANT` holds.
#[derive(Debug, PartialEq)]
pub enum RawVariant<U, O> {
    /// `VT_EMPTY`.
    Empty,
    /// `VT_NULL`.
    Null,
    /// A single value.
    Scalar(RawScalar),
    /// `VT_UNKNOWN` holding a bare COM object.
    Unknown(U),
    /// `VT_UNKNOWN` holding a WMI class object.
    Object(O),
    /// `VT_ARRAY` of a one-dimensional `SAFEARRAY` whose values all have
    /// one `VARTYPE`.
    Array(Vec<RawScalar>),
    /// `VT_ARRAY` with a null `SAFEARRAY`.
    NullArray,
    /// `VT_ARRAY` of an element type, or a number of dimensions, that is
    /// not read.
    UnsupportedArray,
    /// Any other `VARTYPE`.
    Other(u16),
}

/// Why a value cannot be written into a `VARIANT`.
#[derive(Debug, PartialEq)]
pub enum EncodeError<U, O> {
    /// An array whose first element is of a kind that has no `VARIANT`
    /// array form.
    Unsupported(Variant<U, O>),
    /// An array element that is not of the kind of the first element, and
    /// the name of the Rust type of that kind.
    Mismatch(Variant<U, O>, &'static str),
}

/// A number for each kind of [`Variant`].
pub open spec fn kind_tag<U, O>(v: Variant<U, O>) -> int {
    match v {
        Variant::Empty => 0,
        Variant::Null => 1,
        Variant::String(_) => 2,
        Variant::I1(_) => 3,
        Variant::I2(_) => 4,
        Variant::I4(_) => 5,
        Variant::I8(_) => 6,
        Variant::R4(_) => 7,
        Variant::R8(_) => 8,
        Variant::Bool(_) => 9,
        Variant::UI1(_) => 10,
        Variant::UI2(_) => 11,
        Variant::UI4(_) => 12,
        Variant::UI8(_) => 13,
        Variant::Array(_) => 14,
        Variant::Unknown(_) => 15,
        Variant::Object(_) => 16,
    }
}

/// The kinds of [`Variant`] that are single numbers, booleans or strings.
pub open spec fn is_scalar_kind<U, O>(v: Variant<U, O>) -> bool {
    2 <= kind_tag(v) <= 13
}

/// The name of the Rust type of a scalar kind.
pub open spec fn kind_type_name(tag: int) -> Seq<char> {
    if tag == 2 { "String"@ } else if tag == 3 { "i8"@ } else if tag == 4 { "i16"@ }
    else if tag == 5 { "i32"@ } else if tag == 6 { "i64"@ } else if tag == 7 { "f32"@ }
    else if tag == 8 { "f64"@ } else if tag == 9 { "bool"@ } else if tag == 10 { "u8"@ }
    else if tag == 11 { "u16"@ } else if tag == 12 { "u32"@ } else { "u64"@ }
}

/// How WMI takes a scalar value: `sint8` as `VT_I2`, `uint16` and `uint32`
/// as `VT_I4` (the latter keeping its bits), 64-bit integers as decimal
/// strings, and every other kind as itself.
pub open spec fn scalar_encodes<U, O>(v: Variant<U, O>, s: RawScalar) -> bool {
    match v {
        Variant::String(x) => s == RawScalar::Bstr(x),
        Variant::I1(n) => s == RawScalar::I2(n as i16),
        Variant::I2(n) => s == RawScalar::I2(n),
        Variant::I4(n) => s == RawScalar::I4(n),
        Variant::I8(n) => s matches RawScalar::Bstr(t) && t@ == int_text(n as int),
        Variant::R4(b) => s == RawScalar::R4(b),
        Variant::R8(b) => s == RawScalar::R8(b),
        Variant::Bool(b) => s == RawScalar::Bool(if b { -1i16 } else { 0i16 }),
        Variant::UI1(n) => s == RawScalar::UI1(n),
        Variant::UI2(n) => s == RawScalar::I4(n as i32),
        Variant::UI4(n) => s == RawScalar::I4(n as i32),
        Variant::UI8(n) => s matches RawScalar::Bstr(t) && t@ == int_text(n as int),
        _ => false,
    }
}

/// How a value is written into a `VARIANT`: an array takes the form of its
/// first element, all of whose elements must be of that element's kind; the
/// empty array is written as null.
pub open spec fn encodes<U, O>(v: Variant<U, O>, r: Result<RawVariant<U, O>, EncodeError<U, O>>) -> bool {
    match v {
        Variant::Empty => r == Ok::<RawVariant<U, O>, EncodeError<U, O>>(RawVariant::Empty),
        Variant::Null => r == Ok::<RawVariant<U, O>, EncodeError<U, O>>(RawVariant::Null),
        Variant::Unknown(u) => r == Ok::<RawVariant<U, O>, EncodeError<U, O>>(RawVariant::Unknown(u)),
        Variant::Object(o) => r == Ok::<RawVariant<U, O>, EncodeError<U, O>>(RawVariant::Object(o)),
        Variant::Array(a) => if a@.len() == 0 {
            r == Ok::<RawVariant<U, O>, EncodeError<U, O>>(RawVariant::Null)
        } else if !is_scalar_kind(a@[0]) {
            r == Err::<RawVariant<U, O>, EncodeError<U, O>>(EncodeError::Unsupported(a@[0]))
        } else {
            match r {
                Ok(RawVariant::Array(items)) => items@.len() == a@.len()
                    && forall|i: int| 0 <= i < a@.len()
                        ==> kind_tag(#[trigger] a@[i]) == kind_tag(a@[0]) && scalar_encodes(a@[i], items@[i]),
                Err(EncodeError::Mismatch(item, name)) => exists|k: int| #![trigger a@[k]]
                    0 < k < a@.len()
                    && kind_tag(a@[k]) != kind_tag(a@[0])
                    && (forall|i: int| 0 <= i < k ==> kind_tag(#[trigger] a@[i]) == kind_tag(a@[0]))
                    && item == a@[k]
                    && name@ == kind_type_name(kind_tag(a@[0])),
                _ => false,
            }
        },
        _ => r matches Ok(RawVariant::Scalar(s)) && scalar_encodes(v, s),
    }
}

fn type_name_of(tag: u8) -> (r: &'static str)
    requires
        2 <= tag <= 13,
    ensures
        r@ == kind_type_name(tag as int),
{
    if tag == 2 { "String" } else if tag == 3 { "i8" } else if tag == 4 { "i16" }
    else if tag == 5 { "i32" } else if tag == 6 { "i64" } else if tag == 7 { "f32" }
    else if tag == 8 { "f64" } else if tag == 9 { "bool" } else if tag == 10 { "u8" }
    else if tag == 11 { "u16" } else if tag == 12 { "u32" } else { "u64" }
}

fn decimal_string(n: i128) -> (r: String)
    requires
        n > i128::MIN,
    ensures
        r@ == int_text(n as int),
{
    let mut out: Vec<char> = Vec::new();
    push_int_text(&mut out, n);
    assert(out@ =~= int_text(n as int));
    string_of(&out)
}

impl<U, O> Variant<U, O> {
    /// The number of this value's kind.
    pub fn kind(&self) -> (r: u8)
        ensures
            r == kind_tag(*self),
    {
        match self {
            Variant::Empty => 0,
            Variant::Null => 1,
            Variant::String(_) => 2,
            Variant::I1(_) => 3,
            Variant::I2(_) => 4,
            Variant::I4(_) => 5,
            Variant::I8(_) => 6,
            Variant::R4(_) => 7,
            Variant::R8(_) => 8,
            Variant::Bool(_) => 9,
            Variant::UI1(_) => 10,
            Variant::UI2(_) => 11,
            Variant::UI4(_) => 12,
            Variant::UI8(_) => 13,
            Variant::Array(_) => 14,
            Variant::Unknown(_) => 15,
            Variant::Object(_) => 16,
        }
    }
}

fn encode_scalar<U, O>(v: Variant<U, O>) -> (r: RawScalar)
    requires
        is_scalar_kind(v),
    ensures
        scalar_encodes(v, r),
{
    match v {
        Variant::String(x) => RawScalar::Bstr(x),
        Variant::I1(n) => RawScalar::I2(n as i16),
        Variant::I2(n) => RawScalar::I2(n),
        Variant::I4(n) => RawScalar::I4(n),
        Variant::I8(n) => RawScalar::Bstr(decimal_string(n as i128)),
        Variant::R4(b) => RawScalar::R4(b),
        Variant::R8(b) => RawScalar::R8(b),
        Variant::Bool(b) => RawScalar::Bool(if b { -1i16 } else { 0i16 }),
        Variant::UI1(n) => RawScalar::UI1(n),
        Variant::UI2(n) => RawScalar::I4(n as i32),
        Variant::UI4(n) => RawScalar::I4(n as i32),
        Variant::UI8(n) => RawScalar::Bstr(decimal_string(n as i128)),
        _ => RawScalar::I1(0),
    }
}

impl<U, O> Variant<U, O> {
    /// Writes the value into the form that a `VARIANT` takes (see [`encodes`]).
    pub fn into_raw(self) -> (r: Result<RawVariant<U, O>, EncodeError<U, O>>)
        ensures
            encodes(self, r),
    {
        match self {
            Variant::Empty => Ok(RawVariant::Empty),
            Variant::Null => Ok(RawVariant::Null),
            Variant::Unknown(u) => Ok(RawVariant::Unknown(u)),
            Variant::Object(o) => Ok(RawVariant::Object(o)),
            Variant::Array(vs) => {
                let ghost a = vs@;
                let ghost vs_g = vs;
                let n = vs.len();
                if n == 0 {
                    return Ok(RawVariant::Null);
                }
                let tag = vs[0].kind();
                if !(2 <= tag && tag <= 13) {
                    let mut vs = vs;
                    let first = vs.swap_remove(0);
                    return Err(EncodeError::Unsupported(first));
                }
                let mut rest = vs;
                let mut rev: Vec<Variant<U, O>> = Vec::new();
                while rest.len() > 0
                    invariant
                        rest@.len() + rev@.len() == n,
                        n == a.len(),
                        rest@ == a.subrange(0, rest@.len() as int),
                        forall|j: int| 0 <= j < rev@.len() ==> #[trigger] rev@[j] == a[n - 1 - j],
                    decreases rest@.len(),
                {
                    let x = rest.pop().unwrap();
                    rev.push(x);
                }
                let mut items: Vec<RawScalar> = Vec::new();
                let mut i: usize = 0;
                while i < n
                    invariant
                        0 <= i <= n,
                        n == a.len(),
                        n > 0,
                        tag == kind_tag(a[0]),
                        2 <= tag <= 13,
                        self == Variant::<U, O>::Array(vs_g),
                        a == vs_g@,
                        rev@.len() == n - i,
                        items@.len() == i,
                        forall|j: int| 0 <= j < rev@.len() ==> #[trigger] rev@[j] == a[n - 1 - j],
                        forall|j: int| 0 <= j < i ==> kind_tag(#[trigger] a[j]) == tag && scalar_encodes(a[j], items@[j]),
                    decreases n - i,
                {
                    let x = rev.pop().unwrap();
                    assert(x == a[i as int]);
                    if x.kind() != tag {
                        assert(i > 0);
                        assert(kind_tag(vs_g@[i as int]) != kind_tag(vs_g@[0]));
                        return Err(EncodeError::Mismatch(x, type_name_of(tag)));
                    }
                    items.push(encode_scalar(x));
                    i = i + 1;
                }
                Ok(RawVariant::Array(items))
            },
            other => Ok(RawVariant::Scalar(encode_scalar(other))),
        }
    }
}

/// How one value of a `VARIANT` reads: each type as the variant of that
/// type, and a `VARIANT_BOOL` only from `0` (false) or `-1` (true).
pub open spec fn scalar_decodes<U, O>(s: RawScalar, r: Result<Variant<U, O>, WMIError>) -> bool {
    match s {
        RawScalar::I1(n) => r == Ok::<Variant<U, O>, WMIError>(Variant::I1(n)),
        RawScalar::I2(n) => r == Ok::<Variant<U, O>, WMIError>(Variant::I2(n)),
        RawScalar::I4(n) => r == Ok::<Variant<U, O>, WMIError>(Variant::I4(n)),
        RawScalar::I8(n) => r == Ok::<Variant<U, O>, WMIError>(Variant::I8(n)),
        RawScalar::UI1(n) => r == Ok::<Variant<U, O>, WMIError>(Variant::UI1(n)),
        RawScalar::UI2(n) => r == Ok::<Variant<U, O>, WMIError>(Variant::UI2(n)),
        RawScalar::UI4(n) => r == Ok::<Variant<U, O>, WMIError>(Variant::UI4(n)),
        RawScalar::UI8(n) => r == Ok::<Variant<U, O>, WMIError>(Variant::UI8(n)),
        RawScalar::R4(b) => r == Ok::<Variant<U, O>, WMIError>(Variant::R4(b)),
        RawScalar::R8(b) => r == Ok::<Variant<U, O>, WMIError>(Variant::R8(b)),
        RawScalar::Bool(x) => if x == 0 {
            r == Ok::<Variant<U, O>, WMIError>(Variant::Bool(false))
        } else if x == -1 {
            r == Ok::<Variant<U, O>, WMIError>(Variant::Bool(true))
        } else {
            r == Err::<Variant<U, O>, WMIError>(WMIError::ConvertBoolError(x))
        },
        RawScalar::Bstr(t) => r == Ok::<Variant<U, O>, WMIError>(Variant::String(t)),
    }
}

/// How one element of a `SAFEARRAY` reads: as [`scalar_decodes`], except
/// that a boolean is true whenever it is not zero.
pub open spec fn array_item<U, O>(s: RawScalar) -> Variant<U, O> {
    match s {
        RawScalar::I1(n) => Variant::I1(n),
        RawScalar::I2(n) => Variant::I2(n),
        RawScalar::I4(n) => Variant::I4(n),
        RawScalar::I8(n) => Variant::I8(n),
        RawScalar::UI1(n) => Variant::UI1(n),
        RawScalar::UI2(n) => Variant::UI2(n),
        RawScalar::UI4(n) => Variant::UI4(n),
        RawScalar::UI8(n) => Variant::UI8(n),
        RawScalar::R4(b) => Variant::R4(b),
        RawScalar::R8(b) => Variant::R8(b),
        RawScalar::Bool(x) => Variant::Bool(x != 0),
        RawScalar::Bstr(t) => Variant::String(t),
    }
}

/// How a `VARIANT` reads: an array element by element, a null array as a
/// null pointer, an array that cannot be read as such, and any other type as
/// an error naming it.
pub open spec fn decodes<U, O>(raw: RawVariant<U, O>, r: Result<Variant<U, O>, WMIError>) -> bool {
    match raw {
        RawVariant::Empty => r == Ok::<Variant<U, O>, WMIError>(Variant::Empty),
        RawVariant::Null => r == Ok::<Variant<U, O>, WMIError>(Variant::Null),
        RawVariant::Scalar(s) => scalar_decodes(s, r),
        RawVariant::Unknown(u) => r == Ok::<Variant<U, O>, WMIError>(Variant::Unknown(u)),
        RawVariant::Object(o) => r == Ok::<Variant<U, O>, WMIError>(Variant::Object(o)),
        RawVariant::Array(items) => r matches Ok(Variant::Array(w))
            && w@.len() == items@.len()
            && forall|i: int| 0 <= i < items@.len() ==> #[trigger] w@[i] == array_item::<U, O>(items@[i]),
        RawVariant::NullArray => r == Err::<Variant<U, O>, WMIError>(WMIError::NullPointerResult),
        RawVariant::UnsupportedArray => r == Err::<Variant<U, O>, WMIError>(WMIError::UnimplementedArrayItem),
        RawVariant::Other(vt) => r == Err::<Variant<U, O>, WMIError>(WMIError::ConvertError(vt)),
    }
}

fn decode_item<U, O>(s: RawScalar) -> (r: Variant<U, O>)
    ensures
        r == array_item::<U, O>(s),
{
    match s {
        RawScalar::I1(n) => Variant::I1(n),
        RawScalar::I2(n) => Variant::I2(n),
        RawScalar::I4(n) => Variant::I4(n),
        RawScalar::I8(n) => Variant::I8(n),
        RawScalar::UI1(n) => Variant::UI1(n),
        RawScalar::UI2(n) => Variant::UI2(n),
        RawScalar::UI4(n) => Variant::UI4(n),
        RawScalar::UI8(n) => Variant::UI8(n),
        RawScalar::R4(b) => Variant::R4(b),
        RawScalar::R8(b) => Variant::R8(b),
        RawScalar::Bool(x) => Variant::Bool(x != 0),
        RawScalar::Bstr(t) => Variant::String(t),
    }
}

impl<U, O> Variant<U, O> {
    /// Reads a value out of the contents of a `VARIANT` (see [`decodes`]).
    pub fn from_variant(raw: RawVariant<U, O>) -> (r: Result<Variant<U, O>, WMIError>)
        ensures
            decodes(raw, r),
    {
        match raw {
            RawVariant::Empty => Ok(Variant::Empty),
            RawVariant::Null => Ok(Variant::Null),
            RawVariant::Unknown(u) => Ok(Variant::Unknown(u)),
            RawVariant::Object(o) => Ok(Variant::Object(o)),
            RawVariant::NullArray => Err(WMIError::NullPointerResult),
            RawVariant::UnsupportedArray => Err(WMIError::UnimplementedArrayItem),
            RawVariant::Other(vt) => Err(WMIError::ConvertError(vt)),
            RawVariant::Scalar(RawScalar::Bool(x)) => {
                if x == 0 {
                    Ok(Variant::Bool(false))
                } else if x == -1 {
                    Ok(Variant::Bool(true))
                } else {
                    Err(WMIError::ConvertBoolError(x))
                }
            },
            RawVariant::Scalar(s) => Ok(decode_item(s)),
            RawVariant::Array(items) => {
                let ghost a = items@;
                let n = items.len();
                let mut rest = items;
                let mut rev: Vec<RawScalar> = Vec::new();
                while rest.len() > 0
                    invariant
                        rest@.len() + rev@.len() == n,
                        n == a.len(),
                        rest@ == a.subrange(0, rest@.len() as int),
                        forall|j: int| 0 <= j < rev@.len() ==> #[trigger] rev@[j] == a[n - 1 - j],
                    decreases rest@.len(),
                {
                    let x = rest.pop().unwrap();
                    rev.push(x);
                }
                let mut out: Vec<Variant<U, O>> = Vec::new();
                let mut i: usize = 0;
                while i < n
                    invariant
                        0 <= i <= n,
                        n == a.len(),
                        rev@.len() == n - i,
                        out@.len() == i,
                        forall|j: int| 0 <= j < rev@.len() ==> #[trigger] rev@[j] == a[n - 1 - j],
                        forall|j: int| 0 <= j < i ==> #[trigger] out@[j] == array_item::<U, O>(a[j]),
                    decreases n - i,
                {
                    let x = rev.pop().unwrap();
                    out.push(decode_item(x));
                    i = i + 1;
                }
                Ok(Variant::Array(out))
            },
        }
    }
}

/// The CIM type that holds values of a scalar kind.
pub open spec fn kind_cim_type(tag: int) -> i32 {
    if tag == 2 { CIM_STRING } else if tag == 3 { CIM_SINT8 } else if tag == 4 { CIM_SINT16 }
    else if tag == 5 { CIM_SINT32 } else if tag == 6 { CIM_SINT64 } else if tag == 7 { CIM_REAL32 }
    else if tag == 8 { CIM_REAL64 } else if tag == 9 { CIM_BOOLEAN } else if tag == 10 { CIM_UINT8 }
    else if tag == 11 { CIM_UINT16 } else if tag == 12 { CIM_UINT32 } else { CIM_UINT64 }
}

proof fn lemma_kind_cim_type_plain(tag: int)
    ensures
        !crate::variant::is_array_type(kind_cim_type(tag)),
        kind_cim_type(tag) != crate::variant::CIM_EMPTY,
{
    assert(CIM_STRING & 0x2000 == 0 && CIM_SINT8 & 0x2000 == 0 && CIM_SINT16 & 0x2000 == 0
        && CIM_SINT32 & 0x2000 == 0 && CIM_SINT64 & 0x2000 == 0 && CIM_REAL32 & 0x2000 == 0
        && CIM_REAL64 & 0x2000 == 0 && CIM_BOOLEAN & 0x2000 == 0 && CIM_UINT8 & 0x2000 == 0
        && CIM_UINT16 & 0x2000 == 0 && CIM_UINT32 & 0x2000 == 0 && CIM_UINT64 & 0x2000 == 0) by (bit_vector);
}

proof fn lemma_scalar_round_trip<U, O>(v: Variant<U, O>, s: RawScalar, d: Variant<U, O>, r: Result<Variant<U, O>, WMIError>)
    requires
        is_scalar_kind(v),
        scalar_encodes(v, s),
        d == array_item::<U, O>(s),
        converts(d, kind_cim_type(kind_tag(v)), r),
    ensures
        r == Ok::<Variant<U, O>, WMIError>(v),
{
    lemma_kind_cim_type_plain(kind_tag(v));
    match v {
        Variant::I8(n) => {
            lemma_parse_int_text(n as int, i64::MIN as int, i64::MAX as int);
        },
        Variant::UI8(n) => {
            lemma_parse_int_text(n as int, 0, u64::MAX as int);
        },
        Variant::UI4(n) => {
            assert((n as i32) as u32 == n) by (bit_vector);
        },
        _ => {},
    }
}

/// A value written into a `VARIANT` and read back is the value again: at
/// once for the empty, null and object kinds; after conversion to the CIM
/// type of its kind for a number, boolean or string (WMI widens some
/// integer types and carries 64-bit integers as text); element by element
/// for a non-empty array; and an empty array comes back as null.
pub proof fn lemma_variant_round_trip<U, O>(
    v: Variant<U, O>,
    raw: RawVariant<U, O>,
    d: Variant<U, O>,
    r: Result<Variant<U, O>, WMIError>,
)
    requires
        encodes(v, Ok(raw)),
        decodes(raw, Ok(d)),
    ensures
        (v is Empty || v is Null || v is Unknown || v is Object) ==> d == v,
        is_scalar_kind(v) && converts(d, kind_cim_type(kind_tag(v)), r) ==> r == Ok::<Variant<U, O>, WMIError>(v),
        (v matches Variant::Array(a) && a@.len() == 0) ==> d == Variant::<U, O>::Null,
        (v matches Variant::Array(a) && a@.len() > 0 && converts(d, kind_cim_type(kind_tag(a@[0])), r))
            ==> (r matches Ok(Variant::Array(w)) && w@ == v->Array_0@),
{
    if is_scalar_kind(v) && converts(d, kind_cim_type(kind_tag(v)), r) {
        let s = raw->Scalar_0;
        if let RawScalar::Bool(x) = s {
        } else {
            assert(d == array_item::<U, O>(s));
        }
        lemma_scalar_round_trip(v, s, d, r);
    }
    if v matches Variant::Array(a) && a@.len() > 0 && converts(d, kind_cim_type(kind_tag(a@[0])), r) {
        let a = v->Array_0@;
        let items = raw->Array_0@;
        let dw = d->Array_0@;
        let t = kind_cim_type(kind_tag(a[0]));
        lemma_kind_cim_type_plain(kind_tag(a[0]));
        assert forall|i: int| 0 <= i < a.len() implies kind_tag(#[trigger] a[i]) == kind_tag(a[0])
            && scalar_encodes(a[i], items[i]) && dw[i] == array_item::<U, O>(items[i]) by {
        }
        if let Err(e) = r {
            let pre = choose|pre: Seq<Variant<U, O>>| #![trigger pre.len()]
                pre.len() < dw.len()
                && converts(dw[pre.len() as int], t, Err(e))
                && forall|i: int| 0 <= i < pre.len() ==> converts(#[trigger] dw[i], t, Ok(pre[i]));
            let k = pre.len() as int;
            lemma_scalar_round_trip(a[k], items[k], dw[k], Err(e));
        }
        let w = r->Ok_0->Array_0@;
        assert forall|i: int| 0 <= i < a.len() implies w[i] == a[i] by {
            lemma_scalar_round_trip(a[i], items[i], dw[i], Ok(w[i]));
        }
        assert(w =~= a);
    }
}

} // verus!
