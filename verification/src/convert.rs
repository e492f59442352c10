//! Conversions between [`Variant`] and the Rust types that its kinds hold.

use vstd::prelude::*;
use crate::error::WMIError;
use crate::text::{chars_of, push_str_chars, string_of};
use crate::variant::Variant;

verus! {

broadcast use vstd::string::group_string_axioms;

/// A Rust type that one kind of [`Variant`] holds.
pub trait VariantValue<U, O>: Sized {
    /// The variant that holds `self`.
    spec fn to_variant(self) -> Variant<U, O>;

    /// The value that `v` holds, if `v` is of this type's kind.
    spec fn of_variant(v: Variant<U, O>) -> Option<Self>;

    /// The name of the type, as error texts give it.
    spec fn type_text() -> Seq<char>;

    /// A value comes back out of the variant that holds it.
    proof fn lemma_of_to_variant(x: Self)
        ensures
            Self::of_variant(x.to_variant()) == Some(x),
    ;

    /// Wraps the value in its variant.
    fn wrap(self) -> (r: Variant<U, O>)
        ensures
            r == self.to_variant(),
    ;

    /// The value that `v` holds, or `v` itself when it is of another kind.
    fn unwrap_from(v: Variant<U, O>) -> (r: Result<Self, Variant<U, O>>)
        ensures
            match Self::of_variant(v) {
                Some(x) => r == Ok::<Self, Variant<U, O>>(x),
                None => r == Err::<Self, Variant<U, O>>(v),
            },
    ;

    /// The name of the type.
    fn rust_name() -> (r: &'static str)
        ensures
            r@ == Self::type_text(),
    ;
}

impl<U, O> VariantValue<U, O> for String {
    open spec fn to_variant(self) -> Variant<U, O> {
        Variant::String(self)
    }

    open spec fn of_variant(v: Variant<U, O>) -> Option<String> {
        match v {
            Variant::String(x) => Some(x),
            _ => None,
        }
    }

    open spec fn type_text() -> Seq<char> {
        "String"@
    }

    proof fn lemma_of_to_variant(x: String) {
    }

    fn wrap(self) -> (r: Variant<U, O>) {
        Variant::String(self)
    }

    fn unwrap_from(v: Variant<U, O>) -> (r: Result<String, Variant<U, O>>) {
        match v {
            Variant::String(x) => Ok(x),
            other => Err(other),
        }
    }

    fn rust_name() -> (r: &'static str) {
        "String"
    }
}

impl<U, O> VariantValue<U, O> for i8 {
    open spec fn to_variant(self) -> Variant<U, O> {
        Variant::I1(self)
    }

    open spec fn of_variant(v: Variant<U, O>) -> Option<i8> {
        match v {
            Variant::I1(x) => Some(x),
            _ => None,
        }
    }

    open spec fn type_text() -> Seq<char> {
        "i8"@
    }

    proof fn lemma_of_to_variant(x: i8) {
    }

    fn wrap(self) -> (r: Variant<U, O>) {
        Variant::I1(self)
    }

    fn unwrap_from(v: Variant<U, O>) -> (r: Result<i8, Variant<U, O>>) {
        match v {
            Variant::I1(x) => Ok(x),
            other => Err(other),
        }
    }

    fn rust_name() -> (r: &'static str) {
        "i8"
    }
}

impl<U, O> VariantValue<U, O> for i16 {
    open spec fn to_variant(self) -> Variant<U, O> {
        Variant::I2(self)
    }

    open spec fn of_variant(v: Variant<U, O>) -> Option<i16> {
        match v {
            Variant::I2(x) => Some(x),
            _ => None,
        }
    }

    open spec fn type_text() -> Seq<char> {
        "i16"@
    }

    proof fn lemma_of_to_variant(x: i16) {
    }

    fn wrap(self) -> (r: Variant<U, O>) {
        Variant::I2(self)
    }

    fn unwrap_from(v: Variant<U, O>) -> (r: Result<i16, Variant<U, O>>) {
        match v {
            Variant::I2(x) => Ok(x),
            other => Err(other),
        }
    }

    fn rust_name() -> (r: &'static str) {
        "i16"
    }
}

impl<U, O> VariantValue<U, O> for i32 {
    open spec fn to_variant(self) -> Variant<U, O> {
        Variant::I4(self)
    }

    open spec fn of_variant(v: Variant<U, O>) -> Option<i32> {
        match v {
            Variant::I4(x) => Some(x),
            _ => None,
        }
    }

    open spec fn type_text() -> Seq<char> {
        "i32"@
    }

    proof fn lemma_of_to_variant(x: i32) {
    }

    fn wrap(self) -> (r: Variant<U, O>) {
        Variant::I4(self)
    }

    fn unwrap_from(v: Variant<U, O>) -> (r: Result<i32, Variant<U, O>>) {
        match v {
            Variant::I4(x) => Ok(x),
            other => Err(other),
        }
    }

    fn rust_name() -> (r: &'static str) {
        "i32"
    }
}

impl<U, O> VariantValue<U, O> for i64 {
    open spec fn to_variant(self) -> Variant<U, O> {
        Variant::I8(self)
    }

    open spec fn of_variant(v: Variant<U, O>) -> Option<i64> {
        match v {
            Variant::I8(x) => Some(x),
            _ => None,
        }
    }

    open spec fn type_text() -> Seq<char> {
        "i64"@
    }

    proof fn lemma_of_to_variant(x: i64) {
    }

    fn wrap(self) -> (r: Variant<U, O>) {
        Variant::I8(self)
    }

    fn unwrap_from(v: Variant<U, O>) -> (r: Result<i64, Variant<U, O>>) {
        match v {
            Variant::I8(x) => Ok(x),
            other => Err(other),
        }
    }

    fn rust_name() -> (r: &'static str) {
        "i64"
    }
}

impl<U, O> VariantValue<U, O> for u8 {
    open spec fn to_variant(self) -> Variant<U, O> {
        Variant::UI1(self)
    }

    open spec fn of_variant(v: Variant<U, O>) -> Option<u8> {
        match v {
            Variant::UI1(x) => Some(x),
            _ => None,
        }
    }

    open spec fn type_text() -> Seq<char> {
        "u8"@
    }

    proof fn lemma_of_to_variant(x: u8) {
    }

    fn wrap(self) -> (r: Variant<U, O>) {
        Variant::UI1(self)
    }

    fn unwrap_from(v: Variant<U, O>) -> (r: Result<u8, Variant<U, O>>) {
        match v {
            Variant::UI1(x) => Ok(x),
            other => Err(other),
        }
    }

    fn rust_name() -> (r: &'static str) {
        "u8"
    }
}

impl<U, O> VariantValue<U, O> for u16 {
    open spec fn to_variant(self) -> Variant<U, O> {
        Variant::UI2(self)
    }

    open spec fn of_variant(v: Variant<U, O>) -> Option<u16> {
        match v {
            Variant::UI2(x) => Some(x),
            _ => None,
        }
    }

    open spec fn type_text() -> Seq<char> {
        "u16"@
    }

    proof fn lemma_of_to_variant(x: u16) {
    }

    fn wrap(self) -> (r: Variant<U, O>) {
        Variant::UI2(self)
    }

    fn unwrap_from(v: Variant<U, O>) -> (r: Result<u16, Variant<U, O>>) {
        match v {
            Variant::UI2(x) => Ok(x),
            other => Err(other),
        }
    }

    fn rust_name() -> (r: &'static str) {
        "u16"
    }
}

impl<U, O> VariantValue<U, O> for u32 {
    open spec fn to_variant(self) -> Variant<U, O> {
        Variant::UI4(self)
    }

    open spec fn of_variant(v: Variant<U, O>) -> Option<u32> {
        match v {
            Variant::UI4(x) => Some(x),
            _ => None,
        }
    }

    open spec fn type_text() -> Seq<char> {
        "u32"@
    }

    proof fn lemma_of_to_variant(x: u32) {
    }

    fn wrap(self) -> (r: Variant<U, O>) {
        Variant::UI4(self)
    }

    fn unwrap_from(v: Variant<U, O>) -> (r: Result<u32, Variant<U, O>>) {
        match v {
            Variant::UI4(x) => Ok(x),
            other => Err(other),
        }
    }

    fn rust_name() -> (r: &'static str) {
        "u32"
    }
}

impl<U, O> VariantValue<U, O> for u64 {
    open spec fn to_variant(self) -> Variant<U, O> {
        Variant::UI8(self)
    }

    open spec fn of_variant(v: Variant<U, O>) -> Option<u64> {
        match v {
            Variant::UI8(x) => Some(x),
            _ => None,
        }
    }

    open spec fn type_text() -> Seq<char> {
        "u64"@
    }

    proof fn lemma_of_to_variant(x: u64) {
    }

    fn wrap(self) -> (r: Variant<U, O>) {
        Variant::UI8(self)
    }

    fn unwrap_from(v: Variant<U, O>) -> (r: Result<u64, Variant<U, O>>) {
        match v {
            Variant::UI8(x) => Ok(x),
            other => Err(other),
        }
    }

    fn rust_name() -> (r: &'static str) {
        "u64"
    }
}

impl<U, O> VariantValue<U, O> for bool {
    open spec fn to_variant(self) -> Variant<U, O> {
        Variant::Bool(self)
    }

    open spec fn of_variant(v: Variant<U, O>) -> Option<bool> {
        match v {
            Variant::Bool(x) => Some(x),
            _ => None,
        }
    }

    open spec fn type_text() -> Seq<char> {
        "bool"@
    }

    proof fn lemma_of_to_variant(x: bool) {
    }

    fn wrap(self) -> (r: Variant<U, O>) {
        Variant::Bool(self)
    }

    fn unwrap_from(v: Variant<U, O>) -> (r: Result<bool, Variant<U, O>>) {
        match v {
            Variant::Bool(x) => Ok(x),
            other => Err(other),
        }
    }

    fn rust_name() -> (r: &'static str) {
        "bool"
    }
}

impl<U, O> VariantValue<U, O> for () {
    open spec fn to_variant(self) -> Variant<U, O> {
        Variant::Empty
    }

    open spec fn of_variant(v: Variant<U, O>) -> Option<()> {
        match v {
            Variant::Empty => Some(()),
            _ => None,
        }
    }

    open spec fn type_text() -> Seq<char> {
        "()"@
    }

    proof fn lemma_of_to_variant(x: ()) {
    }

    fn wrap(self) -> (r: Variant<U, O>) {
        Variant::Empty
    }

    fn unwrap_from(v: Variant<U, O>) -> (r: Result<(), Variant<U, O>>) {
        match v {
            Variant::Empty => Ok(()),
            other => Err(other),
        }
    }

    fn rust_name() -> (r: &'static str) {
        "()"
    }
}

/// A `f32`, as its IEEE 754 bits.
#[derive(Debug, Clone, Copy, PartialEq, Eq)]
pub struct Real32(pub u32);

impl<U, O> VariantValue<U, O> for Real32 {
    open spec fn to_variant(self) -> Variant<U, O> {
        Variant::R4(self.0)
    }

    open spec fn of_variant(v: Variant<U, O>) -> Option<Real32> {
        match v {
            Variant::R4(x) => Some(Real32(x)),
            _ => None,
        }
    }

    open spec fn type_text() -> Seq<char> {
        "f32"@
    }

    proof fn lemma_of_to_variant(x: Real32) {
    }

    fn wrap(self) -> (r: Variant<U, O>) {
        Variant::R4(self.0)
    }

    fn unwrap_from(v: Variant<U, O>) -> (r: Result<Real32, Variant<U, O>>) {
        match v {
            Variant::R4(x) => Ok(Real32(x)),
            other => Err(other),
        }
    }

    fn rust_name() -> (r: &'static str) {
        "f32"
    }
}

/// A `f64`, as its IEEE 754 bits.
#[derive(Debug, Clone, Copy, PartialEq, Eq)]
pub struct Real64(pub u64);

impl<U, O> VariantValue<U, O> for Real64 {
    open spec fn to_variant(self) -> Variant<U, O> {
        Variant::R8(self.0)
    }

    open spec fn of_variant(v: Variant<U, O>) -> Option<Real64> {
        match v {
            Variant::R8(x) => Some(Real64(x)),
            _ => None,
        }
    }

    open spec fn type_text() -> Seq<char> {
        "f64"@
    }

    proof fn lemma_of_to_variant(x: Real64) {
    }

    fn wrap(self) -> (r: Variant<U, O>) {
        Variant::R8(self.0)
    }

    fn unwrap_from(v: Variant<U, O>) -> (r: Result<Real64, Variant<U, O>>) {
        match v {
            Variant::R8(x) => Ok(Real64(x)),
            other => Err(other),
        }
    }

    fn rust_name() -> (r: &'static str) {
        "f64"
    }
}

/// A `String` is held by `Variant::String` with the same value, and
/// reading `Variant::String` gives back the value it holds; no other variant reads as one.
pub proof fn lemma_string_payload<U, O>(x: String, v: Variant<U, O>)
    ensures
        <String as VariantValue<U, O>>::to_variant(x) == Variant::<U, O>::String(x),
        <String as VariantValue<U, O>>::of_variant(Variant::<U, O>::String(x)) == Some(x),
        <String as VariantValue<U, O>>::of_variant(v) matches Some(y) ==> v == <String as VariantValue<U, O>>::to_variant(y),
{
}

/// An `i8` is held by `Variant::I1` with the same value, and
/// reading `Variant::I1` gives back the value it holds; no other variant reads as one.
pub proof fn lemma_i8_payload<U, O>(x: i8, v: Variant<U, O>)
    ensures
        <i8 as VariantValue<U, O>>::to_variant(x) == Variant::<U, O>::I1(x),
        <i8 as VariantValue<U, O>>::of_variant(Variant::<U, O>::I1(x)) == Some(x),
        <i8 as VariantValue<U, O>>::of_variant(v) matches Some(y) ==> v == <i8 as VariantValue<U, O>>::to_variant(y),
{
}

/// An `i16` is held by `Variant::I2` with the same value, and
/// reading `Variant::I2` gives back the value it holds; no other variant reads as one.
pub proof fn lemma_i16_payload<U, O>(x: i16, v: Variant<U, O>)
    ensures
        <i16 as VariantValue<U, O>>::to_variant(x) == Variant::<U, O>::I2(x),
        <i16 as VariantValue<U, O>>::of_variant(Variant::<U, O>::I2(x)) == Some(x),
        <i16 as VariantValue<U, O>>::of_variant(v) matches Some(y) ==> v == <i16 as VariantValue<U, O>>::to_variant(y),
{
}

/// An `i32` is held by `Variant::I4` with the same value, and
/// reading `Variant::I4` gives back the value it holds; no other variant reads as one.
pub proof fn lemma_i32_payload<U, O>(x: i32, v: Variant<U, O>)
    ensures
        <i32 as VariantValue<U, O>>::to_variant(x) == Variant::<U, O>::I4(x),
        <i32 as VariantValue<U, O>>::of_variant(Variant::<U, O>::I4(x)) == Some(x),
        <i32 as VariantValue<U, O>>::of_variant(v) matches Some(y) ==> v == <i32 as VariantValue<U, O>>::to_variant(y),
{
}

/// An `i64` is held by `Variant::I8` with the same value, and
/// reading `Variant::I8` gives back the value it holds; no other variant reads as one.
pub proof fn lemma_i64_payload<U, O>(x: i64, v: Variant<U, O>)
    ensures
        <i64 as VariantValue<U, O>>::to_variant(x) == Variant::<U, O>::I8(x),
        <i64 as VariantValue<U, O>>::of_variant(Variant::<U, O>::I8(x)) == Some(x),
        <i64 as VariantValue<U, O>>::of_variant(v) matches Some(y) ==> v == <i64 as VariantValue<U, O>>::to_variant(y),
{
}

/// A `u8` is held by `Variant::UI1` with the same value, and
/// reading `Variant::UI1` gives back the value it holds; no other variant reads as one.
pub proof fn lemma_u8_payload<U, O>(x: u8, v: Variant<U, O>)
    ensures
        <u8 as VariantValue<U, O>>::to_variant(x) == Variant::<U, O>::UI1(x),
        <u8 as VariantValue<U, O>>::of_variant(Variant::<U, O>::UI1(x)) == Some(x),
        <u8 as VariantValue<U, O>>::of_variant(v) matches Some(y) ==> v == <u8 as VariantValue<U, O>>::to_variant(y),
{
}

/// A `u16` is held by `Variant::UI2` with the same value, and
/// reading `Variant::UI2` gives back the value it holds; no other variant reads as one.
pub proof fn lemma_u16_payload<U, O>(x: u16, v: Variant<U, O>)
    ensures
        <u16 as VariantValue<U, O>>::to_variant(x) == Variant::<U, O>::UI2(x),
        <u16 as VariantValue<U, O>>::of_variant(Variant::<U, O>::UI2(x)) == Some(x),
        <u16 as VariantValue<U, O>>::of_variant(v) matches Some(y) ==> v == <u16 as VariantValue<U, O>>::to_variant(y),
{
}

/// A `u32` is held by `Variant::UI4` with the same value, and
/// reading `Variant::UI4` gives back the value it holds; no other variant reads as one.
pub proof fn lemma_u32_payload<U, O>(x: u32, v: Variant<U, O>)
    ensures
        <u32 as VariantValue<U, O>>::to_variant(x) == Variant::<U, O>::UI4(x),
        <u32 as VariantValue<U, O>>::of_variant(Variant::<U, O>::UI4(x)) == Some(x),
        <u32 as VariantValue<U, O>>::of_variant(v) matches Some(y) ==> v == <u32 as VariantValue<U, O>>::to_variant(y),
{
}

/// A `u64` is held by `Variant::UI8` with the same value, and
/// reading `Variant::UI8` gives back the value it holds; no other variant reads as one.
pub proof fn lemma_u64_payload<U, O>(x: u64, v: Variant<U, O>)
    ensures
        <u64 as VariantValue<U, O>>::to_variant(x) == Variant::<U, O>::UI8(x),
        <u64 as VariantValue<U, O>>::of_variant(Variant::<U, O>::UI8(x)) == Some(x),
        <u64 as VariantValue<U, O>>::of_variant(v) matches Some(y) ==> v == <u64 as VariantValue<U, O>>::to_variant(y),
{
}

/// A `bool` is held by `Variant::Bool` with the same value, and
/// reading `Variant::Bool` gives back the value it holds; no other variant reads as one.
pub proof fn lemma_bool_payload<U, O>(x: bool, v: Variant<U, O>)
    ensures
        <bool as VariantValue<U, O>>::to_variant(x) == Variant::<U, O>::Bool(x),
        <bool as VariantValue<U, O>>::of_variant(Variant::<U, O>::Bool(x)) == Some(x),
        <bool as VariantValue<U, O>>::of_variant(v) matches Some(y) ==> v == <bool as VariantValue<U, O>>::to_variant(y),
{
}

/// A `f32` is held by `Variant::R4` with the same bits, and reading
/// `Variant::R4` gives back those bits; no other variant reads as one.
pub proof fn lemma_real32_payload<U, O>(b: u32, v: Variant<U, O>)
    ensures
        <Real32 as VariantValue<U, O>>::to_variant(Real32(b)) == Variant::<U, O>::R4(b),
        <Real32 as VariantValue<U, O>>::of_variant(Variant::<U, O>::R4(b)) == Some(Real32(b)),
        <Real32 as VariantValue<U, O>>::of_variant(v) matches Some(y) ==> v == <Real32 as VariantValue<U, O>>::to_variant(y),
{
}

/// A `f64` is held by `Variant::R8` with the same bits, and reading
/// `Variant::R8` gives back those bits; no other variant reads as one.
pub proof fn lemma_real64_payload<U, O>(b: u64, v: Variant<U, O>)
    ensures
        <Real64 as VariantValue<U, O>>::to_variant(Real64(b)) == Variant::<U, O>::R8(b),
        <Real64 as VariantValue<U, O>>::of_variant(Variant::<U, O>::R8(b)) == Some(Real64(b)),
        <Real64 as VariantValue<U, O>>::of_variant(v) matches Some(y) ==> v == <Real64 as VariantValue<U, O>>::to_variant(y),
{
}

/// The unit value is held by `Variant::Empty`, and `Variant::Empty` reads as
/// the unit value; no other variant does.
pub proof fn lemma_unit_payload<U, O>(v: Variant<U, O>)
    ensures
        <() as VariantValue<U, O>>::to_variant(()) == Variant::<U, O>::Empty,
        <() as VariantValue<U, O>>::of_variant(Variant::<U, O>::Empty) == Some(()),
        <() as VariantValue<U, O>>::of_variant(v) matches Some(y) ==> v == <() as VariantValue<U, O>>::to_variant(y),
{
}

/// `format!("{:?}", v)`: the `Debug` text of a value. That text comes from
/// derived `Debug` impls, which the verifier does not read, so nothing is
/// stated of it.
#[verifier::external_body]
fn debug_text<T: std::fmt::Debug>(v: &T) -> String {
    format!("{:?}", v)
}

/// `m` begins with `head` and ends with `tail`, with any text between.
pub open spec fn framed(m: Seq<char>, head: Seq<char>, tail: Seq<char>) -> bool {
    &&& m.len() >= head.len() + tail.len()
    &&& m.subrange(0, head.len() as int) == head
    &&& m.subrange(m.len() - tail.len(), m.len() as int) == tail
}

/// `a[k]` is the first element of `a` that does not hold a `T`.
pub open spec fn first_other_kind<U, O, T: VariantValue<U, O>>(a: Seq<Variant<U, O>>, k: int) -> bool {
    &&& 0 <= k < a.len()
    &&& T::of_variant(a[k]) is None
    &&& forall|i: int| 0 <= i < k ==> T::of_variant(#[trigger] a[i]) is Some
}

/// The text of a value of another kind than the type asked for:
/// `Variant <value> cannot be turned into a <type>`.
pub open spec fn is_mismatch_text(m: Seq<char>, target: Seq<char>) -> bool {
    framed(m, "Variant "@, " cannot be turned into a "@ + target)
}

/// The text of a value that is not an array where one was asked for:
/// `Cannot convert a non Variant::Array <value> to Vec`.
pub open spec fn is_not_array_text(m: Seq<char>) -> bool {
    framed(m, "Cannot convert a non Variant::Array "@, " to Vec"@)
}

fn framed_message(head: &str, shown: &str, tail1: &str, tail2: &str) -> (r: String)
    ensures
        framed(r@, head@, tail1@ + tail2@),
{
    let mut out = chars_of(head);
    push_str_chars(&mut out, shown);
    push_str_chars(&mut out, tail1);
    push_str_chars(&mut out, tail2);
    let ghost m = out@;
    assert(m =~= head@ + shown@ + tail1@ + tail2@);
    assert(m.subrange(0, head@.len() as int) =~= head@);
    assert(m.subrange(m.len() - (tail1@ + tail2@).len(), m.len() as int) =~= tail1@ + tail2@);
    string_of(&out)
}

impl<U, O> Variant<U, O> {
    /// Wraps a value in the variant of its type (`From<T> for Variant`).
    pub fn from_value<T: VariantValue<U, O>>(x: T) -> (r: Variant<U, O>)
        ensures
            r == x.to_variant(),
    {
        x.wrap()
    }

    /// A string variant holding a copy of `s` (`From<&str> for Variant`).
    pub fn from_str_slice(s: &str) -> (r: Variant<U, O>)
        ensures
            r matches Variant::String(t) && t@ == s@,
    {
        Variant::String(string_of(&chars_of(s)))
    }

    /// An array variant of the values, in order (`From<Vec<T>> for Variant`).
    pub fn from_values<T: VariantValue<U, O>>(xs: Vec<T>) -> (r: Variant<U, O>)
        ensures
            r matches Variant::Array(a) && a@.len() == xs@.len()
                && forall|i: int| 0 <= i < xs@.len() ==> #[trigger] a@[i] == xs@[i].to_variant(),
    {
        let ghost s = xs@;
        let n = xs.len();
        let mut rest = xs;
        let mut rev: Vec<T> = Vec::new();
        while rest.len() > 0
            invariant
                rest@.len() + rev@.len() == n,
                n == s.len(),
                rest@ == s.subrange(0, rest@.len() as int),
                forall|j: int| 0 <= j < rev@.len() ==> #[trigger] rev@[j] == s[n - 1 - j],
            decreases rest@.len(),
        {
            let x = rest.pop().unwrap();
            rev.push(x);
        }
        let mut out: Vec<Variant<U, O>> = Vec::new();
        let mut i: usize = 0;
        while i < n
            invariant
                0 <= i <= n,
                n == s.len(),
                rev@.len() == n - i,
                out@.len() == i,
                forall|j: int| 0 <= j < rev@.len() ==> #[trigger] rev@[j] == s[n - 1 - j],
                forall|j: int| 0 <= j < i ==> #[trigger] out@[j] == s[j].to_variant(),
            decreases n - i,
        {
            let x = rev.pop().unwrap();
            out.push(x.wrap());
            i = i + 1;
        }
        Variant::Array(out)
    }

    /// The value of type `T` that this variant holds (`TryFrom<Variant>`), or
    /// an error naming the value and the type when it is of another kind.
    pub fn try_into_value<T: VariantValue<U, O>>(self) -> (r: Result<T, WMIError>)
        where U: std::fmt::Debug, O: std::fmt::Debug,
        ensures
            match T::of_variant(self) {
                Some(x) => r == Ok::<T, WMIError>(x),
                None => r matches Err(WMIError::ConvertVariantError(m)) && is_mismatch_text(m@, T::type_text()),
            },
    {
        match T::unwrap_from(self) {
            Ok(x) => Ok(x),
            Err(other) => {
                let shown = debug_text(&other);
                Err(WMIError::ConvertVariantError(
                    framed_message("Variant ", shown.as_str(), " cannot be turned into a ", T::rust_name()),
                ))
            },
        }
    }

    /// The values of type `T` that the elements of an array variant hold, in
    /// order (`TryFrom<Variant> for Vec<T>`): an error for a value that is not
    /// an array, and otherwise the error of the first element of another kind.
    pub fn try_into_values<T: VariantValue<U, O>>(self) -> (r: Result<Vec<T>, WMIError>)
        where U: std::fmt::Debug, O: std::fmt::Debug,
        ensures
            match self {
                Variant::Array(a) => match r {
                    Ok(xs) => xs@.len() == a@.len()
                        && forall|i: int| 0 <= i < a@.len() ==> T::of_variant(#[trigger] a@[i]) == Some(xs@[i]),
                    Err(e) => (exists|k: int| first_other_kind::<U, O, T>(a@, k))
                        && (e matches WMIError::ConvertVariantError(m) && is_mismatch_text(m@, T::type_text())),
                },
                _ => r matches Err(WMIError::ConvertVariantError(m)) && is_not_array_text(m@),
            },
    {
        let ghost orig = self;
        let vs = match self {
            Variant::Array(vs) => vs,
            other => {
                let shown = debug_text(&other);
                proof {
                    reveal_strlit("");
                    assert(" to Vec"@ + ""@ =~= " to Vec"@);
                }
                return Err(WMIError::ConvertVariantError(
                    framed_message("Cannot convert a non Variant::Array ", shown.as_str(), " to Vec", ""),
                ));
            },
        };
        let ghost s = vs@;
        let n = vs.len();
        let mut rest = vs;
        let mut rev: Vec<Variant<U, O>> = Vec::new();
        while rest.len() > 0
            invariant
                rest@.len() + rev@.len() == n,
                n == s.len(),
                rest@ == s.subrange(0, rest@.len() as int),
                forall|j: int| 0 <= j < rev@.len() ==> #[trigger] rev@[j] == s[n - 1 - j],
            decreases rest@.len(),
        {
            let x = rest.pop().unwrap();
            rev.push(x);
        }
        let mut out: Vec<T> = Vec::new();
        let mut i: usize = 0;
        while i < n
            invariant
                0 <= i <= n,
                n == s.len(),
                orig == self,
                orig->Array_0@ == s,
                orig is Array,
                rev@.len() == n - i,
                out@.len() == i,
                forall|j: int| 0 <= j < rev@.len() ==> #[trigger] rev@[j] == s[n - 1 - j],
                forall|j: int| 0 <= j < i ==> T::of_variant(#[trigger] s[j]) == Some(out@[j]),
            decreases n - i,
        {
            let x = rev.pop().unwrap();
            assert(x == s[i as int]);
            match x.try_into_value::<T>() {
                Ok(y) => out.push(y),
                Err(e) => {
                    assert(T::of_variant(s[i as int]) is None);
                    assert(orig->Array_0@[i as int] == s[i as int]);
                    assert(forall|j: int| 0 <= j < i ==> T::of_variant(#[trigger] orig->Array_0@[j]) is Some);
                    assert(first_other_kind::<U, O, T>(orig->Array_0@, i as int));
                    return Err(e);
                },
            }
            i = i + 1;
        }
        Ok(out)
    }
}

/// Values put into an array variant come back out of it: no element is of
/// another kind, so converting the array back to `Vec<T>` succeeds, and the
/// values it gives are the values that went in.
pub proof fn lemma_values_round_trip<U, O, T: VariantValue<U, O>>(xs: Seq<T>, a: Seq<Variant<U, O>>, ys: Seq<T>)
    requires
        a.len() == xs.len(),
        forall|i: int| 0 <= i < xs.len() ==> #[trigger] a[i] == xs[i].to_variant(),
    ensures
        forall|k: int| !first_other_kind::<U, O, T>(a, k),
        (ys.len() == a.len() && forall|i: int| 0 <= i < a.len() ==> T::of_variant(#[trigger] a[i]) == Some(ys[i]))
            ==> ys == xs,
{
    assert forall|i: int| 0 <= i < xs.len() implies T::of_variant(#[trigger] a[i]) == Some(xs[i]) by {
        T::lemma_of_to_variant(xs[i]);
    }
    if ys.len() == a.len() && forall|i: int| 0 <= i < a.len() ==> T::of_variant(#[trigger] a[i]) == Some(ys[i]) {
        assert forall|i: int| 0 <= i < xs.len() implies ys[i] == xs[i] by {
            assert(T::of_variant(a[i]) == Some(ys[i]));
            assert(T::of_variant(a[i]) == Some(xs[i]));
        }
        assert(ys =~= xs);
    }
}

} // verus!
