use wmi::convert::{Real32, Real64};
use wmi::error::WMIError;
use wmi::num::IntErrorKind;
use wmi::raw::{EncodeError, RawScalar, RawVariant};
use wmi::variant::{
    CimHost, Variant, CIM_BOOLEAN, CIM_CHAR16, CIM_DATETIME, CIM_EMPTY, CIM_FLAG_ARRAY, CIM_OBJECT,
    CIM_REAL32, CIM_REAL64, CIM_REFERENCE, CIM_SINT16, CIM_SINT32, CIM_SINT64, CIM_SINT8,
    CIM_STRING, CIM_UINT16, CIM_UINT32, CIM_UINT64, CIM_UINT8,
};

type V = Variant<(), &'static str>;

/// Floating point and COM steps done the way the original crate does them.
struct Host;

impl CimHost<(), &'static str> for Host {
    fn real32_from_int(&self, v: i128) -> u32 {
        (v as f32).to_bits()
    }
    fn real64_from_int(&self, v: i128) -> u64 {
        (v as f64).to_bits()
    }
    fn real32_from_real64(&self, bits: u64) -> u32 {
        (f64::from_bits(bits) as f32).to_bits()
    }
    fn real64_from_real32(&self, bits: u32) -> u64 {
        (f32::from_bits(bits) as f64).to_bits()
    }
    fn trunc_real32(&self, bits: u32) -> i128 {
        f32::from_bits(bits) as i128
    }
    fn trunc_real64(&self, bits: u64) -> i128 {
        f64::from_bits(bits) as i128
    }
    fn parse_real32(&self, s: &str) -> Result<u32, String> {
        s.parse::<f32>().map(f32::to_bits).map_err(|e| e.to_string())
    }
    fn parse_real64(&self, s: &str) -> Result<u64, String> {
        s.parse::<f64>().map(f64::to_bits).map_err(|e| e.to_string())
    }
    fn real32_text(&self, bits: u32) -> String {
        format!("{:?}", f32::from_bits(bits))
    }
    fn real64_text(&self, bits: u64) -> String {
        format!("{:?}", f64::from_bits(bits))
    }
    fn unknown_to_object(&self, _u: ()) -> Result<&'static str, WMIError> {
        Ok("object")
    }
}

fn r4(f: f32) -> V {
    Variant::R4(f.to_bits())
}

fn r8(f: f64) -> V {
    Variant::R8(f.to_bits())
}

fn s(t: &str) -> V {
    Variant::String(t.to_string())
}

#[test]
fn it_convert_into_cim_type_sint8() {
    let cim_type = CIM_SINT8;
    let variant: V = Variant::I1(1);
    let converted = variant.convert_into_cim_type(cim_type, &Host).unwrap();
    assert_eq!(converted, Variant::I1(1));

    let variant: V = Variant::UI1(1);
    let converted = variant.convert_into_cim_type(cim_type, &Host).unwrap();
    assert_eq!(converted, Variant::I1(1));
}

#[test]
fn it_convert_into_cim_type_uint8() {
    let cim_type = CIM_UINT8;
    let variant: V = Variant::UI1(1);
    let converted = variant.convert_into_cim_type(cim_type, &Host).unwrap();
    assert_eq!(converted, Variant::UI1(1));

    let variant: V = Variant::I1(1);
    let converted = variant.convert_into_cim_type(cim_type, &Host).unwrap();
    assert_eq!(converted, Variant::UI1(1));
}

#[test]
fn it_convert_into_cim_type_sint16() {
    let cim_type = CIM_UINT16;
    let variant: V = Variant::I2(1);
    let converted = variant.convert_into_cim_type(cim_type, &Host).unwrap();
    assert_eq!(converted, Variant::UI2(1));

    let variant: V = Variant::UI2(1);
    let converted = variant.convert_into_cim_type(cim_type, &Host).unwrap();
    assert_eq!(converted, Variant::UI2(1));

    let variant: V = Variant::I1(1);
    let converted = variant.convert_into_cim_type(cim_type, &Host).unwrap();
    assert_eq!(converted, Variant::UI2(1));
}

#[test]
fn it_convert_into_cim_type_uint32() {
    let cim_type = CIM_UINT32;
    let variant: V = Variant::I8(1);
    let converted = variant.convert_into_cim_type(cim_type, &Host).unwrap();
    assert_eq!(converted, Variant::UI4(1));

    let variant: V = Variant::UI8(1);
    let converted = variant.convert_into_cim_type(cim_type, &Host).unwrap();
    assert_eq!(converted, Variant::UI4(1));
}

#[test]
fn it_convert_into_cim_type_sint32() {
    let cim_type = CIM_SINT32;
    let variant: V = Variant::I8(1);
    let converted = variant.convert_into_cim_type(cim_type, &Host).unwrap();
    assert_eq!(converted, Variant::I4(1));

    let variant: V = Variant::UI8(1);
    let converted = variant.convert_into_cim_type(cim_type, &Host).unwrap();
    assert_eq!(converted, Variant::I4(1));

    let variant: V = s("1");
    let converted = variant.convert_into_cim_type(cim_type, &Host).unwrap();
    assert_eq!(converted, Variant::I4(1));
}

#[test]
fn it_convert_into_cim_type_uint64() {
    let cim_type = CIM_UINT64;
    let variant: V = Variant::I8(1);
    let converted = variant.convert_into_cim_type(cim_type, &Host).unwrap();
    assert_eq!(converted, Variant::UI8(1));

    let variant: V = Variant::UI8(1);
    let converted = variant.convert_into_cim_type(cim_type, &Host).unwrap();
    assert_eq!(converted, Variant::UI8(1));

    let variant: V = s("1");
    let converted = variant.convert_into_cim_type(cim_type, &Host).unwrap();
    assert_eq!(converted, Variant::UI8(1));
}

#[test]
fn it_convert_into_cim_type_sint64() {
    let cim_type = CIM_SINT64;
    let variant: V = Variant::I8(1);
    let converted = variant.convert_into_cim_type(cim_type, &Host).unwrap();
    assert_eq!(converted, Variant::I8(1));

    let variant: V = Variant::UI8(1);
    let converted = variant.convert_into_cim_type(cim_type, &Host).unwrap();
    assert_eq!(converted, Variant::I8(1));

    let variant: V = s("1");
    let converted = variant.convert_into_cim_type(cim_type, &Host).unwrap();
    assert_eq!(converted, Variant::I8(1));
}

#[test]
fn it_convert_into_cim_type_real32() {
    let cim_type = CIM_REAL32;
    let variant: V = Variant::I8(1);
    let converted = variant.convert_into_cim_type(cim_type, &Host).unwrap();
    assert_eq!(converted, r4(1.0));

    let variant: V = Variant::UI8(1);
    let converted = variant.convert_into_cim_type(cim_type, &Host).unwrap();
    assert_eq!(converted, r4(1.0));

    let variant: V = s("1");
    let converted = variant.convert_into_cim_type(cim_type, &Host).unwrap();
    assert_eq!(converted, r4(1.0));

    let variant: V = s("1.0");
    let converted = variant.convert_into_cim_type(cim_type, &Host).unwrap();
    assert_eq!(converted, r4(1.0));
}

#[test]
fn it_convert_into_cim_type_real64() {
    let cim_type = CIM_REAL64;
    let variant: V = Variant::I8(1);
    let converted = variant.convert_into_cim_type(cim_type, &Host).unwrap();
    assert_eq!(converted, r8(1.0));

    let variant: V = Variant::UI8(1);
    let converted = variant.convert_into_cim_type(cim_type, &Host).unwrap();
    assert_eq!(converted, r8(1.0));

    let variant: V = s("1");
    let converted = variant.convert_into_cim_type(cim_type, &Host).unwrap();
    assert_eq!(converted, r8(1.0));

    let variant: V = s("1.0");
    let converted = variant.convert_into_cim_type(cim_type, &Host).unwrap();
    assert_eq!(converted, r8(1.0));
}

#[test]
fn it_convert_into_cim_char16() {
    let cim_type = CIM_CHAR16;
    let variant: V = Variant::UI2(67);
    let converted = variant.convert_into_cim_type(cim_type, &Host).unwrap();
    assert_eq!(converted, s("C"));
}

#[test]
fn it_convert_into_cim_type_datetime() {
    let cim_type = CIM_DATETIME;
    let datetime = "19980401135809.000000+000";
    let variant: V = s(datetime);
    let converted = variant.convert_into_cim_type(cim_type, &Host).unwrap();
    assert_eq!(converted, s(datetime));
}

#[test]
fn it_convert_into_cim_type_reference() {
    let cim_type = CIM_REFERENCE;
    let datetime = r#"\\\\PC\\root\\cimv2:Win32_DiskDrive.DeviceID=\"\\\\\\\\.\\\\PHYSICALDRIVE0\""#;
    let variant: V = s(datetime);
    let converted = variant.convert_into_cim_type(cim_type, &Host).unwrap();
    assert_eq!(converted, s(datetime));
}

#[test]
fn it_convert_an_array_into_cim_type_array() {
    let cim_type = CIM_UINT64 | CIM_FLAG_ARRAY;
    let variant: V = Variant::Array(vec![s("1")]);
    let converted = variant.convert_into_cim_type(cim_type, &Host).unwrap();
    assert_eq!(converted, Variant::Array(vec![Variant::UI8(1)]));

    let cim_type = CIM_UINT8 | CIM_FLAG_ARRAY;
    let variant: V = Variant::Array(vec![Variant::UI1(1)]);
    let converted = variant.convert_into_cim_type(cim_type, &Host).unwrap();
    assert_eq!(converted, Variant::Array(vec![Variant::UI1(1)]));
}

#[test]
fn it_convert_a_single_value_into_cim_type_array() {
    let cim_type = CIM_UINT64 | CIM_FLAG_ARRAY;
    let variant: V = s("1");
    let converted = variant.convert_into_cim_type(cim_type, &Host).unwrap();
    assert_eq!(converted, Variant::Array(vec![Variant::UI8(1)]));

    let cim_type = CIM_UINT8 | CIM_FLAG_ARRAY;
    let variant: V = Variant::UI1(1);
    let converted = variant.convert_into_cim_type(cim_type, &Host).unwrap();
    assert_eq!(converted, Variant::Array(vec![Variant::UI1(1)]));
}

#[test]
fn it_convert_an_empty_into_cim_type_array() {
    let cim_type = CIM_STRING | CIM_FLAG_ARRAY;
    let variant: V = Variant::Null;
    let converted = variant.convert_into_cim_type(cim_type, &Host).unwrap();
    assert_eq!(converted, Variant::Array(vec![]));

    let variant: V = Variant::Empty;
    let converted = variant.convert_into_cim_type(cim_type, &Host).unwrap();
    assert_eq!(converted, Variant::Array(vec![]));
}

#[test]
fn it_bidirectional_string_convert() {
    let string = "Test String".to_string();
    let variant = V::from_value(string.clone());
    assert_eq!(variant.try_into_value::<String>().ok(), Some(string.clone()));

    let variant = V::from_value(string.clone());
    let ms_variant = variant.into_raw().unwrap();
    let variant = V::from_value(string.clone());
    assert_eq!(V::from_variant(ms_variant).unwrap(), variant);
}

#[test]
fn it_bidirectional_empty_convert() {
    let variant = V::from_value(());
    assert_eq!(variant.try_into_value::<()>().ok(), Some(()));

    let variant = V::from_value(());
    let ms_variant = variant.into_raw().unwrap();
    let variant = V::from_value(());
    assert_eq!(V::from_variant(ms_variant).unwrap(), variant);
}

#[test]
fn it_bidirectional_r8_convert() {
    let num = 0.123456789f64;
    let variant = V::from_value(Real64(num.to_bits()));
    assert_eq!(variant.try_into_value::<Real64>().ok().map(|b| f64::from_bits(b.0)), Some(num));

    let variant = V::from_value(Real64(num.to_bits()));
    let ms_variant = variant.into_raw().unwrap();
    let variant = V::from_value(Real64(num.to_bits()));
    assert_eq!(V::from_variant(ms_variant).unwrap(), variant);
}

#[test]
fn it_convert_array_to_vec() {
    let v: Vec<u8> = V::Array(vec![Variant::UI1(1), Variant::UI1(2)]).try_into_values().unwrap();

    assert_eq!(v, vec![1, 2]);

    let _v: Vec<u16> = V::Array(vec![Variant::UI2(1)]).try_into_values().unwrap();
    let _v: Vec<u32> = V::Array(vec![Variant::UI4(1)]).try_into_values().unwrap();
    let _v: Vec<u64> = V::Array(vec![Variant::UI8(1)]).try_into_values().unwrap();

    let _v: Vec<i8> = V::Array(vec![Variant::I1(1)]).try_into_values().unwrap();
    let _v: Vec<i16> = V::Array(vec![Variant::I2(1)]).try_into_values().unwrap();
    let _v: Vec<i32> = V::Array(vec![Variant::I4(1)]).try_into_values().unwrap();
    let _v: Vec<i64> = V::Array(vec![Variant::I8(1)]).try_into_values().unwrap();

    let _v: Vec<Real32> = V::Array(vec![r4(1.)]).try_into_values().unwrap();
    let _v: Vec<Real64> = V::Array(vec![r8(1.)]).try_into_values().unwrap();

    let _v: Vec<String> = V::Array(vec![s("s")]).try_into_values().unwrap();
    let _v: Vec<bool> = V::Array(vec![Variant::Bool(true)]).try_into_values().unwrap();
}

fn round_trip(variant: V) -> V {
    V::from_variant(variant.into_raw().unwrap()).unwrap()
}

#[test]
fn it_convert_array_to_ms_variant() {
    let variant = V::Array(vec![Variant::UI1(1), Variant::UI1(2)]);
    let converted_back_variant = round_trip(V::Array(vec![Variant::UI1(1), Variant::UI1(2)]));
    assert_eq!(variant, converted_back_variant);

    let variant = V::Array(vec![Variant::UI2(1), Variant::UI2(2)]);
    let converted_back_variant = round_trip(V::Array(vec![Variant::UI2(1), Variant::UI2(2)]))
        .convert_into_cim_type(CIM_UINT16, &Host)
        .unwrap();
    assert_eq!(variant, converted_back_variant);

    let variant = V::Array(vec![Variant::UI4(1), Variant::UI4(2)]);
    let converted_back_variant = round_trip(V::Array(vec![Variant::UI4(1), Variant::UI4(2)]))
        .convert_into_cim_type(CIM_UINT32, &Host)
        .unwrap();
    assert_eq!(variant, converted_back_variant);

    let variant = V::Array(vec![Variant::UI8(1), Variant::UI8(2)]);
    let converted_back_variant = round_trip(V::Array(vec![Variant::UI8(1), Variant::UI8(2)]))
        .convert_into_cim_type(CIM_UINT64, &Host)
        .unwrap();
    assert_eq!(variant, converted_back_variant);

    let variant = V::Array(vec![Variant::I2(1), Variant::I2(2)]);
    let converted_back_variant = round_trip(V::Array(vec![Variant::I2(1), Variant::I2(2)]));
    assert_eq!(variant, converted_back_variant);

    let variant = V::Array(vec![Variant::I4(1), Variant::I4(2)]);
    let converted_back_variant = round_trip(V::Array(vec![Variant::I4(1), Variant::I4(2)]));
    assert_eq!(variant, converted_back_variant);

    let variant = V::Array(vec![Variant::I8(1), Variant::I8(2)]);
    let converted_back_variant = round_trip(V::Array(vec![Variant::I8(1), Variant::I8(2)]))
        .convert_into_cim_type(CIM_SINT64, &Host)
        .unwrap();
    assert_eq!(variant, converted_back_variant);

    let variant = V::Array(vec![r8(1.), r8(2.)]);
    let converted_back_variant = round_trip(V::Array(vec![r8(1.), r8(2.)]));
    assert_eq!(variant, converted_back_variant);

    let variant = V::Array(vec![Variant::Bool(true), Variant::Bool(false)]);
    let converted_back_variant = round_trip(V::Array(vec![Variant::Bool(true), Variant::Bool(false)]));
    assert_eq!(variant, converted_back_variant);

    let variant = V::Array(vec![s("a"), s("b")]);
    let converted_back_variant = round_trip(V::Array(vec![s("a"), s("b")]));
    assert_eq!(variant, converted_back_variant);

    // Empty arrays are converted to empty variants.
    let converted_back_variant = round_trip(V::Array(vec![]));
    assert_eq!(converted_back_variant, Variant::Null);

    let variant = V::Array(vec![Variant::I1(0), Variant::I1(1)]);
    let converted_back_variant = round_trip(V::Array(vec![Variant::I1(0), Variant::I1(1)]))
        .convert_into_cim_type(CIM_SINT8, &Host)
        .unwrap();
    assert_eq!(variant, converted_back_variant);

    let variant = V::Array(vec![r4(0.), r4(1.)]);
    let converted_back_variant = round_trip(V::Array(vec![r4(0.), r4(1.)]));
    assert_eq!(variant, converted_back_variant);
}

#[test]
fn it_does_not_convert_array_to_unsupported_ms_variant() {
    let variant = V::Array(vec![s("a"), Variant::I8(0)]);
    assert!(variant.into_raw().is_err(), "Mixed arrays are not supported");
}

#[test]
fn variant_mixed_array_names_first_kind() {
    let variant = V::Array(vec![s("a"), Variant::I8(0)]);
    assert_eq!(variant.into_raw(), Err(EncodeError::Mismatch(Variant::I8(0), "String")));
    let variant = V::Array(vec![Variant::Null]);
    assert_eq!(variant.into_raw(), Err(EncodeError::Unsupported(Variant::Null)));
}

#[test]
fn variant_scalars_take_wmi_forms() {
    assert_eq!(V::I1(-3).into_raw(), Ok(RawVariant::Scalar(RawScalar::I2(-3))));
    assert_eq!(V::UI2(65535).into_raw(), Ok(RawVariant::Scalar(RawScalar::I4(65535))));
    assert_eq!(V::UI4(4294967295).into_raw(), Ok(RawVariant::Scalar(RawScalar::I4(-1))));
    assert_eq!(V::I8(-42).into_raw(), Ok(RawVariant::Scalar(RawScalar::Bstr("-42".to_string()))));
    assert_eq!(
        V::UI8(18446744073709551615).into_raw(),
        Ok(RawVariant::Scalar(RawScalar::Bstr("18446744073709551615".to_string())))
    );
    assert_eq!(V::Bool(true).into_raw(), Ok(RawVariant::Scalar(RawScalar::Bool(-1))));
    assert_eq!(V::Null.into_raw(), Ok(RawVariant::Null));
    assert_eq!(V::Object("o").into_raw(), Ok(RawVariant::Object("o")));
}

#[test]
fn variant_reading_raw_values() {
    assert_eq!(V::from_variant(RawVariant::Scalar(RawScalar::Bool(0))), Ok(Variant::Bool(false)));
    assert_eq!(V::from_variant(RawVariant::Scalar(RawScalar::Bool(-1))), Ok(Variant::Bool(true)));
    assert_eq!(V::from_variant(RawVariant::Scalar(RawScalar::Bool(1))), Err(WMIError::ConvertBoolError(1)));
    assert_eq!(
        V::from_variant(RawVariant::Array(vec![RawScalar::Bool(1), RawScalar::Bool(0)])),
        Ok(Variant::Array(vec![Variant::Bool(true), Variant::Bool(false)]))
    );
    assert_eq!(V::from_variant(RawVariant::NullArray), Err(WMIError::NullPointerResult));
    assert_eq!(V::from_variant(RawVariant::UnsupportedArray), Err(WMIError::UnimplementedArrayItem));
    assert_eq!(V::from_variant(RawVariant::Other(0x40)), Err(WMIError::ConvertError(0x40)));
    assert_eq!(V::from_variant(RawVariant::Unknown(())), Ok(Variant::Unknown(())));
}

#[test]
fn variant_round_trip_of_scalars() {
    let cases: Vec<(V, i32)> = vec![
        (Variant::I1(-128), CIM_SINT8),
        (Variant::I2(-2), CIM_SINT16),
        (Variant::I4(i32::MIN), CIM_SINT32),
        (Variant::I8(i64::MIN), CIM_SINT64),
        (Variant::UI1(255), CIM_UINT8),
        (Variant::UI2(65535), CIM_UINT16),
        (Variant::UI4(u32::MAX), CIM_UINT32),
        (Variant::UI8(u64::MAX), CIM_UINT64),
        (r4(2.5), CIM_REAL32),
        (r8(-0.25), CIM_REAL64),
        (Variant::Bool(false), CIM_BOOLEAN),
        (s("x"), CIM_STRING),
    ];
    for (v, t) in cases {
        let back = V::from_variant(v_clone(&v).into_raw().unwrap()).unwrap().convert_into_cim_type(t, &Host).unwrap();
        assert_eq!(back, v);
    }
}

fn v_clone(v: &V) -> V {
    match v {
        Variant::I1(x) => Variant::I1(*x),
        Variant::I2(x) => Variant::I2(*x),
        Variant::I4(x) => Variant::I4(*x),
        Variant::I8(x) => Variant::I8(*x),
        Variant::UI1(x) => Variant::UI1(*x),
        Variant::UI2(x) => Variant::UI2(*x),
        Variant::UI4(x) => Variant::UI4(*x),
        Variant::UI8(x) => Variant::UI8(*x),
        Variant::R4(x) => Variant::R4(*x),
        Variant::R8(x) => Variant::R8(*x),
        Variant::Bool(x) => Variant::Bool(*x),
        Variant::String(x) => Variant::String(x.clone()),
        _ => Variant::Empty,
    }
}

#[test]
fn variant_conversion_errors() {
    assert_eq!(
        V::Bool(true).convert_into_cim_type(CIM_UINT8, &Host),
        Err(WMIError::ConvertVariantError(
            "A boolean Variant cannot be turned into a CIMTYPE CIMTYPE_ENUMERATION(17)".to_string()
        ))
    );
    assert_eq!(
        V::I4(5).convert_into_cim_type(CIM_BOOLEAN, &Host),
        Err(WMIError::ConvertVariantError(
            "Value 5 cannot be turned into a CIMTYPE CIMTYPE_ENUMERATION(11)".to_string()
        ))
    );
    assert_eq!(
        V::Unknown(()).convert_into_cim_type(CIM_STRING, &Host),
        Err(WMIError::ConvertVariantError(
            "A unknown Variant cannot be turned into a CIMTYPE CIMTYPE_ENUMERATION(8)".to_string()
        ))
    );
    assert_eq!(V::Unknown(()).convert_into_cim_type(CIM_OBJECT, &Host), Ok(Variant::Object("object")));
    assert_eq!(
        s("300").convert_into_cim_type(CIM_UINT8, &Host),
        Err(WMIError::ParseIntError(IntErrorKind::PosOverflow))
    );
    assert_eq!(s("").convert_into_cim_type(CIM_SINT16, &Host), Err(WMIError::ParseIntError(IntErrorKind::Empty)));
    assert_eq!(s("-1").convert_into_cim_type(CIM_UINT16, &Host), Err(WMIError::ParseIntError(IntErrorKind::InvalidDigit)));
    assert!(matches!(s("x").convert_into_cim_type(CIM_REAL64, &Host), Err(WMIError::ParseFloatError(_))));
    assert_eq!(V::UI4(0xD800).convert_into_cim_type(CIM_CHAR16, &Host), Err(WMIError::ConvertStringError));
    assert_eq!(V::I4(300).convert_into_cim_type(CIM_UINT8, &Host), Ok(Variant::UI1(44)));
    assert_eq!(r8(1e10).convert_into_cim_type(CIM_SINT32, &Host), Ok(Variant::I4(i32::MAX)));
    assert_eq!(r8(-1.5).convert_into_cim_type(CIM_UINT8, &Host), Ok(Variant::UI1(0)));
    assert_eq!(V::I4(7).convert_into_cim_type(CIM_EMPTY, &Host), Ok(Variant::Null));
    assert_eq!(
        V::Array(vec![s("1"), s("x")]).convert_into_cim_type(CIM_UINT8, &Host),
        Err(WMIError::ParseIntError(IntErrorKind::InvalidDigit))
    );
}

#[test]
fn variant_value_conversion_errors() {
    match V::I4(1).try_into_value::<String>() {
        Err(WMIError::ConvertVariantError(m)) => assert_eq!(m, "Variant I4(1) cannot be turned into a String"),
        other => panic!("unexpected {:?}", other),
    }
    match V::I4(1).try_into_values::<u8>() {
        Err(WMIError::ConvertVariantError(m)) => assert_eq!(m, "Cannot convert a non Variant::Array I4(1) to Vec"),
        other => panic!("unexpected {:?}", other),
    }
    match V::Array(vec![Variant::UI1(1), Variant::I1(2)]).try_into_values::<u8>() {
        Err(WMIError::ConvertVariantError(m)) => assert_eq!(m, "Variant I1(2) cannot be turned into a u8"),
        other => panic!("unexpected {:?}", other),
    }
    assert_eq!(V::from_values(vec![1u16, 2]), Variant::Array(vec![Variant::UI2(1), Variant::UI2(2)]));
    assert_eq!(V::from_str_slice("abc"), s("abc"));
    assert_eq!(V::from_values(vec![1u16, 2]).try_into_values::<u16>(), Ok(vec![1u16, 2]));
}

#[test]
fn convert_twice_gives_the_first_result() {
    let cases: Vec<(fn() -> V, i32)> = vec![
        (|| s("300"), CIM_UINT16),
        (|| Variant::I4(-1), CIM_UINT8),
        (|| Variant::UI8(7), CIM_REAL32),
        (|| r8(2.5), CIM_SINT32),
        (|| Variant::UI2(65), CIM_CHAR16),
        (|| Variant::Array(vec![s("1"), s("2")]), CIM_SINT64 | CIM_FLAG_ARRAY),
        (|| Variant::I1(3), CIM_SINT8 | CIM_FLAG_ARRAY),
        (|| Variant::Bool(true), CIM_BOOLEAN),
    ];
    for (make, cim_type) in cases {
        let once = make().convert_into_cim_type(cim_type, &Host).unwrap();
        let again = make().convert_into_cim_type(cim_type, &Host).unwrap();
        assert_eq!(once.convert_into_cim_type(cim_type, &Host), Ok(again));
    }
    // An array type whose base type is empty: once gives null, twice the empty array.
    let once: V =
        Variant::Array(vec![Variant::UI1(1)]).convert_into_cim_type(CIM_FLAG_ARRAY, &Host).unwrap();
    assert_eq!(once, Variant::Null);
    assert_eq!(once.convert_into_cim_type(CIM_FLAG_ARRAY, &Host), Ok(Variant::Array(vec![])));
}
