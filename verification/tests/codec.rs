//! The scalar value codec: exact conversion, wrapping, and round trips.

use wasm_bridge::errors::ConversionError;
use wasm_bridge::host::HostValue;
use wasm_bridge::types::Type;
use wasm_bridge::values::{host_to_wasm, wasm_to_host, Value};

fn host_int(v: i64) -> HostValue {
    HostValue::from_i64(v)
}

#[test]
fn i32_round_trip_in_range() {
    for v in [0i64, 1, -1, 42, i32::MAX as i64, i32::MIN as i64] {
        let w = host_to_wasm(&host_int(v), Type::I32).unwrap();
        assert_eq!(w, Value::I32(v as i32));
        let back = wasm_to_host(&w).unwrap();
        assert_eq!(back, host_int(v));
    }
}

#[test]
fn i64_round_trip_in_range() {
    for v in [0i64, 7, -7, i64::MAX, i64::MIN] {
        let w = host_to_wasm(&host_int(v), Type::I64).unwrap();
        assert_eq!(w, Value::I64(v));
        assert_eq!(wasm_to_host(&w).unwrap(), host_int(v));
    }
}

#[test]
fn i32_accepts_unsigned_range_by_wrapping() {
    // A host integer in the unsigned 32-bit range wraps as two's-complement.
    let v = HostValue::from_u128(3_000_000_000);
    let w = host_to_wasm(&v, Type::I32).unwrap();
    assert_eq!(w, Value::I32(-1_294_967_296));
    // The wrapped value does not round-trip: it reads back as the signed value.
    assert_eq!(wasm_to_host(&w).unwrap(), host_int(-1_294_967_296));
}

#[test]
fn i32_wraps_u32_max() {
    let v = HostValue::from_u128(0xFFFF_FFFF);
    assert_eq!(host_to_wasm(&v, Type::I32).unwrap(), Value::I32(-1));
}

#[test]
fn i64_accepts_unsigned_range_by_wrapping() {
    let v = HostValue::from_u128(u64::MAX as u128);
    assert_eq!(host_to_wasm(&v, Type::I64).unwrap(), Value::I64(-1));
}

#[test]
fn i32_out_of_range_fails() {
    for v in [
        HostValue::from_u128(0x1_0000_0000),
        HostValue::Int { negative: true, magnitude: 0x8000_0001 },
    ] {
        assert_eq!(
            host_to_wasm(&v, Type::I32),
            Err(ConversionError::OutOfRange { expected: Type::I32 })
        );
    }
}

#[test]
fn i64_out_of_range_fails() {
    let v = HostValue::from_u128(0x1_0000_0000_0000_0000);
    assert_eq!(
        host_to_wasm(&v, Type::I64),
        Err(ConversionError::OutOfRange { expected: Type::I64 })
    );
}

#[test]
fn float_targets_reject_integers() {
    assert_eq!(
        host_to_wasm(&host_int(1), Type::F32),
        Err(ConversionError::WrongType { expected: Type::F32 })
    );
    assert_eq!(
        host_to_wasm(&host_int(1), Type::F64),
        Err(ConversionError::WrongType { expected: Type::F64 })
    );
}

#[test]
fn integer_targets_reject_floats() {
    let f = HostValue::Float64 { bits: 4_616_189_618_054_758_400 };
    assert_eq!(
        host_to_wasm(&f, Type::I32),
        Err(ConversionError::WrongType { expected: Type::I32 })
    );
    assert_eq!(
        host_to_wasm(&f, Type::I64),
        Err(ConversionError::WrongType { expected: Type::I64 })
    );
}

#[test]
fn float_width_must_match() {
    let f32v = HostValue::Float32 { bits: 0x4028_0000 };
    let f64v = HostValue::Float64 { bits: 0x4005_0000_0000_0000 };
    assert_eq!(host_to_wasm(&f32v, Type::F32).unwrap(), Value::F32(0x4028_0000));
    assert_eq!(host_to_wasm(&f64v, Type::F64).unwrap(), Value::F64(0x4005_0000_0000_0000));
    assert_eq!(
        host_to_wasm(&f32v, Type::F64),
        Err(ConversionError::WrongType { expected: Type::F64 })
    );
    assert_eq!(
        host_to_wasm(&f64v, Type::F32),
        Err(ConversionError::WrongType { expected: Type::F32 })
    );
}

#[test]
fn float_round_trip_is_bit_exact() {
    let w = host_to_wasm(&HostValue::Float32 { bits: 0x7FC0_0001 }, Type::F32).unwrap();
    assert_eq!(wasm_to_host(&w).unwrap(), HostValue::Float32 { bits: 0x7FC0_0001 });
    let w = host_to_wasm(&HostValue::Float64 { bits: 0x7FF8_0000_0000_0001 }, Type::F64).unwrap();
    assert_eq!(wasm_to_host(&w).unwrap(), HostValue::Float64 { bits: 0x7FF8_0000_0000_0001 });
}

#[test]
fn v128_round_trip() {
    let v = HostValue::from_u128(u128::MAX);
    let w = host_to_wasm(&v, Type::V128).unwrap();
    assert_eq!(w, Value::V128(u128::MAX));
    assert_eq!(wasm_to_host(&w).unwrap(), v);
}

#[test]
fn v128_rejects_negative() {
    assert_eq!(
        host_to_wasm(&host_int(-1), Type::V128),
        Err(ConversionError::OutOfRange { expected: Type::V128 })
    );
}

#[test]
fn reference_types_are_unsupported_in_the_scalar_path() {
    assert_eq!(
        host_to_wasm(&host_int(0), Type::ExternRef),
        Err(ConversionError::Unsupported { ty: Type::ExternRef })
    );
    assert_eq!(
        host_to_wasm(&host_int(0), Type::FuncRef),
        Err(ConversionError::Unsupported { ty: Type::FuncRef })
    );
    assert_eq!(
        wasm_to_host(&Value::ExternRef),
        Err(ConversionError::Unsupported { ty: Type::ExternRef })
    );
    assert_eq!(
        wasm_to_host(&Value::FuncRef),
        Err(ConversionError::Unsupported { ty: Type::FuncRef })
    );
}

#[test]
fn non_numeric_host_values_are_rejected() {
    assert_eq!(
        host_to_wasm(&HostValue::Other, Type::I32),
        Err(ConversionError::WrongType { expected: Type::I32 })
    );
}

#[test]
fn value_constructors_and_types() {
    assert_eq!(Value::i32(7).ty(), Type::I32);
    assert_eq!(Value::i64(7).ty(), Type::I64);
    assert_eq!(Value::f32_from_bits(1).ty(), Type::F32);
    assert_eq!(Value::f64_from_bits(1).ty(), Type::F64);
    assert_eq!(Value::v128(1).ty(), Type::V128);
}

#[test]
fn type_tags_and_names() {
    assert_eq!(Type::iter().len(), 7);
    for t in Type::iter() {
        assert_eq!(Type::from_tag(t.tag()), Some(t));
    }
    assert_eq!(Type::from_tag(0), None);
    assert_eq!(Type::from_tag(8), None);
    assert_eq!(Type::I32.name(), "I32");
    assert_eq!(Type::ExternRef.name(), "EXTERN_REF");
    assert!(Type::I32.is_scalar());
    assert!(!Type::FuncRef.is_scalar());
}

#[test]
fn sign_magnitude_normalizes_negative_zero() {
    assert_eq!(
        HostValue::from_sign_magnitude(true, 0),
        HostValue::Int { negative: false, magnitude: 0 }
    );
    assert_eq!(
        HostValue::from_sign_magnitude(true, 5),
        HostValue::Int { negative: true, magnitude: 5 }
    );
}
