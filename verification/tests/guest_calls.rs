//! Calling a guest function from the host: preparing arguments and
//! normalizing results around the engine's own execution.

use wasm_bridge::errors::{CallError, ConversionError};
use wasm_bridge::function::{normalize_call_results, prepare_call_arguments};
use wasm_bridge::host::{HostReturn, HostValue};
use wasm_bridge::types::Type;
use wasm_bridge::values::Value;

#[test]
fn arguments_are_converted_at_their_parameter_types() {
    let params = vec![Type::I32, Type::I64, Type::F64];
    let args = vec![
        HostValue::from_i64(-5),
        HostValue::from_i64(1 << 40),
        HostValue::Float64 { bits: 0x3FF0_0000_0000_0000 },
    ];
    let ws = prepare_call_arguments(&params, &args).unwrap();
    assert_eq!(
        ws,
        vec![Value::I32(-5), Value::I64(1 << 40), Value::F64(0x3FF0_0000_0000_0000)]
    );
}

#[test]
fn a_missing_argument_fails_before_any_conversion() {
    let params = vec![Type::I32, Type::I32];
    let args = vec![HostValue::from_i64(1)];
    assert_eq!(
        prepare_call_arguments(&params, &args),
        Err(CallError::Arity { expected: 2, given: 1 })
    );
}

#[test]
fn an_extra_argument_fails_too() {
    let params = vec![Type::I32];
    let args = vec![HostValue::from_i64(1), HostValue::from_i64(2)];
    assert_eq!(
        prepare_call_arguments(&params, &args),
        Err(CallError::Arity { expected: 1, given: 2 })
    );
}

#[test]
fn the_first_unconvertible_argument_is_reported() {
    let params = vec![Type::I32, Type::F32, Type::I32];
    let args = vec![
        HostValue::from_i64(1),
        HostValue::from_i64(2),
        HostValue::Float64 { bits: 0 },
    ];
    assert_eq!(
        prepare_call_arguments(&params, &args),
        Err(CallError::Conversion(ConversionError::WrongType { expected: Type::F32 }))
    );
}

#[test]
fn no_results_normalize_to_the_host_none() {
    assert_eq!(normalize_call_results(&vec![]).unwrap(), HostReturn::Void);
}

#[test]
fn one_result_stands_alone() {
    assert_eq!(
        normalize_call_results(&vec![Value::I32(7)]).unwrap(),
        HostReturn::Single(HostValue::from_i64(7))
    );
}

#[test]
fn several_results_form_a_tuple_in_order() {
    let r = normalize_call_results(&vec![Value::I64(5), Value::I32(9)]).unwrap();
    assert_eq!(
        r,
        HostReturn::Many(vec![HostValue::from_i64(5), HostValue::from_i64(9)])
    );
}

#[test]
fn a_reference_result_cannot_be_lowered() {
    assert_eq!(
        normalize_call_results(&vec![Value::ExternRef]),
        Err(ConversionError::Unsupported { ty: Type::ExternRef })
    );
}

#[test]
fn a_full_guest_call_round_trip() {
    // The host calls a guest function of type (i32, i32) -> i32.  The
    // engine's own execution stands between the two marshaling halves.
    let params = vec![Type::I32, Type::I32];
    let args = vec![HostValue::from_i64(40), HostValue::from_i64(2)];
    let wasm_args = prepare_call_arguments(&params, &args).unwrap();

    // What the engine would compute for an addition.
    let engine_results = match (&wasm_args[0], &wasm_args[1]) {
        (Value::I32(a), Value::I32(b)) => vec![Value::I32(a + b)],
        _ => panic!("arguments were not i32"),
    };

    assert_eq!(
        normalize_call_results(&engine_results).unwrap(),
        HostReturn::Single(HostValue::from_i64(42))
    );
}
