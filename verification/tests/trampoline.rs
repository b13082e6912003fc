//! The host-function trampoline: marshaling in both directions, arity
//! checking, trap propagation, and lock discipline.

use wasm_bridge::errors::{CallError, SignatureError};
use wasm_bridge::function::{Function, HostCallable};
use wasm_bridge::host::{HostError, HostReturn, HostValue, InterpreterLock};
use wasm_bridge::types::{FunctionType, Type};
use wasm_bridge::values::Value;

/// Adds its two integer arguments; counts how often it was invoked.
struct Adder {
    calls: usize,
}

impl HostCallable for Adder {
    fn call(&mut self, arguments: Vec<HostValue>) -> Result<HostReturn, HostError> {
        self.calls += 1;
        let mut sum: i64 = 0;
        for a in &arguments {
            match a {
                HostValue::Int { negative, magnitude } => {
                    let v = if *negative { -(*magnitude as i64) } else { *magnitude as i64 };
                    sum += v;
                },
                _ => return Err(HostError { message: "not an integer".to_string() }),
            }
        }
        Ok(HostReturn::Single(HostValue::from_i64(sum)))
    }
}

/// Returns the fixed pair (5, 9).
struct Swapper;

impl HostCallable for Swapper {
    fn call(&mut self, _arguments: Vec<HostValue>) -> Result<HostReturn, HostError> {
        Ok(HostReturn::Many(vec![HostValue::from_i64(5), HostValue::from_i64(9)]))
    }
}

/// Succeeds until the fuse runs out, then raises.
struct Fuse {
    calls_left: usize,
}

impl HostCallable for Fuse {
    fn call(&mut self, _arguments: Vec<HostValue>) -> Result<HostReturn, HostError> {
        if self.calls_left == 0 {
            Err(HostError { message: "the fuse burned out".to_string() })
        } else {
            self.calls_left -= 1;
            Ok(HostReturn::Single(HostValue::from_i64(1)))
        }
    }
}

/// Returns whatever it was built to return.
struct Fixed {
    ret: fn() -> HostReturn,
}

impl HostCallable for Fixed {
    fn call(&mut self, _arguments: Vec<HostValue>) -> Result<HostReturn, HostError> {
        Ok((self.ret)())
    }
}

fn sig(params: Vec<Type>, results: Vec<Type>) -> FunctionType {
    FunctionType::new(params, results)
}

#[test]
fn invoke_marshals_arguments_and_results() {
    let ty = sig(vec![Type::I32, Type::I32], vec![Type::I32]);
    let mut f = Function::new(Adder { calls: 0 }, Some(&ty), None).unwrap();
    let mut lock = InterpreterLock::new();
    let results = f.invoke(&mut lock, &vec![Value::I32(2), Value::I32(40)]).unwrap();
    assert_eq!(results, vec![Value::I32(42)]);
    assert!(!lock.is_held());
    assert_eq!(f.callable.calls, 1);
}

#[test]
fn tuple_return_marshals_per_result_type() {
    // A callable returning (5, 9) against results [I64, I32].
    let ty = sig(vec![], vec![Type::I64, Type::I32]);
    let mut f = Function::new(Swapper, Some(&ty), None).unwrap();
    let mut lock = InterpreterLock::new();
    let results = f.invoke(&mut lock, &vec![]).unwrap();
    assert_eq!(results, vec![Value::I64(5), Value::I32(9)]);
}

#[test]
fn call_with_wrong_arity_fails_without_invoking_the_callable() {
    let ty = sig(vec![Type::I32, Type::I32], vec![Type::I32]);
    let mut f = Function::new(Adder { calls: 0 }, Some(&ty), None).unwrap();
    let mut lock = InterpreterLock::new();
    let r = f.call(&mut lock, &vec![HostValue::from_i64(1)]);
    assert_eq!(r.unwrap_err(), CallError::Arity { expected: 2, given: 1 });
    assert_eq!(f.callable.calls, 0);
    assert!(!lock.is_held());
}

#[test]
fn call_converts_arguments_before_the_callable_sees_them() {
    let ty = sig(vec![Type::I32], vec![Type::I32]);
    let mut f = Function::new(Adder { calls: 0 }, Some(&ty), None).unwrap();
    let mut lock = InterpreterLock::new();
    let r = f.call(&mut lock, &vec![HostValue::Float64 { bits: 0 }]);
    assert!(matches!(r, Err(CallError::Conversion(_))));
    assert_eq!(f.callable.calls, 0);
    assert!(!lock.is_held());
}

#[test]
fn call_returns_a_single_value_unwrapped() {
    let ty = sig(vec![Type::I32, Type::I32], vec![Type::I32]);
    let mut f = Function::new(Adder { calls: 0 }, Some(&ty), None).unwrap();
    let mut lock = InterpreterLock::new();
    let r = f.call(&mut lock, &vec![HostValue::from_i64(20), HostValue::from_i64(22)]).unwrap();
    assert_eq!(r, HostReturn::Single(HostValue::from_i64(42)));
}

#[test]
fn failing_call_leaves_earlier_results_alone_and_releases_the_lock() {
    // The callable raises on its second invocation: the first call's
    // results are unaffected and the lock is released despite the failure.
    let ty = sig(vec![], vec![Type::I32]);
    let mut f = Function::new(Fuse { calls_left: 1 }, Some(&ty), None).unwrap();
    let mut lock = InterpreterLock::new();
    let first = f.invoke(&mut lock, &vec![]).unwrap();
    assert_eq!(first, vec![Value::I32(1)]);
    let second = f.invoke(&mut lock, &vec![]);
    let trap = second.unwrap_err();
    assert!(trap.message.contains("the fuse burned out"));
    assert_eq!(first, vec![Value::I32(1)]);
    assert!(!lock.is_held());
}

#[test]
fn a_raising_callable_traps_with_the_original_text() {
    let ty = sig(vec![], vec![]);
    let mut f = Function::new(Fuse { calls_left: 0 }, Some(&ty), None).unwrap();
    let mut lock = InterpreterLock::new();
    let trap = f.invoke(&mut lock, &vec![]).unwrap_err();
    assert!(trap.message.contains("the fuse burned out"));
    assert!(!lock.is_held());
}

#[test]
fn reentrant_invocation_restores_the_lock_depth() {
    let ty = sig(vec![], vec![]);
    let mut f = Function::new(Fixed { ret: || HostReturn::Void }, Some(&ty), None).unwrap();
    let mut lock = InterpreterLock::new();
    lock.acquire();
    assert!(lock.is_held());
    f.invoke(&mut lock, &vec![]).unwrap();
    assert!(lock.is_held());
    lock.release();
    assert!(!lock.is_held());
}

#[test]
fn result_count_mismatch_traps() {
    // One result declared, none returned.
    let ty = sig(vec![], vec![Type::I32]);
    let mut f = Function::new(Fixed { ret: || HostReturn::Void }, Some(&ty), None).unwrap();
    let mut lock = InterpreterLock::new();
    let trap = f.invoke(&mut lock, &vec![]).unwrap_err();
    assert!(trap.message.contains("result count"));
    assert!(!lock.is_held());

    // None declared, one returned.
    let ty = sig(vec![], vec![]);
    let mut f = Function::new(
        Fixed { ret: || HostReturn::Single(HostValue::from_i64(1)) },
        Some(&ty),
        None,
    )
    .unwrap();
    let trap = f.invoke(&mut lock, &vec![]).unwrap_err();
    assert!(trap.message.contains("result count"));
}

#[test]
fn unconvertible_result_traps() {
    // The callable returns a float where an i32 is declared.
    let ty = sig(vec![], vec![Type::I32]);
    let mut f = Function::new(
        Fixed { ret: || HostReturn::Single(HostValue::Float64 { bits: 0 }) },
        Some(&ty),
        None,
    )
    .unwrap();
    let mut lock = InterpreterLock::new();
    let trap = f.invoke(&mut lock, &vec![]).unwrap_err();
    assert!(trap.message.contains("numeric kind"));
    assert!(!lock.is_held());
}

#[test]
fn function_type_getter_copies_the_signature() {
    let ty = sig(vec![Type::I64], vec![Type::F64]);
    let f = Function::new(Swapper, Some(&ty), None).unwrap();
    let got = f.ty();
    assert_eq!(got.params, vec![Type::I64]);
    assert_eq!(got.results, vec![Type::F64]);
}

#[test]
fn construction_fails_fast_on_bad_hints() {
    let r = Function::new(Swapper, None, None);
    assert!(matches!(r, Err(SignatureError::MissingAnnotations)));
}
