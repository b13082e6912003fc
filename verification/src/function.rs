//! Host functions and the trampoline that lets guest code call them.
//!
//! A [`Function`] pairs a resolved signature with a host callable.  When the
//! guest invokes it, the trampoline acquires the interpreter lock, lowers
//! every argument to a host value, calls the callable, lifts every returned
//! element back at its declared result type, and releases the lock on every
//! exit path.  Any failure along the way — an argument that cannot be
//! lowered, a host-level exception, a result-count mismatch, a result that
//! cannot be lifted — becomes a [`Trap`] carrying the failure's description,
//! never a panic.

use crate::errors::{CallError, ConversionError, SignatureError, Trap};
use crate::host::{HostError, HostReturn, HostValue, InterpreterLock};
use crate::signature::{resolve_signature, spec_resolve, Annotations};
use crate::types::{FunctionType, Type};
use crate::values::{host_to_wasm, spec_host_to_wasm, spec_wasm_to_host, wasm_to_host, Value};
use vstd::prelude::*;

verus! {

/// Host-defined behavior that guest code may invoke through a trampoline.
/// The host owns the callable; this layer only forwards marshaled arguments
/// and reads the outcome, about which nothing is assumed.
pub trait HostCallable {
    /// Invokes the callable with one host value per declared parameter.
    fn call(&mut self, arguments: Vec<HostValue>) -> Result<HostReturn, HostError>;
}

/// The trap message for a callable whose result count does not match its
/// declared result types.
pub open spec fn result_count_message() -> Seq<char> {
    "callable result count does not match the declared result types"@
}

/// Every guest value in `args` has a host conversion.
pub open spec fn all_lowerable(args: Seq<Value>) -> bool {
    forall|i: int| 0 <= i < args.len() ==> (#[trigger] spec_wasm_to_host(args[i])) is Ok
}

/// `hs` is exactly `args` lowered to host values, element by element.
pub open spec fn lowered(args: Seq<Value>, hs: Seq<HostValue>) -> bool {
    hs.len() == args.len() && forall|i: int|
        0 <= i < args.len() ==> (#[trigger] spec_wasm_to_host(args[i])) == Ok::<
            HostValue,
            ConversionError,
        >(hs[i])
}

/// Lowering `args` fails first at position `j`, with error `e`.
pub open spec fn lowering_fails_at(args: Seq<Value>, j: int, e: ConversionError) -> bool {
    &&& 0 <= j < args.len()
    &&& spec_wasm_to_host(args[j]) == Err::<HostValue, ConversionError>(e)
    &&& forall|k: int| 0 <= k < j ==> (#[trigger] spec_wasm_to_host(args[k])) is Ok
}

/// Every host value in `args` converts at its parameter type.
pub open spec fn all_marshalable(params: Seq<Type>, args: Seq<HostValue>) -> bool {
    args.len() == params.len() && forall|i: int|
        0 <= i < args.len() ==> (#[trigger] spec_host_to_wasm(args[i], params[i])) is Ok
}

/// `ws` is exactly `args` converted at the parameter types, element by
/// element.
pub open spec fn marshaled(params: Seq<Type>, args: Seq<HostValue>, ws: Seq<Value>) -> bool {
    ws.len() == args.len() && forall|i: int|
        0 <= i < args.len() ==> (#[trigger] spec_host_to_wasm(args[i], params[i])) == Ok::<
            Value,
            ConversionError,
        >(ws[i])
}

/// Converting `args` at the parameter types fails first at position `j`,
/// with error `e`.
pub open spec fn marshaling_fails_at(
    params: Seq<Type>,
    args: Seq<HostValue>,
    j: int,
    e: ConversionError,
) -> bool {
    &&& 0 <= j < args.len()
    &&& spec_host_to_wasm(args[j], params[j]) == Err::<Value, ConversionError>(e)
    &&& forall|k: int| 0 <= k < j ==> (#[trigger] spec_host_to_wasm(args[k], params[k])) is Ok
}

/// Lowers every guest argument to a host value, left to right, stopping at
/// the first argument that has no scalar conversion.
pub fn lower_arguments(args: &Vec<Value>) -> (r: Result<Vec<HostValue>, ConversionError>)
    ensures
        r is Ok <==> all_lowerable(args@),
        match r {
            Ok(hs) => lowered(args@, hs@) && (forall|i: int|
                0 <= i < hs@.len() ==> (#[trigger] hs@[i]).wf()),
            Err(e) => exists|j: int| lowering_fails_at(args@, j, e),
        },
{
    let mut out: Vec<HostValue> = Vec::new();
    let n = args.len();
    let mut i: usize = 0;
    while i < n
        invariant
            i <= n,
            n == args@.len(),
            out@.len() == i,
            forall|k: int|
                0 <= k < i ==> (#[trigger] spec_wasm_to_host(args@[k])) == Ok::<
                    HostValue,
                    ConversionError,
                >(out@[k]),
            forall|k: int| 0 <= k < i ==> (#[trigger] out@[k]).wf(),
        decreases n - i,
    {
        match wasm_to_host(&args[i]) {
            Ok(h) => {
                out.push(h);
            },
            Err(e) => {
                proof {
                    assert(lowering_fails_at(args@, i as int, e));
                }
                return Err(e);
            },
        }
        i = i + 1;
    }
    Ok(out)
}

/// Converts every host argument to its declared parameter type, left to
/// right, stopping at the first argument the codec rejects.
pub fn marshal_arguments(params: &Vec<Type>, args: &Vec<HostValue>) -> (r: Result<
    Vec<Value>,
    ConversionError,
>)
    requires
        params@.len() == args@.len(),
    ensures
        r is Ok <==> all_marshalable(params@, args@),
        match r {
            Ok(ws) => marshaled(params@, args@, ws@),
            Err(e) => exists|j: int| marshaling_fails_at(params@, args@, j, e),
        },
{
    let mut out: Vec<Value> = Vec::new();
    let n = args.len();
    let mut i: usize = 0;
    while i < n
        invariant
            i <= n,
            n == args@.len(),
            n == params@.len(),
            out@.len() == i,
            forall|k: int|
                0 <= k < i ==> (#[trigger] spec_host_to_wasm(args@[k], params@[k])) == Ok::<
                    Value,
                    ConversionError,
                >(out@[k]),
        decreases n - i,
    {
        match host_to_wasm(&args[i], params[i]) {
            Ok(w) => {
                out.push(w);
            },
            Err(e) => {
                proof {
                    assert(marshaling_fails_at(params@, args@, i as int, e));
                }
                return Err(e);
            },
        }
        i = i + 1;
    }
    Ok(out)
}

/// The normalized shape of a callable's return: no value and an empty
/// sequence are both zero results, a single value is one result, and a
/// tuple's elements stand each for one result, in order.
pub open spec fn spec_normalize_return(ret: HostReturn) -> Seq<HostValue> {
    match ret {
        HostReturn::Void => Seq::empty(),
        HostReturn::Single(v) => seq![v],
        HostReturn::Many(vs) => vs@,
    }
}

/// The normalized return converts cleanly: the count matches the declared
/// result types and every element converts at its type.
pub open spec fn spec_liftable(results: Seq<Type>, norm: Seq<HostValue>) -> bool {
    norm.len() == results.len() && (forall|i: int|
        0 <= i < norm.len() ==> (#[trigger] spec_host_to_wasm(norm[i], results[i])) is Ok)
}

/// `ws` is exactly the normalized return converted at the result types.
pub open spec fn lifted(results: Seq<Type>, norm: Seq<HostValue>, ws: Seq<Value>) -> bool {
    ws.len() == results.len() && norm.len() == results.len() && (forall|i: int|
        0 <= i < norm.len() ==> (#[trigger] spec_host_to_wasm(norm[i], results[i])) == Ok::<
            Value,
            ConversionError,
        >(ws[i]))
}

/// What the trap for a failed lift says: either the count mismatched, or
/// the first element the codec rejected is described.
pub open spec fn lift_trap_message(results: Seq<Type>, norm: Seq<HostValue>, t: Trap) -> bool {
    if norm.len() != results.len() {
        t.message@ == result_count_message()
    } else {
        exists|j: int|
            {
                &&& 0 <= j < norm.len()
                &&& ((#[trigger] spec_host_to_wasm(norm[j], results[j])) matches Err(e)
                    && t.message@ == e.spec_describe())
                &&& forall|k: int|
                    0 <= k < j ==> (#[trigger] spec_host_to_wasm(norm[k], results[k])) is Ok
            }
    }
}

/// Lifts what a callable returned to guest values at the declared result
/// types.  The count must match exactly and every element must convert;
/// otherwise the call traps and the trap describes the first failure.
pub fn lift_results(results: &Vec<Type>, ret: &HostReturn) -> (r: Result<Vec<Value>, Trap>)
    ensures
        r is Ok <==> spec_liftable(results@, spec_normalize_return(*ret)),
        match r {
            Ok(ws) => lifted(results@, spec_normalize_return(*ret), ws@),
            Err(t) => lift_trap_message(results@, spec_normalize_return(*ret), t),
        },
{
    let n = results.len();
    match ret {
        HostReturn::Void => {
            if n != 0 {
                return Err(
                    Trap {
                        message: "callable result count does not match the declared result types".to_owned(),
                    },
                );
            }
            Ok(Vec::new())
        },
        HostReturn::Single(v) => {
            if n != 1 {
                return Err(
                    Trap {
                        message: "callable result count does not match the declared result types".to_owned(),
                    },
                );
            }
            match host_to_wasm(v, results[0]) {
                Ok(w) => {
                    let mut out: Vec<Value> = Vec::new();
                    out.push(w);
                    Ok(out)
                },
                Err(e) => {
                    let t = Trap { message: e.describe() };
                    proof {
                        let norm = spec_normalize_return(*ret);
                        assert(spec_host_to_wasm(norm[0], results@[0]) == Err::<
                            Value,
                            ConversionError,
                        >(e));
                    }
                    Err(t)
                },
            }
        },
        HostReturn::Many(vs) => {
            if vs.len() != n {
                return Err(
                    Trap {
                        message: "callable result count does not match the declared result types".to_owned(),
                    },
                );
            }
            let mut out: Vec<Value> = Vec::new();
            let mut i: usize = 0;
            while i < n
                invariant
                    i <= n,
                    n == results@.len(),
                    n == vs@.len(),
                    spec_normalize_return(*ret) == vs@,
                    out@.len() == i,
                    forall|k: int|
                        0 <= k < i ==> (#[trigger] spec_host_to_wasm(vs@[k], results@[k])) == Ok::<
                            Value,
                            ConversionError,
                        >(out@[k]),
                decreases n - i,
            {
                match host_to_wasm(&vs[i], results[i]) {
                    Ok(w) => {
                        out.push(w);
                    },
                    Err(e) => {
                        let t = Trap { message: e.describe() };
                        proof {
                            let norm = spec_normalize_return(*ret);
                            let j = i as int;
                            assert(norm =~= vs@);
                            assert(spec_host_to_wasm(norm[j], results@[j]) == Err::<
                                Value,
                                ConversionError,
                            >(e));
                            assert((spec_host_to_wasm(norm[j], results@[j]) matches Err(e0)
                                && t.message@ == e0.spec_describe()));
                        }
                        return Err(t);
                    },
                }
                i = i + 1;
            }
            Ok(out)
        },
    }
}


/// Prepares a host-side call of a guest function: the argument count must
/// match the signature's parameter count exactly — a mismatch fails before
/// anything is converted — and every argument is then converted at its
/// declared parameter type.
pub fn prepare_call_arguments(params: &Vec<Type>, args: &Vec<HostValue>) -> (r: Result<
    Vec<Value>,
    CallError,
>)
    ensures
        args@.len() != params@.len() ==> (r matches Err(e) && e == (CallError::Arity {
            expected: params@.len() as usize,
            given: args@.len() as usize,
        })),
        args@.len() == params@.len() ==> (r is Ok <==> all_marshalable(params@, args@)),
        args@.len() == params@.len() ==> (match r {
            Ok(ws) => marshaled(params@, args@, ws@),
            Err(e) => (e matches CallError::Conversion(c) && exists|j: int|
                marshaling_fails_at(params@, args@, j, c)),
        }),
{
    if args.len() != params.len() {
        return Err(CallError::Arity { expected: params.len(), given: args.len() });
    }
    match marshal_arguments(params, args) {
        Ok(ws) => Ok(ws),
        Err(e) => Err(CallError::Conversion(e)),
    }
}

/// Normalizes what a guest call returned for the host: no results is the
/// host's none, a single result stands alone, and two or more form a
/// tuple, each lowered through the codec.
pub fn normalize_call_results(results: &Vec<Value>) -> (r: Result<HostReturn, ConversionError>)
    ensures
        r is Ok <==> all_lowerable(results@),
        match r {
            Ok(ret) => match ret {
                HostReturn::Void => results@.len() == 0,
                HostReturn::Single(h) => results@.len() == 1 && spec_wasm_to_host(results@[0])
                    == Ok::<HostValue, ConversionError>(h),
                HostReturn::Many(hs) => results@.len() >= 2 && lowered(results@, hs@),
            },
            Err(e) => exists|j: int| lowering_fails_at(results@, j, e),
        },
{
    if results.len() == 0 {
        return Ok(HostReturn::Void);
    }
    if results.len() == 1 {
        match wasm_to_host(&results[0]) {
            Ok(h) => Ok(HostReturn::Single(h)),
            Err(e) => {
                proof {
                    assert(lowering_fails_at(results@, 0, e));
                }
                Err(e)
            },
        }
    } else {
        match lower_arguments(results) {
            Ok(hs) => Ok(HostReturn::Many(hs)),
            Err(e) => Err(e),
        }
    }
}

/// A function exposed to guest code: a resolved signature and the host
/// callable the trampoline forwards to.
pub struct Function<C> {
    /// The function's resolved signature; immutable after construction.
    pub signature: FunctionType,

    /// The wrapped host callable.
    pub callable: C,
}

impl<C: HostCallable> Function<C> {
    /// Builds a function for a host callable.  An explicit type descriptor
    /// is used verbatim; otherwise the callable's type hints are resolved.
    /// A resolution error leaves no function behind.
    pub fn new(callable: C, ty: Option<&FunctionType>, annotations: Option<&Annotations>) -> (r:
        Result<Function<C>, SignatureError>)
        ensures
            match spec_resolve(ty, annotations) {
                Ok((ps, rs)) => r matches Ok(f) && f.signature.params@ == ps && f.signature.results@
                    == rs,
                Err(e0) => r matches Err(e) && e == e0,
            },
    {
        match resolve_signature(ty, annotations) {
            Ok(signature) => Ok(Function { signature, callable }),
            Err(e) => Err(e),
        }
    }

    /// The function's type.
    pub fn ty(&self) -> (r: FunctionType)
        ensures
            r.params@ == self.signature.params@,
            r.results@ == self.signature.results@,
    {
        self.signature.duplicate()
    }

    /// The trampoline: invoked by the engine with exactly one guest value
    /// per declared parameter.  Whatever the callable does, the interpreter
    /// lock is released on every exit path, and a successful invocation
    /// returns exactly one guest value per declared result type.
    pub fn invoke(&mut self, lock: &mut InterpreterLock, args: &Vec<Value>) -> (r: Result<
        Vec<Value>,
        Trap,
    >)
        requires
            args@.len() == old(self).signature.params@.len(),
            old(lock).depth < u64::MAX,
        ensures
            final(lock).depth == old(lock).depth,
            final(self).signature == old(self).signature,
            r matches Ok(ws) ==> ws@.len() == old(self).signature.results@.len(),
            r is Ok ==> all_lowerable(args@),
            !all_lowerable(args@) ==> (r matches Err(t) && exists|j: int, e: ConversionError|
                lowering_fails_at(args@, j, e) && t.message@ == e.spec_describe()),
    {
        lock.acquire();
        let host_args = match lower_arguments(args) {
            Ok(hs) => hs,
            Err(e) => {
                let trap = Trap { message: e.describe() };
                lock.release();
                return Err(trap);
            },
        };
        let returned = match self.callable.call(host_args) {
            Ok(ret) => ret,
            Err(host_error) => {
                let trap = Trap { message: host_error.message };
                lock.release();
                return Err(trap);
            },
        };
        let lifted_values = match lift_results(&self.signature.results, &returned) {
            Ok(ws) => ws,
            Err(trap) => {
                lock.release();
                return Err(trap);
            },
        };
        lock.release();
        Ok(lifted_values)
    }

    /// Calls the function from the host side, as the host would call any of
    /// its own callables.  A call with the wrong number of arguments fails
    /// before the callable is ever invoked; so does an argument the codec
    /// rejects for its parameter type.  The results are lowered back to
    /// host values: none, a single value, or a tuple, by count.
    pub fn call(&mut self, lock: &mut InterpreterLock, args: &Vec<HostValue>) -> (r: Result<
        HostReturn,
        CallError,
    >)
        requires
            old(lock).depth < u64::MAX,
        ensures
            final(lock).depth == old(lock).depth,
            final(self).signature == old(self).signature,
            args@.len() != old(self).signature.params@.len() ==> (r matches Err(e) && e
                == (CallError::Arity {
                    expected: old(self).signature.params@.len() as usize,
                    given: args@.len() as usize,
                })),
            args@.len() == old(self).signature.params@.len() ==> (match r {
                Ok(ret) => match ret {
                    HostReturn::Void => old(self).signature.results@.len() == 0,
                    HostReturn::Single(_) => old(self).signature.results@.len() == 1,
                    HostReturn::Many(vs) => vs@.len() == old(self).signature.results@.len()
                        && vs@.len() >= 2,
                },
                Err(e) => e is Conversion || e is Trapped,
            }),
            args@.len() == old(self).signature.params@.len() && !all_marshalable(
                old(self).signature.params@,
                args@,
            ) ==> (r matches Err(e) && e is Conversion),
    {
        let wasm_args = match prepare_call_arguments(&self.signature.params, args) {
            Ok(ws) => ws,
            Err(e) => {
                return Err(e);
            },
        };
        let results = match self.invoke(lock, &wasm_args) {
            Ok(ws) => ws,
            Err(trap) => {
                return Err(CallError::Trapped(trap));
            },
        };
        match normalize_call_results(&results) {
            Ok(ret) => Ok(ret),
            Err(e) => Err(CallError::Conversion(e)),
        }
    }
}

} // verus!
