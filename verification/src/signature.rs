//! The signature resolver: deriving a function type for a host callable.
//!
//! A function type comes either from an explicit descriptor, used verbatim,
//! or from the callable's per-parameter and per-return type hints, mapped
//! through a fixed lexical table.  A return hint may be absent or the host's
//! none marker (zero results), a scalar (one result), or a one-level tuple
//! (several results, in order).  Parameters are always scalar.  Every
//! malformed hint fails before any function object is built.

use crate::errors::SignatureError;
use crate::types::{FunctionType, Type};
use vstd::prelude::*;

verus! {

/// A type hint attached to a host callable's parameter or return position,
/// as the host's reflection reports it.
#[derive(Debug)]
pub enum TypeHint {
    /// The host's native integer type marker.
    IntClass,

    /// The host's native floating-point type marker.
    FloatClass,

    /// The host's none marker.
    NoneMarker,

    /// A string hint, such as `"i32"`.
    Name(String),

    /// A tuple of hints; only allowed in return position, one level deep.
    Tuple(Vec<TypeHint>),

    /// Any other annotation, carrying the host's description of it.
    Other(String),
}

/// One named parameter of a host callable together with its hint, in the
/// callable's declared parameter order.
#[derive(Debug)]
pub struct ParameterHint {
    /// The parameter's name, used only to report errors.
    pub name: String,

    /// The parameter's type hint.
    pub hint: TypeHint,
}

/// The type hints a host callable declares: its parameters in order, and
/// its return hint if one is present.
#[derive(Debug)]
pub struct Annotations {
    /// Per-parameter hints, in declared order.
    pub parameters: Vec<ParameterHint>,

    /// The return hint; absent when the callable declares none.
    pub result: Option<TypeHint>,
}

/// The lexical table: which WebAssembly type a scalar hint names, if any.
pub open spec fn spec_scalar_hint(hint: TypeHint) -> Option<Type> {
    match hint {
        TypeHint::IntClass => Some(Type::I32),
        TypeHint::FloatClass => Some(Type::F32),
        TypeHint::Name(s) => if s@ == "i32"@ || s@ == "I32"@ {
            Some(Type::I32)
        } else if s@ == "i64"@ || s@ == "I64"@ {
            Some(Type::I64)
        } else if s@ == "f32"@ || s@ == "F32"@ {
            Some(Type::F32)
        } else if s@ == "f64"@ || s@ == "F64"@ {
            Some(Type::F64)
        } else {
            None
        },
        _ => None,
    }
}

/// Compares a string against a literal.
fn str_matches(s: &String, lit: &str) -> (r: bool)
    ensures
        r == (s@ == lit@),
{
    let owned: String = lit.to_owned();
    *s == owned
}

/// Looks a scalar hint up in the lexical table.
pub fn scalar_hint(hint: &TypeHint) -> (r: Option<Type>)
    ensures
        r == spec_scalar_hint(*hint),
{
    match hint {
        TypeHint::IntClass => Some(Type::I32),
        TypeHint::FloatClass => Some(Type::F32),
        TypeHint::Name(s) => {
            if str_matches(s, "i32") || str_matches(s, "I32") {
                Some(Type::I32)
            } else if str_matches(s, "i64") || str_matches(s, "I64") {
                Some(Type::I64)
            } else if str_matches(s, "f32") || str_matches(s, "F32") {
                Some(Type::F32)
            } else if str_matches(s, "f64") || str_matches(s, "F64") {
                Some(Type::F64)
            } else {
                None
            }
        },
        _ => None,
    }
}

/// What resolving the parameter hints yields: the parameter types in
/// declared order, or the first error.
pub open spec fn spec_param_types(params: Seq<ParameterHint>) -> Result<Seq<Type>, SignatureError>
    decreases params.len(),
{
    if params.len() == 0 {
        Ok(Seq::empty())
    } else {
        let head = params[0];
        match head.hint {
            TypeHint::NoneMarker => Err(SignatureError::NoneParameter { name: head.name }),
            TypeHint::Tuple(_) => Err(SignatureError::TupleParameter { name: head.name }),
            _ => match spec_scalar_hint(head.hint) {
                Some(t) => match spec_param_types(params.drop_first()) {
                    Ok(rest) => Ok(seq![t] + rest),
                    Err(e) => Err(e),
                },
                None => Err(
                    SignatureError::UnrecognizedHint { name: spec_hint_description(head.hint) },
                ),
            },
        }
    }
}

/// The string reported for an unrecognized hint; meaningful only for the
/// two hint shapes that carry one, the only shapes the table can fail on.
pub open spec fn spec_hint_description(hint: TypeHint) -> String
    recommends
        hint is Name || hint is Other,
{
    if hint is Name {
        hint->Name_0
    } else {
        hint->Other_0
    }
}

/// What resolving the elements of a tuple-shaped return hint yields: each
/// element must be a recognized scalar.
pub open spec fn spec_tuple_types(elements: Seq<TypeHint>) -> Result<Seq<Type>, SignatureError>
    decreases elements.len(),
{
    if elements.len() == 0 {
        Ok(Seq::empty())
    } else {
        match elements[0] {
            TypeHint::NoneMarker | TypeHint::Tuple(_) => Err(SignatureError::NestedTuple),
            _ => match spec_scalar_hint(elements[0]) {
                Some(t) => match spec_tuple_types(elements.drop_first()) {
                    Ok(rest) => Ok(seq![t] + rest),
                    Err(e) => Err(e),
                },
                None => Err(
                    SignatureError::UnrecognizedHint { name: spec_hint_description(elements[0]) },
                ),
            },
        }
    }
}

/// What resolving the return hint yields: the result types in order, or the
/// first error.  An absent hint and the none marker both mean zero results.
pub open spec fn spec_result_types(result: Option<TypeHint>) -> Result<Seq<Type>, SignatureError> {
    match result {
        None => Ok(Seq::empty()),
        Some(TypeHint::NoneMarker) => Ok(Seq::empty()),
        Some(TypeHint::Tuple(elements)) => spec_tuple_types(elements@),
        Some(h) => match spec_scalar_hint(h) {
            Some(t) => Ok(seq![t]),
            None => Err(SignatureError::UnrecognizedHint { name: spec_hint_description(h) }),
        },
    }
}

/// What the resolver yields for the given descriptor and hints: the
/// parameter and result type sequences, or the first error.
pub open spec fn spec_resolve(
    explicit: Option<&FunctionType>,
    annotations: Option<&Annotations>,
) -> Result<(Seq<Type>, Seq<Type>), SignatureError> {
    match explicit {
        Some(ft) => Ok((ft.params@, ft.results@)),
        None => match annotations {
            None => Err(SignatureError::MissingAnnotations),
            Some(ann) => match spec_param_types(ann.parameters@) {
                Err(e) => Err(e),
                Ok(ps) => match spec_result_types(ann.result) {
                    Err(e) => Err(e),
                    Ok(rs) => Ok((ps, rs)),
                },
            },
        },
    }
}

/// Describes an unrecognized hint for error reporting.
fn hint_description(hint: &TypeHint) -> (r: String)
    requires
        hint is Name || hint is Other,
    ensures
        r == spec_hint_description(*hint),
{
    match hint {
        TypeHint::Name(s) => s.clone(),
        TypeHint::Other(s) => s.clone(),
        _ => {
            // Unreachable under the precondition; any carried string would do.
            proof {
                assert(false);
            }
            String::new()
        },
    }
}

/// Resolves the parameter hints to parameter types.
fn resolve_params(params: &Vec<ParameterHint>) -> (r: Result<Vec<Type>, SignatureError>)
    ensures
        match r {
            Ok(ts) => spec_param_types(params@) == Ok::<Seq<Type>, SignatureError>(ts@),
            Err(e) => spec_param_types(params@) matches Err(e0) && e0 == e,
        },
{
    let mut out: Vec<Type> = Vec::new();
    let n = params.len();
    let mut i: usize = 0;
    proof {
        assert(params@.subrange(0, n as int) =~= params@);
        match spec_param_types(params@) {
            Ok(rest) => {
                assert(Seq::<Type>::empty() + rest =~= rest);
            },
            Err(_) => {},
        }
    }
    while i < n
        invariant
            i <= n,
            n == params@.len(),
            spec_param_types(params@) == match spec_param_types(params@.subrange(i as int, n as int)) {
                Ok(rest) => Ok::<Seq<Type>, SignatureError>(out@ + rest),
                Err(e) => Err::<Seq<Type>, SignatureError>(e),
            },
        decreases n - i,
    {
        let ghost pre_out = out@;
        proof {
            assert(params@.subrange(i as int, n as int).drop_first() =~= params@.subrange(
                i + 1,
                n as int,
            ));
            assert(params@.subrange(i as int, n as int)[0] == params@[i as int]);
        }
        let p = &params[i];
        let t: Type;
        match &p.hint {
            TypeHint::NoneMarker => {
                return Err(SignatureError::NoneParameter { name: p.name.clone() });
            },
            TypeHint::Tuple(_) => {
                return Err(SignatureError::TupleParameter { name: p.name.clone() });
            },
            _ => {
                match scalar_hint(&p.hint) {
                    Some(ty) => {
                        t = ty;
                        out.push(ty);
                    },
                    None => {
                        return Err(
                            SignatureError::UnrecognizedHint { name: hint_description(&p.hint) },
                        );
                    },
                }
            },
        }
        i = i + 1;
        proof {
            assert(out@ =~= pre_out + seq![t]);
            match spec_param_types(params@.subrange(i as int, n as int)) {
                Ok(rest) => {
                    assert(pre_out + (seq![t] + rest) =~= out@ + rest);
                },
                Err(_) => {},
            }
        }
    }
    proof {
        assert(params@.subrange(n as int, n as int) =~= Seq::<ParameterHint>::empty());
        assert(out@ + Seq::<Type>::empty() =~= out@);
    }
    Ok(out)
}

/// Resolves a tuple-shaped return hint to result types.
fn resolve_tuple(elements: &Vec<TypeHint>) -> (r: Result<Vec<Type>, SignatureError>)
    ensures
        match r {
            Ok(ts) => spec_tuple_types(elements@) == Ok::<Seq<Type>, SignatureError>(ts@),
            Err(e) => spec_tuple_types(elements@) matches Err(e0) && e0 == e,
        },
{
    let mut out: Vec<Type> = Vec::new();
    let n = elements.len();
    let mut i: usize = 0;
    proof {
        assert(elements@.subrange(0, n as int) =~= elements@);
        match spec_tuple_types(elements@) {
            Ok(rest) => {
                assert(Seq::<Type>::empty() + rest =~= rest);
            },
            Err(_) => {},
        }
    }
    while i < n
        invariant
            i <= n,
            n == elements@.len(),
            spec_tuple_types(elements@) == match spec_tuple_types(
                elements@.subrange(i as int, n as int),
            ) {
                Ok(rest) => Ok::<Seq<Type>, SignatureError>(out@ + rest),
                Err(e) => Err::<Seq<Type>, SignatureError>(e),
            },
        decreases n - i,
    {
        let ghost pre_out = out@;
        proof {
            assert(elements@.subrange(i as int, n as int).drop_first() =~= elements@.subrange(
                i + 1,
                n as int,
            ));
            assert(elements@.subrange(i as int, n as int)[0] == elements@[i as int]);
        }
        let h = &elements[i];
        let t: Type;
        match h {
            TypeHint::NoneMarker | TypeHint::Tuple(_) => {
                return Err(SignatureError::NestedTuple);
            },
            _ => {
                match scalar_hint(h) {
                    Some(ty) => {
                        t = ty;
                        out.push(ty);
                    },
                    None => {
                        return Err(SignatureError::UnrecognizedHint { name: hint_description(h) });
                    },
                }
            },
        }
        i = i + 1;
        proof {
            assert(out@ =~= pre_out + seq![t]);
            match spec_tuple_types(elements@.subrange(i as int, n as int)) {
                Ok(rest) => {
                    assert(pre_out + (seq![t] + rest) =~= out@ + rest);
                },
                Err(_) => {},
            }
        }
    }
    proof {
        assert(elements@.subrange(n as int, n as int) =~= Seq::<TypeHint>::empty());
        assert(out@ + Seq::<Type>::empty() =~= out@);
    }
    Ok(out)
}

/// Derives a function type: an explicit descriptor is used verbatim, and
/// otherwise the callable's hints are resolved through the lexical table.
/// Every error is reported here, before any function object exists.
pub fn resolve_signature(explicit: Option<&FunctionType>, annotations: Option<&Annotations>) -> (r:
    Result<FunctionType, SignatureError>)
    ensures
        match spec_resolve(explicit, annotations) {
            Ok((ps, rs)) => r matches Ok(out) && out.params@ == ps && out.results@ == rs,
            Err(e0) => r matches Err(e) && e == e0,
        },
{
    match explicit {
        Some(ft) => Ok(ft.duplicate()),
        None => match annotations {
            None => Err(SignatureError::MissingAnnotations),
            Some(ann) => {
                let params = match resolve_params(&ann.parameters) {
                    Ok(ps) => ps,
                    Err(e) => {
                        return Err(e);
                    },
                };
                let results = match &ann.result {
                    None => Vec::new(),
                    Some(TypeHint::NoneMarker) => Vec::new(),
                    Some(TypeHint::Tuple(elements)) => match resolve_tuple(elements) {
                        Ok(ts) => ts,
                        Err(e) => {
                            return Err(e);
                        },
                    },
                    Some(h) => match scalar_hint(h) {
                        Some(t) => {
                            let mut one: Vec<Type> = Vec::new();
                            one.push(t);
                            one
                        },
                        None => {
                            return Err(
                                SignatureError::UnrecognizedHint { name: hint_description(h) },
                            );
                        },
                    },
                };
                Ok(FunctionType { params, results })
            },
        },
    }
}

} // verus!
