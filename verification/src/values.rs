//! WebAssembly values and the scalar value codec.
//!
//! The codec converts a single scalar between a host dynamic value and a
//! typed WebAssembly value.  Conversion is exact: integer targets accept
//! only host integers representable in the target width (wrapping as
//! two's-complement exactly where the width permits), float targets accept
//! only host floats of the same width, and the opaque reference types are
//! never converted.

use crate::errors::ConversionError;
use crate::host::HostValue;
use crate::types::Type;
use vstd::prelude::*;

verus! {

/// A WebAssembly value of a specific type.  Floats are carried as their
/// IEEE-754 bit patterns; the reference types are opaque to this layer.
#[derive(Clone, Copy, Debug, PartialEq, Eq, Structural)]
pub enum Value {
    I32(i32),
    I64(i64),
    /// A 32-bit float, as its bit pattern.
    F32(u32),
    /// A 64-bit float, as its bit pattern.
    F64(u64),
    V128(u128),
    /// An opaque external reference; never converted by the scalar codec.
    ExternRef,
    /// An opaque function reference; never converted by the scalar codec.
    FuncRef,
}

impl Value {
    /// The type of this value.
    pub open spec fn spec_ty(&self) -> Type {
        match self {
            Value::I32(_) => Type::I32,
            Value::I64(_) => Type::I64,
            Value::F32(_) => Type::F32,
            Value::F64(_) => Type::F64,
            Value::V128(_) => Type::V128,
            Value::ExternRef => Type::ExternRef,
            Value::FuncRef => Type::FuncRef,
        }
    }

    #[verifier::when_used_as_spec(spec_ty)]
    pub fn ty(&self) -> (r: Type)
        ensures
            r == self.spec_ty(),
    {
        match self {
            Value::I32(_) => Type::I32,
            Value::I64(_) => Type::I64,
            Value::F32(_) => Type::F32,
            Value::F64(_) => Type::F64,
            Value::V128(_) => Type::V128,
            Value::ExternRef => Type::ExternRef,
            Value::FuncRef => Type::FuncRef,
        }
    }

    /// Builds a WebAssembly `i32` value.
    pub fn i32(value: i32) -> (r: Value)
        ensures
            r == Value::I32(value),
    {
        Value::I32(value)
    }

    /// Builds a WebAssembly `i64` value.
    pub fn i64(value: i64) -> (r: Value)
        ensures
            r == Value::I64(value),
    {
        Value::I64(value)
    }

    /// Builds a WebAssembly `f32` value from its bit pattern.
    pub fn f32_from_bits(bits: u32) -> (r: Value)
        ensures
            r == Value::F32(bits),
    {
        Value::F32(bits)
    }

    /// Builds a WebAssembly `f64` value from its bit pattern.
    pub fn f64_from_bits(bits: u64) -> (r: Value)
        ensures
            r == Value::F64(bits),
    {
        Value::F64(bits)
    }

    /// Builds a WebAssembly `v128` value.
    pub fn v128(value: u128) -> (r: Value)
        ensures
            r == Value::V128(value),
    {
        Value::V128(value)
    }
}

/// The host integers an `i32` parameter accepts: everything representable
/// in 32 bits, signed or unsigned.
pub open spec fn in_i32_range(v: int) -> bool {
    -0x8000_0000 <= v < 0x1_0000_0000
}

/// The host integers an `i64` parameter accepts: everything representable
/// in 64 bits, signed or unsigned.
pub open spec fn in_i64_range(v: int) -> bool {
    -0x8000_0000_0000_0000 <= v < 0x1_0000_0000_0000_0000
}

/// Two's-complement reading of a 32-bit-representable integer.
pub open spec fn wrap_i32(v: int) -> int
    recommends
        in_i32_range(v),
{
    if v > 0x7FFF_FFFF {
        v - 0x1_0000_0000
    } else {
        v
    }
}

/// Two's-complement reading of a 64-bit-representable integer.
pub open spec fn wrap_i64(v: int) -> int
    recommends
        in_i64_range(v),
{
    if v > 0x7FFF_FFFF_FFFF_FFFF {
        v - 0x1_0000_0000_0000_0000
    } else {
        v
    }
}

/// What converting a host value to the given WebAssembly type yields.
pub open spec fn spec_host_to_wasm(value: HostValue, expected: Type) -> Result<
    Value,
    ConversionError,
> {
    match expected {
        Type::I32 => match value {
            HostValue::Int { .. } => if in_i32_range(value.int_value()) {
                Ok(Value::I32(wrap_i32(value.int_value()) as i32))
            } else {
                Err(ConversionError::OutOfRange { expected: Type::I32 })
            },
            _ => Err(ConversionError::WrongType { expected: Type::I32 }),
        },
        Type::I64 => match value {
            HostValue::Int { .. } => if in_i64_range(value.int_value()) {
                Ok(Value::I64(wrap_i64(value.int_value()) as i64))
            } else {
                Err(ConversionError::OutOfRange { expected: Type::I64 })
            },
            _ => Err(ConversionError::WrongType { expected: Type::I64 }),
        },
        Type::F32 => match value {
            HostValue::Float32 { bits } => Ok(Value::F32(bits)),
            _ => Err(ConversionError::WrongType { expected: Type::F32 }),
        },
        Type::F64 => match value {
            HostValue::Float64 { bits } => Ok(Value::F64(bits)),
            _ => Err(ConversionError::WrongType { expected: Type::F64 }),
        },
        Type::V128 => match value {
            HostValue::Int { negative, magnitude } => if value.int_value() < 0 {
                Err(ConversionError::OutOfRange { expected: Type::V128 })
            } else {
                Ok(Value::V128(magnitude))
            },
            _ => Err(ConversionError::WrongType { expected: Type::V128 }),
        },
        Type::ExternRef => Err(ConversionError::Unsupported { ty: Type::ExternRef }),
        Type::FuncRef => Err(ConversionError::Unsupported { ty: Type::FuncRef }),
    }
}

/// What converting a WebAssembly value back to a host value yields.  Every
/// scalar converts; the opaque reference types do not.
pub open spec fn spec_wasm_to_host(value: Value) -> Result<HostValue, ConversionError> {
    match value {
        Value::I32(x) => if x < 0 {
            Ok(HostValue::Int { negative: true, magnitude: (-(x as int)) as u128 })
        } else {
            Ok(HostValue::Int { negative: false, magnitude: x as u128 })
        },
        Value::I64(x) => if x < 0 {
            Ok(HostValue::Int { negative: true, magnitude: (-(x as int)) as u128 })
        } else {
            Ok(HostValue::Int { negative: false, magnitude: x as u128 })
        },
        Value::F32(bits) => Ok(HostValue::Float32 { bits }),
        Value::F64(bits) => Ok(HostValue::Float64 { bits }),
        Value::V128(x) => Ok(HostValue::Int { negative: false, magnitude: x as u128 }),
        Value::ExternRef => Err(ConversionError::Unsupported { ty: Type::ExternRef }),
        Value::FuncRef => Err(ConversionError::Unsupported { ty: Type::FuncRef }),
    }
}

/// Converts a host value to a WebAssembly value of the expected type.
pub fn host_to_wasm(value: &HostValue, expected: Type) -> (r: Result<Value, ConversionError>)
    ensures
        r == spec_host_to_wasm(*value, expected),
{
    match expected {
        Type::I32 => match value {
            HostValue::Int { negative, magnitude } => {
                let negative = *negative;
                let magnitude = *magnitude;
                if negative {
                    if magnitude > 0x8000_0000 {
                        Err(ConversionError::OutOfRange { expected: Type::I32 })
                    } else if magnitude == 0x8000_0000 {
                        Ok(Value::I32(i32::MIN))
                    } else {
                        Ok(Value::I32(-(magnitude as i32)))
                    }
                } else {
                    if magnitude <= 0x7FFF_FFFF {
                        Ok(Value::I32(magnitude as i32))
                    } else if magnitude <= 0xFFFF_FFFF {
                        let complement: u128 = 0x1_0000_0000 - magnitude;
                        if complement == 0x8000_0000 {
                            Ok(Value::I32(i32::MIN))
                        } else {
                            Ok(Value::I32(-(complement as i32)))
                        }
                    } else {
                        Err(ConversionError::OutOfRange { expected: Type::I32 })
                    }
                }
            },
            _ => Err(ConversionError::WrongType { expected: Type::I32 }),
        },
        Type::I64 => match value {
            HostValue::Int { negative, magnitude } => {
                let negative = *negative;
                let magnitude = *magnitude;
                if negative {
                    if magnitude > 0x8000_0000_0000_0000 {
                        Err(ConversionError::OutOfRange { expected: Type::I64 })
                    } else if magnitude == 0x8000_0000_0000_0000 {
                        Ok(Value::I64(i64::MIN))
                    } else {
                        Ok(Value::I64(-(magnitude as i64)))
                    }
                } else {
                    if magnitude <= 0x7FFF_FFFF_FFFF_FFFF {
                        Ok(Value::I64(magnitude as i64))
                    } else if magnitude <= 0xFFFF_FFFF_FFFF_FFFF {
                        let complement: u128 = 0x1_0000_0000_0000_0000 - magnitude;
                        if complement == 0x8000_0000_0000_0000 {
                            Ok(Value::I64(i64::MIN))
                        } else {
                            Ok(Value::I64(-(complement as i64)))
                        }
                    } else {
                        Err(ConversionError::OutOfRange { expected: Type::I64 })
                    }
                }
            },
            _ => Err(ConversionError::WrongType { expected: Type::I64 }),
        },
        Type::F32 => match value {
            HostValue::Float32 { bits } => Ok(Value::F32(*bits)),
            _ => Err(ConversionError::WrongType { expected: Type::F32 }),
        },
        Type::F64 => match value {
            HostValue::Float64 { bits } => Ok(Value::F64(*bits)),
            _ => Err(ConversionError::WrongType { expected: Type::F64 }),
        },
        Type::V128 => match value {
            HostValue::Int { negative, magnitude } => if *negative && *magnitude > 0 {
                Err(ConversionError::OutOfRange { expected: Type::V128 })
            } else {
                Ok(Value::V128(*magnitude))
            },
            _ => Err(ConversionError::WrongType { expected: Type::V128 }),
        },
        Type::ExternRef => Err(ConversionError::Unsupported { ty: Type::ExternRef }),
        Type::FuncRef => Err(ConversionError::Unsupported { ty: Type::FuncRef }),
    }
}

/// Converts a WebAssembly value back to a host value.
pub fn wasm_to_host(value: &Value) -> (r: Result<HostValue, ConversionError>)
    ensures
        r == spec_wasm_to_host(*value),
        r matches Ok(h) ==> h.wf(),
{
    match value {
        Value::I32(x) => {
            let x = *x;
            if x < 0 {
                Ok(HostValue::Int { negative: true, magnitude: (-(x as i64)) as u128 })
            } else {
                Ok(HostValue::Int { negative: false, magnitude: x as u128 })
            }
        },
        Value::I64(x) => {
            let x = *x;
            if x < 0 {
                Ok(HostValue::Int { negative: true, magnitude: (-(x as i128)) as u128 })
            } else {
                Ok(HostValue::Int { negative: false, magnitude: x as u128 })
            }
        },
        Value::F32(bits) => Ok(HostValue::Float32 { bits: *bits }),
        Value::F64(bits) => Ok(HostValue::Float64 { bits: *bits }),
        Value::V128(x) => Ok(HostValue::Int { negative: false, magnitude: *x }),
        Value::ExternRef => Err(ConversionError::Unsupported { ty: Type::ExternRef }),
        Value::FuncRef => Err(ConversionError::Unsupported { ty: Type::FuncRef }),
    }
}

/// The host values the given type accepts without wrapping: for those, and
/// only those, conversion is invertible.
pub open spec fn exactly_representable(value: HostValue, ty: Type) -> bool {
    match ty {
        Type::I32 => value is Int && -0x8000_0000 <= value.int_value() <= 0x7FFF_FFFF,
        Type::I64 => value is Int && -0x8000_0000_0000_0000 <= value.int_value()
            <= 0x7FFF_FFFF_FFFF_FFFF,
        Type::F32 => value is Float32,
        Type::F64 => value is Float64,
        Type::V128 => value is Int && 0 <= value.int_value(),
        Type::ExternRef => false,
        Type::FuncRef => false,
    }
}

/// Round trip through the codec: a host value in the exact range of a type
/// comes back unchanged from converting to WebAssembly and back.
pub proof fn lemma_host_round_trip(value: HostValue, ty: Type)
    requires
        value.wf(),
        exactly_representable(value, ty),
    ensures
        spec_host_to_wasm(value, ty) is Ok,
        spec_wasm_to_host(spec_host_to_wasm(value, ty).unwrap()) == Ok::<
            HostValue,
            ConversionError,
        >(value),
{
}

/// Round trip from the guest side: every scalar WebAssembly value converts
/// to a host value, and converting that host value back at the value's own
/// type restores it exactly.
pub proof fn lemma_wasm_round_trip(value: Value)
    requires
        value.ty().is_scalar(),
    ensures
        spec_wasm_to_host(value) is Ok,
        spec_wasm_to_host(value).unwrap().wf(),
        spec_host_to_wasm(spec_wasm_to_host(value).unwrap(), value.ty()) == Ok::<
            Value,
            ConversionError,
        >(value),
{
}

} // verus!
