//! The error taxonomy of the marshaling layer.
//!
//! Every failure is an ordinary recoverable value, never a process abort.
//! Errors carry what they name as plain fields (the offending index, the
//! current length, the expected type); the embedder renders messages.

use crate::types::Type;
use vstd::prelude::*;

verus! {

/// A host value could not be converted to the expected WebAssembly type.
#[derive(Clone, Copy, Debug, PartialEq, Eq, Structural)]
pub enum ConversionError {
    /// The host value is not of the numeric kind the target type needs.
    WrongType { expected: Type },

    /// The host value is of the right kind but outside the representable
    /// range of the target type.
    OutOfRange { expected: Type },

    /// The type is carried opaquely and has no scalar conversion.
    Unsupported { ty: Type },
}

impl ConversionError {
    /// The description a host exception carries for this error.
    pub open spec fn spec_describe(&self) -> Seq<char> {
        match self {
            ConversionError::WrongType { .. } => "value is not of the expected numeric kind"@,
            ConversionError::OutOfRange { .. } => "value is out of range for the expected type"@,
            ConversionError::Unsupported { .. } => "reference types have no scalar conversion"@,
        }
    }

    pub fn describe(&self) -> (r: String)
        ensures
            r@ == self.spec_describe(),
    {
        match self {
            ConversionError::WrongType { .. } => {
                "value is not of the expected numeric kind".to_owned()
            },
            ConversionError::OutOfRange { .. } => {
                "value is out of range for the expected type".to_owned()
            },
            ConversionError::Unsupported { .. } => {
                "reference types have no scalar conversion".to_owned()
            },
        }
    }
}

/// A function type could not be derived for a host callable.  Reported
/// before any function object is built.
#[derive(Debug, PartialEq, Eq)]
pub enum SignatureError {
    /// No explicit descriptor was given and the callable carries no type
    /// hints.
    MissingAnnotations,

    /// A hint names no WebAssembly type in the lexical table.
    UnrecognizedHint { name: String },

    /// The named parameter is hinted as the host's none marker; parameters
    /// must be scalar.
    NoneParameter { name: String },

    /// The named parameter is hinted as a tuple; parameters must be scalar.
    TupleParameter { name: String },

    /// A tuple-shaped return hint contains a nested tuple or a none marker.
    NestedTuple,
}

/// An item of an unsupported kind was handed to the import registry.
#[derive(Debug, PartialEq, Eq)]
pub enum RegistrationError {
    /// Only functions, memories, globals and tables can be registered; the
    /// field carries the host's name for the rejected kind.
    UnsupportedKind { kind_name: String },
}

/// An abnormal termination of the current guest call chain, raised when a
/// host callable fails during a trampoline invocation or when result
/// marshaling fails after the callable returned.  Recoverable by the host
/// caller of the guest call.
#[derive(Debug, PartialEq, Eq)]
pub struct Trap {
    /// The description of the original failure.
    pub message: String,
}

/// A host-side call of a function failed.
#[derive(Debug, PartialEq, Eq)]
pub enum CallError {
    /// The argument count does not match the signature's parameter count;
    /// the callable was never invoked.
    Arity { expected: usize, given: usize },

    /// An argument could not be converted to its parameter type.
    Conversion(ConversionError),

    /// The call trapped.
    Trapped(Trap),
}

/// An out-of-range index or a malformed slice on a memory view.
#[derive(Clone, Copy, Debug, PartialEq, Eq, Structural)]
pub enum BoundsError {
    /// The index is not below the view's current length.
    IndexOutOfBounds { index: usize, length: usize },

    /// After clamping, the slice selects no element.
    EmptySlice { start: usize, stop: usize },

    /// The slice's step is zero or negative.
    NonPositiveStep { step: i64 },

    /// A slice write's sequence length does not equal the slice's element
    /// count; nothing was written.
    LengthMismatch { expected: usize, given: usize },

    /// The value at the given position of the incoming sequence does not fit
    /// the view's element type; nothing was written.
    ValueOutOfRange { position: usize },
}

/// A linear memory could not be created or grown.
#[derive(Clone, Copy, Debug, PartialEq, Eq, Structural)]
pub enum MemoryError {
    /// The requested minimum page count exceeds the maximum.
    MinimumTooLarge { minimum: u32, maximum: u32 },

    /// Growing would push the page count beyond the maximum.
    GrowBeyondMaximum { requested: u32, maximum: u32 },
}

/// A global's value could not be set.
#[derive(Clone, Copy, Debug, PartialEq, Eq, Structural)]
pub enum GlobalError {
    /// The global is immutable.
    Immutable,

    /// The new value could not be converted to the global's type.
    Conversion(ConversionError),
}

} // verus!
