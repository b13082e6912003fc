//! Global variables: a single typed value and a mutability flag.

use crate::errors::{ConversionError, GlobalError};
use crate::host::HostValue;
use crate::types::GlobalType;
use crate::values::{host_to_wasm, spec_host_to_wasm, spec_wasm_to_host, wasm_to_host, Value};
use vstd::prelude::*;

verus! {

/// A global instance: an individual value and a flag saying whether it may
/// change at runtime.  The value's type is fixed at construction.
#[derive(Debug)]
pub struct Global {
    /// The stored value.
    pub value: Value,

    /// Whether the value may change at runtime.
    pub mutable: bool,
}

impl Global {
    /// Creates a global holding `value`; immutable unless asked otherwise.
    pub fn new(value: &Value, mutable: Option<bool>) -> (r: Global)
        ensures
            r.value == value,
            r.mutable == (mutable matches Some(true)),
    {
        Global { value: *value, mutable: matches!(mutable, Some(true)) }
    }

    /// The global's type descriptor.
    pub fn ty(&self) -> (r: GlobalType)
        ensures
            r.ty == self.value.spec_ty(),
            r.mutable == self.mutable,
    {
        GlobalType { ty: self.value.ty(), mutable: self.mutable }
    }

    /// The stored value, lowered to a host value through the codec.
    pub fn get_value(&self) -> (r: Result<HostValue, ConversionError>)
        ensures
            r == spec_wasm_to_host(self.value),
    {
        wasm_to_host(&self.value)
    }

    /// Replaces the stored value with a host value converted at the
    /// global's own type.  An immutable global rejects every write; a value
    /// the codec rejects changes nothing.
    pub fn set_value(&mut self, new_value: &HostValue) -> (r: Result<(), GlobalError>)
        ensures
            final(self).mutable == old(self).mutable,
            r is Err ==> *final(self) == *old(self),
            !old(self).mutable ==> (r matches Err(e) && e is Immutable),
            old(self).mutable ==> (match spec_host_to_wasm(*new_value, old(self).value.spec_ty()) {
                Ok(w) => r is Ok && final(self).value == w,
                Err(e0) => r matches Err(e) && e == GlobalError::Conversion(e0),
            }),
    {
        if !self.mutable {
            return Err(GlobalError::Immutable);
        }
        match host_to_wasm(new_value, self.value.ty()) {
            Ok(w) => {
                self.value = w;
                Ok(())
            },
            Err(e) => Err(GlobalError::Conversion(e)),
        }
    }
}

} // verus!
