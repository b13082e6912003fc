//! The host interpreter's dynamic values, as this layer reads them.
//!
//! The embedder owns the real host objects; before a value crosses into this
//! layer the embedder reduces it to the plain shape below, and what comes
//! back it lifts again.  Integers are modeled in sign-and-magnitude form
//! because the host's integers are wider than any machine word; floats are
//! carried as their IEEE-754 bit patterns, tagged with their width.

use vstd::prelude::*;

verus! {

/// A host dynamic value, reduced to what the scalar codec reads.
#[derive(Clone, Copy, Debug, PartialEq, Eq, Structural)]
pub enum HostValue {
    /// A host integer: `magnitude` negated when `negative` is set.  A
    /// well-formed value never carries a negative zero.
    Int { negative: bool, magnitude: u128 },

    /// A host single-precision float, as its bit pattern.
    Float32 { bits: u32 },

    /// A host double-precision float, as its bit pattern.
    Float64 { bits: u64 },

    /// Any other host object: not numeric, so never convertible by the
    /// scalar codec.
    Other,
}

impl HostValue {
    /// No negative zero: the host's integers have a single zero.
    pub open spec fn wf(&self) -> bool {
        self matches HostValue::Int { negative, magnitude } ==> (*negative ==> *magnitude > 0)
    }

    /// The mathematical value of an integer host value.
    pub open spec fn int_value(&self) -> int
        recommends
            self is Int,
    {
        if self->negative {
            -(self->magnitude as int)
        } else {
            self->magnitude as int
        }
    }

    /// Builds a host integer from a sign and a magnitude, normalizing a
    /// negative zero.
    pub fn from_sign_magnitude(negative: bool, magnitude: u128) -> (r: HostValue)
        ensures
            r.wf(),
            r is Int,
            r.int_value() == if negative { -(magnitude as int) } else { magnitude as int },
    {
        if magnitude == 0 {
            HostValue::Int { negative: false, magnitude: 0 }
        } else {
            HostValue::Int { negative, magnitude }
        }
    }

    /// A host integer with the value of an unsigned machine word.
    pub fn from_u128(value: u128) -> (r: HostValue)
        ensures
            r.wf(),
            r is Int,
            r.int_value() == value,
    {
        HostValue::Int { negative: false, magnitude: value }
    }

    /// A host integer with the value of a signed machine word.
    pub fn from_i64(value: i64) -> (r: HostValue)
        ensures
            r.wf(),
            r is Int,
            r.int_value() == value,
    {
        if value < 0 {
            if value == i64::MIN {
                HostValue::Int { negative: true, magnitude: 0x8000_0000_0000_0000 }
            } else {
                HostValue::Int { negative: true, magnitude: (-value) as u128 }
            }
        } else {
            HostValue::Int { negative: false, magnitude: value as u128 }
        }
    }
}

/// What a host callable handed back: nothing, one value, or a
/// sequence/tuple of values.
#[derive(Debug, PartialEq, Eq)]
pub enum HostReturn {
    /// The callable returned no value.
    Void,

    /// The callable returned a single value.
    Single(HostValue),

    /// The callable returned a tuple or sequence of values, in order.
    Many(Vec<HostValue>),
}

impl HostReturn {
    /// Every value carried is well formed.
    pub open spec fn wf(&self) -> bool {
        match self {
            HostReturn::Void => true,
            HostReturn::Single(v) => v.wf(),
            HostReturn::Many(vs) => forall|i: int| 0 <= i < vs@.len() ==> #[trigger] vs@[i].wf(),
        }
    }
}

/// A host-level exception, reduced to its description.
#[derive(Debug)]
pub struct HostError {
    /// The host's rendering of the exception.
    pub message: String,
}

/// The host interpreter's global execution lock, modeled by its re-entrant
/// acquisition depth.  The trampoline acquires it before touching any host
/// object and releases it on every exit path.
#[derive(Debug)]
pub struct InterpreterLock {
    /// How many scoped acquisitions are currently outstanding.
    pub depth: u64,
}

impl InterpreterLock {
    /// A lock no one holds.
    pub fn new() -> (r: InterpreterLock)
        ensures
            r.depth == 0,
    {
        InterpreterLock { depth: 0 }
    }

    /// One scoped acquisition; re-entrant, so a holder may acquire again.
    pub fn acquire(&mut self)
        requires
            old(self).depth < u64::MAX,
        ensures
            final(self).depth == old(self).depth + 1,
    {
        self.depth = self.depth + 1;
    }

    /// Releases the innermost outstanding acquisition.
    pub fn release(&mut self)
        requires
            old(self).depth > 0,
        ensures
            final(self).depth == old(self).depth - 1,
    {
        self.depth = self.depth - 1;
    }

    /// Whether any acquisition is outstanding.
    pub fn is_held(&self) -> (r: bool)
        ensures
            r == (self.depth > 0),
    {
        self.depth > 0
    }
}

} // verus!
