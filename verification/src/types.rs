//! Type descriptors: WebAssembly value types and the types of functions,
//! memories, globals and tables.

use vstd::prelude::*;

verus! {

/// A WebAssembly value type.  This closed enumeration describes function
/// signatures and drives the scalar value codec.
#[derive(Clone, Copy, Debug, PartialEq, Eq, Structural)]
pub enum Type {
    I32,
    I64,
    F32,
    F64,
    V128,
    ExternRef,
    FuncRef,
}

impl Type {
    /// True for the numeric types the scalar codec converts; the reference
    /// types are carried opaquely and never converted.
    pub open spec fn spec_is_scalar(&self) -> bool {
        !(self is ExternRef || self is FuncRef)
    }

    #[verifier::when_used_as_spec(spec_is_scalar)]
    pub fn is_scalar(&self) -> (r: bool)
        ensures
            r == self.spec_is_scalar(),
    {
        match self {
            Type::ExternRef | Type::FuncRef => false,
            _ => true,
        }
    }

    /// The numeric tag under which a type crosses the host boundary.
    pub open spec fn spec_tag(&self) -> u8 {
        match self {
            Type::I32 => 1,
            Type::I64 => 2,
            Type::F32 => 3,
            Type::F64 => 4,
            Type::V128 => 5,
            Type::ExternRef => 6,
            Type::FuncRef => 7,
        }
    }

    #[verifier::when_used_as_spec(spec_tag)]
    pub fn tag(&self) -> (r: u8)
        ensures
            r == self.spec_tag(),
    {
        match self {
            Type::I32 => 1,
            Type::I64 => 2,
            Type::F32 => 3,
            Type::F64 => 4,
            Type::V128 => 5,
            Type::ExternRef => 6,
            Type::FuncRef => 7,
        }
    }

    /// Decodes a tag coming from the host; every tag outside the table is
    /// rejected.
    pub fn from_tag(tag: u8) -> (r: Option<Type>)
        ensures
            match r {
                Some(t) => t.spec_tag() == tag,
                None => !(1 <= tag <= 7),
            },
    {
        match tag {
            1 => Some(Type::I32),
            2 => Some(Type::I64),
            3 => Some(Type::F32),
            4 => Some(Type::F64),
            5 => Some(Type::V128),
            6 => Some(Type::ExternRef),
            7 => Some(Type::FuncRef),
            _ => None,
        }
    }

    /// The name under which a type is shown to the host.
    pub open spec fn spec_name(self) -> Seq<char> {
        match self {
            Type::I32 => "I32"@,
            Type::I64 => "I64"@,
            Type::F32 => "F32"@,
            Type::F64 => "F64"@,
            Type::V128 => "V128"@,
            Type::ExternRef => "EXTERN_REF"@,
            Type::FuncRef => "FUNC_REF"@,
        }
    }

    pub fn name(&self) -> (r: &'static str)
        ensures
            r@ == self.spec_name(),
    {
        match self {
            Type::I32 => "I32",
            Type::I64 => "I64",
            Type::F32 => "F32",
            Type::F64 => "F64",
            Type::V128 => "V128",
            Type::ExternRef => "EXTERN_REF",
            Type::FuncRef => "FUNC_REF",
        }
    }

    /// Every type, in declaration order.
    pub fn iter() -> (r: Vec<Type>)
        ensures
            r@ =~= seq![
                Type::I32,
                Type::I64,
                Type::F32,
                Type::F64,
                Type::V128,
                Type::ExternRef,
                Type::FuncRef,
            ],
    {
        let mut v: Vec<Type> = Vec::new();
        v.push(Type::I32);
        v.push(Type::I64);
        v.push(Type::F32);
        v.push(Type::F64);
        v.push(Type::V128);
        v.push(Type::ExternRef);
        v.push(Type::FuncRef);
        v
    }
}

/// Copies a list of value types.
pub fn copy_types(v: &Vec<Type>) -> (r: Vec<Type>)
    ensures
        r@ == v@,
{
    let mut out: Vec<Type> = Vec::new();
    let mut i: usize = 0;
    while i < v.len()
        invariant
            i <= v.len(),
            out@ == v@.subrange(0, i as int),
        decreases v.len() - i,
    {
        out.push(v[i]);
        i = i + 1;
    }
    assert(out@ =~= v@);
    out
}

/// The signature of a function: ordered parameter types and ordered result
/// types.  Built once at construction time and immutable afterwards.
#[derive(Debug, PartialEq, Eq)]
pub struct FunctionType {
    /// Parameters, i.e. inputs, of the function.
    pub params: Vec<Type>,

    /// Results, i.e. outputs, of the function.
    pub results: Vec<Type>,
}

impl FunctionType {
    pub fn new(params: Vec<Type>, results: Vec<Type>) -> (r: FunctionType)
        ensures
            r.params == params,
            r.results == results,
    {
        FunctionType { params, results }
    }

    /// A fresh copy with the same parameter and result types.
    pub fn duplicate(&self) -> (r: FunctionType)
        ensures
            r.params@ == self.params@,
            r.results@ == self.results@,
    {
        FunctionType { params: copy_types(&self.params), results: copy_types(&self.results) }
    }
}

/// A descriptor for a linear memory, in units of pages.
#[derive(Clone, Copy, Debug)]
pub struct MemoryType {
    /// The minimum number of pages in the memory.
    pub minimum: u32,

    /// The maximum number of pages in the memory, if bounded.
    pub maximum: Option<u32>,

    /// Whether the memory may be shared between host threads.
    pub shared: bool,
}

impl MemoryType {
    pub fn new(minimum: u32, maximum: Option<u32>, shared: bool) -> (r: MemoryType)
        ensures
            r.minimum == minimum,
            r.maximum == maximum,
            r.shared == shared,
    {
        MemoryType { minimum, maximum, shared }
    }
}

/// A descriptor for a global: the type of the stored value and whether the
/// value may change at runtime.
#[derive(Clone, Copy, Debug)]
pub struct GlobalType {
    /// The type of the value stored in the global.
    pub ty: Type,

    /// Whether the value may change at runtime.
    pub mutable: bool,
}

impl GlobalType {
    pub fn new(ty: Type, mutable: bool) -> (r: GlobalType)
        ensures
            r.ty == ty,
            r.mutable == mutable,
    {
        GlobalType { ty, mutable }
    }
}

/// A descriptor for a table of elements, typically function references.
#[derive(Clone, Copy, Debug)]
pub struct TableType {
    /// The type of the elements stored in the table.
    pub ty: Type,

    /// The minimum number of elements in the table.
    pub minimum: u32,

    /// The maximum number of elements in the table, if bounded.
    pub maximum: Option<u32>,
}

impl TableType {
    pub fn new(ty: Type, minimum: u32, maximum: Option<u32>) -> (r: TableType)
        ensures
            r.ty == ty,
            r.minimum == minimum,
            r.maximum == maximum,
    {
        TableType { ty, minimum, maximum }
    }
}

} // verus!
