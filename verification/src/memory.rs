//! A linear memory: a page-structured, growable byte region.
//!
//! The memory's length is always a whole number of pages, never shrinks,
//! and never exceeds its declared maximum nor the architectural page limit.
//! Growing appends zeroed pages and returns the previous page count;
//! everything that reads the memory re-derives the current length from the
//! live value, so a view built before a `grow` sees the grown memory.

use crate::errors::MemoryError;
use crate::types::MemoryType;
use vstd::prelude::*;

verus! {

/// The size of one WebAssembly page, in bytes.
pub const PAGE_BYTES: usize = 65536;

/// The architectural limit on a memory's page count.
pub const MAX_PAGES: u32 = 65536;

/// A linear memory instance.
#[derive(Debug)]
pub struct Memory {
    /// The backing bytes; always a whole number of pages.
    pub data: Vec<u8>,

    /// The minimum page count the memory was created with.
    pub minimum: u32,

    /// The page count the memory may never exceed, if bounded.
    pub maximum: Option<u32>,

    /// Whether the memory may be shared between host threads.
    pub shared: bool,
}

impl Memory {
    /// The page count the memory can grow to and never beyond: the declared
    /// maximum, capped by the architectural limit.
    pub open spec fn spec_limit(&self) -> int {
        match self.maximum {
            Some(m) => if m <= MAX_PAGES {
                m as int
            } else {
                MAX_PAGES as int
            },
            None => MAX_PAGES as int,
        }
    }

    /// The current page count.
    pub open spec fn spec_pages(&self) -> int {
        (self.data@.len() as int) / (PAGE_BYTES as int)
    }

    /// Structural soundness: a whole number of pages, at least the minimum,
    /// at most the limit.
    pub open spec fn wf(&self) -> bool {
        &&& (self.data@.len() as int) % (PAGE_BYTES as int) == 0
        &&& self.minimum <= self.spec_pages() <= self.spec_limit()
    }

    /// Creates a memory of `minimum` zeroed pages.  A minimum above the
    /// declared maximum, or above the architectural limit, is rejected.
    pub fn new(ty: &MemoryType) -> (r: Result<Memory, MemoryError>)
        ensures
            match r {
                Ok(m) => {
                    &&& m.wf()
                    &&& m.minimum == ty.minimum
                    &&& m.maximum == ty.maximum
                    &&& m.shared == ty.shared
                    &&& m.spec_pages() == ty.minimum
                    &&& m.data@ =~= Seq::new((ty.minimum * PAGE_BYTES) as nat, |i: int| 0u8)
                },
                Err(e) => {
                    &&& (match ty.maximum {
                        Some(max) => ty.minimum > max || ty.minimum > MAX_PAGES,
                        None => ty.minimum > MAX_PAGES,
                    })
                    &&& e is MinimumTooLarge
                },
            },
            r is Err <==> (match ty.maximum {
                Some(max) => ty.minimum > max || ty.minimum > MAX_PAGES,
                None => ty.minimum > MAX_PAGES,
            }),
    {
        if let Some(max) = ty.maximum {
            if ty.minimum > max {
                return Err(MemoryError::MinimumTooLarge { minimum: ty.minimum, maximum: max });
            }
        }
        if ty.minimum > MAX_PAGES {
            return Err(MemoryError::MinimumTooLarge { minimum: ty.minimum, maximum: MAX_PAGES });
        }
        proof {
            assert(ty.minimum * PAGE_BYTES <= MAX_PAGES * (PAGE_BYTES as int)) by (nonlinear_arith)
                requires
                    ty.minimum <= MAX_PAGES,
            ;
        }
        let byte_len: u64 = (ty.minimum as u64) * (PAGE_BYTES as u64);
        let mut data: Vec<u8> = Vec::new();
        let mut filled: u64 = 0;
        while filled < byte_len
            invariant
                filled <= byte_len,
                data@ =~= Seq::new(filled as nat, |i: int| 0u8),
            decreases byte_len - filled,
        {
            data.push(0u8);
            filled = filled + 1;
        }
        let m = Memory { data, minimum: ty.minimum, maximum: ty.maximum, shared: ty.shared };
        proof {
            assert(m.data@.len() == ty.minimum * PAGE_BYTES);
            assert((ty.minimum * PAGE_BYTES) % (PAGE_BYTES as int) == 0) by (nonlinear_arith);
            assert((m.data@.len() as int) / (PAGE_BYTES as int) == ty.minimum) by (nonlinear_arith)
                requires
                    m.data@.len() == ty.minimum * PAGE_BYTES,
            ;
        }
        Ok(m)
    }

    /// The current size of the memory, in pages.
    pub fn size(&self) -> (r: u32)
        requires
            self.wf(),
        ensures
            r == self.spec_pages(),
    {
        proof {
            assert(self.spec_pages() * (PAGE_BYTES as int) == self.data@.len()) by (
            nonlinear_arith)
                requires
                    (self.data@.len() as int) % (PAGE_BYTES as int) == 0,
                    self.spec_pages() == (self.data@.len() as int) / (PAGE_BYTES as int),
            ;
            assert(self.spec_pages() <= MAX_PAGES);
        }
        (self.data.len() / PAGE_BYTES) as u32
    }

    /// The current size of the memory, in bytes.
    pub fn data_size(&self) -> (r: u64)
        requires
            self.wf(),
        ensures
            r == self.data@.len(),
    {
        proof {
            assert(self.spec_pages() * (PAGE_BYTES as int) == self.data@.len()) by (
            nonlinear_arith)
                requires
                    (self.data@.len() as int) % (PAGE_BYTES as int) == 0,
                    self.spec_pages() == (self.data@.len() as int) / (PAGE_BYTES as int),
            ;
            assert(self.spec_pages() <= MAX_PAGES);
            assert(self.spec_pages() * (PAGE_BYTES as int) <= MAX_PAGES * (PAGE_BYTES as int))
                by (nonlinear_arith)
                requires
                    self.spec_pages() <= MAX_PAGES,
            ;
        }
        self.data.len() as u64
    }

    /// Grows the memory by `delta` zeroed pages and returns the previous
    /// page count.  Growing beyond the maximum, or beyond the architectural
    /// limit, fails and leaves the memory untouched.
    pub fn grow(&mut self, delta: u32) -> (r: Result<u32, MemoryError>)
        requires
            old(self).wf(),
        ensures
            final(self).wf(),
            final(self).minimum == old(self).minimum,
            final(self).maximum == old(self).maximum,
            final(self).shared == old(self).shared,
            r is Ok <==> old(self).spec_pages() + delta <= old(self).spec_limit(),
            match r {
                Ok(previous) => {
                    &&& previous == old(self).spec_pages()
                    &&& final(self).spec_pages() == old(self).spec_pages() + delta
                    &&& final(self).data@ =~= old(self).data@ + Seq::new(
                        (delta * PAGE_BYTES) as nat,
                        |i: int| 0u8,
                    )
                },
                Err(e) => {
                    &&& *final(self) == *old(self)
                    &&& e == (MemoryError::GrowBeyondMaximum {
                        requested: delta,
                        maximum: old(self).spec_limit() as u32,
                    })
                },
            },
    {
        let previous = self.size();
        let limit: u32 = match self.maximum {
            Some(m) => if m <= MAX_PAGES {
                m
            } else {
                MAX_PAGES
            },
            None => MAX_PAGES,
        };
        if delta > limit - previous {
            return Err(MemoryError::GrowBeyondMaximum { requested: delta, maximum: limit });
        }
        let ghost pre = self.data@;
        proof {
            assert(delta * PAGE_BYTES <= MAX_PAGES * (PAGE_BYTES as int)) by (nonlinear_arith)
                requires
                    delta <= MAX_PAGES,
            ;
        }
        let added: u64 = (delta as u64) * (PAGE_BYTES as u64);
        let mut appended: u64 = 0;
        while appended < added
            invariant
                appended <= added,
                self.data@ =~= pre + Seq::new(appended as nat, |i: int| 0u8),
                self.minimum == old(self).minimum,
                self.maximum == old(self).maximum,
                self.shared == old(self).shared,
            decreases added - appended,
        {
            self.data.push(0u8);
            appended = appended + 1;
        }
        proof {
            assert(self.data@.len() == pre.len() + delta * PAGE_BYTES);
            assert(((pre.len() + delta * PAGE_BYTES) as int) % (PAGE_BYTES as int) == 0
                && ((pre.len() + delta * PAGE_BYTES) as int) / (PAGE_BYTES as int) == (pre.len() as int) / (
            PAGE_BYTES as int) + delta) by (nonlinear_arith)
                requires
                    (pre.len() as int) % (PAGE_BYTES as int) == 0,
            ;
        }
        Ok(previous)
    }
}

} // verus!
