//! Typed, bounds-checked views over a linear memory.
//!
//! A view is a (element type, element offset) pair; it holds no pointer and
//! no length.  Every access takes the live memory and re-derives the
//! current length from it, so a view built before a `grow` sees the grown
//! memory.  Single-index reads and writes are bounds-checked; slice access
//! resolves the host's `(start, stop, step)` form with clamping against the
//! current length, rejects empty slices and non-positive steps, and writes
//! atomically: a rejected slice write modifies nothing.

use crate::bytes::{le_val, lemma_le_val_bound, lemma_pow256_increases, pow256, read_le, write_le};
use crate::errors::BoundsError;
use crate::memory::Memory;
use vstd::prelude::*;

verus! {

/// The element type of a memory view, fixing the width and the reading of
/// each element.  Float elements are read and written as bit patterns.
#[derive(Clone, Copy, Debug, PartialEq, Eq, Structural)]
pub enum ElementType {
    Uint8,
    Int8,
    Uint16,
    Int16,
    Uint32,
    Int32,
    Uint64,
    Int64,
    Float32,
    Float64,
}

impl ElementType {
    /// The width of one element, in bytes.
    pub open spec fn spec_width(&self) -> int {
        match self {
            ElementType::Uint8 | ElementType::Int8 => 1,
            ElementType::Uint16 | ElementType::Int16 => 2,
            ElementType::Uint32 | ElementType::Int32 | ElementType::Float32 => 4,
            ElementType::Uint64 | ElementType::Int64 | ElementType::Float64 => 8,
        }
    }

    pub fn width(&self) -> (r: usize)
        ensures
            r == self.spec_width(),
            1 <= r <= 8,
    {
        match self {
            ElementType::Uint8 | ElementType::Int8 => 1,
            ElementType::Uint16 | ElementType::Int16 => 2,
            ElementType::Uint32 | ElementType::Int32 | ElementType::Float32 => 4,
            ElementType::Uint64 | ElementType::Int64 | ElementType::Float64 => 8,
        }
    }

    /// Whether elements are read as two's-complement signed integers.
    pub open spec fn spec_signed(&self) -> bool {
        match self {
            ElementType::Int8 | ElementType::Int16 | ElementType::Int32 | ElementType::Int64
                => true,
            _ => false,
        }
    }

    #[verifier::when_used_as_spec(spec_signed)]
    pub fn signed(&self) -> (r: bool)
        ensures
            r == self.spec_signed(),
    {
        match self {
            ElementType::Int8 | ElementType::Int16 | ElementType::Int32 | ElementType::Int64
                => true,
            _ => false,
        }
    }

    /// The values one element can hold: the signed or unsigned range of the
    /// element's width, bit patterns for the float widths.
    pub open spec fn spec_in_range(&self, v: int) -> bool {
        let full = pow256(self.spec_width() as nat);
        if self.spec_signed() {
            -(full / 2) <= v < full / 2
        } else {
            0 <= v < full
        }
    }

    /// The unsigned bit pattern stored for an in-range value.
    pub open spec fn spec_to_bits(&self, v: int) -> int
        recommends
            self.spec_in_range(v),
    {
        if v < 0 {
            v + pow256(self.spec_width() as nat)
        } else {
            v
        }
    }

    /// The value read back from a stored bit pattern.
    pub open spec fn spec_from_bits(&self, raw: int) -> int
        recommends
            0 <= raw < pow256(self.spec_width() as nat),
    {
        let full = pow256(self.spec_width() as nat);
        if self.spec_signed() && raw >= full / 2 {
            raw - full
        } else {
            raw
        }
    }

    /// Storing an in-range value and reading it back is the identity.
    pub proof fn lemma_bits_roundtrip(&self, v: int)
        requires
            self.spec_in_range(v),
        ensures
            0 <= self.spec_to_bits(v) < pow256(self.spec_width() as nat),
            self.spec_from_bits(self.spec_to_bits(v)) == v,
    {
        reveal_with_fuel(pow256, 9);
    }

    /// The number of values one element can hold.
    fn full_range(&self) -> (r: u128)
        ensures
            r == pow256(self.spec_width() as nat),
    {
        proof {
            reveal_with_fuel(pow256, 9);
        }
        match self.width() {
            1 => 0x100,
            2 => 0x1_0000,
            4 => 0x1_0000_0000,
            _ => 0x1_0000_0000_0000_0000,
        }
    }

    /// Whether `v` fits one element of this type.
    pub fn in_range(&self, v: i128) -> (r: bool)
        ensures
            r == self.spec_in_range(v as int),
    {
        let full = self.full_range();
        if self.signed() {
            let half = (full / 2) as i128;
            -half <= v && v < half
        } else {
            0 <= v && (v as u128) < full
        }
    }
}

/// A read-write view over the data of a memory: an element type and an
/// element offset from the start of the memory.  It holds no pointer and no
/// length; every access re-derives both from the live memory it is given.
#[derive(Clone, Copy, Debug)]
pub struct MemoryView {
    /// The element type, fixing the per-element byte stride.
    pub elem: ElementType,

    /// The element offset from the start of the memory.
    pub offset: usize,
}

impl MemoryView {
    /// The view's length against the given memory: how many whole elements
    /// lie at or after the offset, right now.
    pub open spec fn spec_len(&self, mem: &Memory) -> int {
        let count = (mem.data@.len() as int) / self.elem.spec_width();
        if self.offset <= count {
            count - self.offset
        } else {
            0
        }
    }

    /// The byte address of the element at view index `i`.
    pub open spec fn spec_addr(&self, i: int) -> int {
        (self.offset + i) * self.elem.spec_width()
    }

    /// The stored bit pattern of the element at view index `i`.
    pub open spec fn spec_raw(&self, mem: &Memory, i: int) -> int {
        le_val(mem.data@.subrange(self.spec_addr(i), self.spec_addr(i) + self.elem.spec_width()))
            as int
    }

    /// The value of the element at view index `i`.
    pub open spec fn spec_get(&self, mem: &Memory, i: int) -> int {
        self.elem.spec_from_bits(self.spec_raw(mem, i))
    }

    /// In-bounds elements lie wholly inside the memory.
    proof fn lemma_addr_in_bounds(&self, mem: &Memory, i: int)
        requires
            0 <= i < self.spec_len(mem),
        ensures
            0 <= self.spec_addr(i),
            self.spec_addr(i) + self.elem.spec_width() <= mem.data@.len(),
            self.offset + i <= mem.data@.len(),
    {
        let w = self.elem.spec_width();
        let len = mem.data@.len() as int;
        assert(0 <= self.spec_addr(i) && self.spec_addr(i) + w <= len && self.offset + i <= len)
            by (nonlinear_arith)
            requires
                1 <= w,
                0 <= i,
                0 <= self.offset,
                self.offset + i < len / w,
                self.spec_addr(i) == (self.offset + i) * w,
                len >= 0,
        ;
    }

    /// The bytes per element of this view.
    pub fn bytes_per_element(&self) -> (r: u8)
        ensures
            r == self.elem.spec_width(),
    {
        self.elem.width() as u8
    }

    /// The current length of the view, re-read from the live memory.
    pub fn len(&self, mem: &Memory) -> (r: usize)
        ensures
            r == self.spec_len(mem),
    {
        let w = self.elem.width();
        let count = mem.data.len() / w;
        if self.offset <= count {
            count - self.offset
        } else {
            0
        }
    }

    /// Reads the element at `index`.  The read succeeds exactly when
    /// `index` is below the view's current length; otherwise the error
    /// names the offending index and the current length.
    pub fn get(&self, mem: &Memory, index: usize) -> (r: Result<i128, BoundsError>)
        ensures
            r is Ok <==> index < self.spec_len(mem),
            r matches Ok(v) ==> v == self.spec_get(mem, index as int) && self.elem.spec_in_range(
                v as int,
            ),
            r matches Err(e) ==> e == (BoundsError::IndexOutOfBounds {
                index,
                length: self.spec_len(mem) as usize,
            }),
    {
        let n = self.len(mem);
        if index >= n {
            return Err(BoundsError::IndexOutOfBounds { index, length: n });
        }
        let w = self.elem.width();
        // Binds the memory's exact byte length as a machine word, which the
        // address computation below needs to stay in bounds.
        let byte_len = mem.data.len();
        proof {
            self.lemma_addr_in_bounds(mem, index as int);
            assert(self.spec_addr(index as int) == (self.offset + index) * w);
        }
        let addr = (self.offset + index) * w;
        let raw = read_le(&mem.data, addr, w);
        let full = self.elem.full_range();
        let half = full / 2;
        let value: i128 = if self.elem.signed() && (raw as u128) >= half {
            raw as i128 - full as i128
        } else {
            raw as i128
        };
        proof {
            lemma_le_val_bound(
                mem.data@.subrange(self.spec_addr(index as int), self.spec_addr(index as int) + w),
            );
        }
        Ok(value)
    }

    /// Writes `value` to the element at `index`.  The write succeeds
    /// exactly when the index is in bounds and the value fits the element
    /// type; any failure leaves the memory untouched.
    pub fn set(&self, mem: &mut Memory, index: usize, value: i128) -> (r: Result<
        (),
        BoundsError,
    >)
        ensures
            final(mem).minimum == old(mem).minimum,
            final(mem).maximum == old(mem).maximum,
            final(mem).shared == old(mem).shared,
            final(mem).data@.len() == old(mem).data@.len(),
            old(mem).wf() ==> final(mem).wf(),
            r is Ok <==> (index < self.spec_len(old(mem)) && self.elem.spec_in_range(
                value as int,
            )),
            r is Err ==> *final(mem) == *old(mem),
            r matches Err(e) ==> e == (if index >= self.spec_len(old(mem)) {
                BoundsError::IndexOutOfBounds {
                    index,
                    length: self.spec_len(old(mem)) as usize,
                }
            } else {
                BoundsError::ValueOutOfRange { position: index }
            }),
            r is Ok ==> {
                &&& forall|k: int|
                    0 <= k < old(mem).data@.len() && !(self.spec_addr(index as int) <= k < self.spec_addr(
                        index as int,
                    ) + self.elem.spec_width()) ==> final(mem).data@[k] == old(mem).data@[k]
                &&& self.spec_raw(final(mem), index as int) == self.elem.spec_to_bits(value as int)
                &&& self.spec_get(final(mem), index as int) == value
                &&& self.spec_len(final(mem)) == self.spec_len(old(mem))
            },
    {
        let n = self.len(mem);
        if index >= n {
            return Err(BoundsError::IndexOutOfBounds { index, length: n });
        }
        if !self.elem.in_range(value) {
            return Err(BoundsError::ValueOutOfRange { position: index });
        }
        let w = self.elem.width();
        // Binds the memory's exact byte length as a machine word, which the
        // address computation below needs to stay in bounds.
        let byte_len = mem.data.len();
        proof {
            self.lemma_addr_in_bounds(mem, index as int);
            self.elem.lemma_bits_roundtrip(value as int);
            lemma_pow256_increases(self.elem.spec_width() as nat, 8);
            reveal_with_fuel(pow256, 9);
            assert(self.spec_addr(index as int) == (self.offset + index) * w);
        }
        let full = self.elem.full_range();
        let bits: u64 = if value < 0 {
            (value + full as i128) as u64
        } else {
            value as u64
        };
        let addr = (self.offset + index) * w;
        proof {
            assert(addr == self.spec_addr(index as int));
            assert(bits as int == self.elem.spec_to_bits(value as int));
        }
        write_le(&mut mem.data, addr, w, bits);
        Ok(())
    }
}

/// A host slice expression: optional start, stop and step, resolved with
/// the host's clamping rules against the view's current length.
#[derive(Clone, Copy, Debug)]
pub struct SliceExpr {
    /// The slice's start, counted from the end when negative.
    pub start: Option<i64>,

    /// The slice's stop, counted from the end when negative.
    pub stop: Option<i64>,

    /// The slice's step; only positive steps are accepted.
    pub step: Option<i64>,
}

/// Clamps a possibly negative slice bound against length `n`: a negative
/// bound counts from the end, and everything is clipped to `[0, n]`.
pub open spec fn spec_clamp(x: int, n: int) -> int {
    if x < 0 {
        if n + x < 0 {
            0
        } else {
            n + x
        }
    } else if x > n {
        n
    } else {
        x
    }
}

/// The slice's step; one when absent.
pub open spec fn spec_slice_step(s: SliceExpr) -> int {
    match s.step {
        None => 1,
        Some(x) => x as int,
    }
}

/// The slice's clamped start; zero when absent.
pub open spec fn spec_slice_start(s: SliceExpr, n: int) -> int {
    match s.start {
        None => 0,
        Some(x) => spec_clamp(x as int, n),
    }
}

/// The slice's clamped stop; the length when absent.
pub open spec fn spec_slice_stop(s: SliceExpr, n: int) -> int {
    match s.stop {
        None => n,
        Some(x) => spec_clamp(x as int, n),
    }
}

/// How many positions a resolved `(start, stop, step)` slice selects.
pub open spec fn spec_slice_count(start: int, stop: int, step: int) -> int
    recommends
        step >= 1,
{
    if start >= stop {
        0
    } else {
        (stop - start - 1) / step + 1
    }
}

/// Every selected position lies below `stop`.
proof fn lemma_stride_below_stop(start: int, stop: int, step: int, k: int)
    requires
        step >= 1,
        start < stop,
        0 <= k < spec_slice_count(start, stop, step),
    ensures
        start <= start + k * step < stop,
{
    assert(start <= start + k * step < stop) by (nonlinear_arith)
        requires
            step >= 1,
            start < stop,
            0 <= k,
            k <= (stop - start - 1) / step,
    ;
}

/// Selected positions strictly increase with the selection index.
proof fn lemma_stride_increases(start: int, step: int, j: int, k: int)
    requires
        step >= 1,
        0 <= j < k,
    ensures
        start + j * step + 1 <= start + k * step,
{
    assert(j * step + 1 <= k * step) by (nonlinear_arith)
        requires
            step >= 1,
            0 <= j < k,
    ;
}

/// Resolves a host slice against the given length: the step must be
/// positive and the clamped range must be non-empty.
pub fn resolve_slice(s: &SliceExpr, length: usize) -> (r: Result<
    (usize, usize, u64),
    BoundsError,
>)
    requires
        length <= 0x7FFF_FFFF_FFFF_FFFF,
    ensures
        ({
            let step = spec_slice_step(*s);
            let start = spec_slice_start(*s, length as int);
            let stop = spec_slice_stop(*s, length as int);
            match r {
                Ok(t) => {
                    &&& step >= 1
                    &&& start < stop
                    &&& t.0 == start
                    &&& t.1 == stop
                    &&& t.2 == step
                    &&& 1 <= t.2
                    &&& t.0 < t.1
                    &&& t.1 <= length
                },
                Err(e) => {
                    if step < 1 {
                        e == (BoundsError::NonPositiveStep { step: step as i64 })
                    } else {
                        start >= stop && e == (BoundsError::EmptySlice {
                            start: start as usize,
                            stop: stop as usize,
                        })
                    }
                },
            }
        }),
{
    let step: i64 = match s.step {
        Some(x) => x,
        None => 1,
    };
    if step < 1 {
        return Err(BoundsError::NonPositiveStep { step });
    }
    let n: i64 = length as i64;
    let start: i64 = match s.start {
        Some(x) => if x < 0 {
            if n + x < 0 {
                0
            } else {
                n + x
            }
        } else if x > n {
            n
        } else {
            x
        },
        None => 0,
    };
    let stop: i64 = match s.stop {
        Some(x) => if x < 0 {
            if n + x < 0 {
                0
            } else {
                n + x
            }
        } else if x > n {
            n
        } else {
            x
        },
        None => n,
    };
    if start >= stop {
        return Err(BoundsError::EmptySlice { start: start as usize, stop: stop as usize });
    }
    Ok((start as usize, stop as usize, step as u64))
}

impl MemoryView {
    /// Whether byte `b` of the memory falls inside one of the elements a
    /// resolved slice of this view selects.
    pub open spec fn spec_in_stride(&self, start: int, count: int, step: int, b: int) -> bool {
        exists|k: int|
            0 <= k < count && (#[trigger] self.spec_addr(start + k * step)) <= b < self.spec_addr(
                start + k * step,
            ) + self.elem.spec_width()
    }

    /// The view's length fits a host index.
    proof fn lemma_len_small(&self, mem: &Memory)
        requires
            mem.wf(),
        ensures
            self.spec_len(mem) <= 0x1_0000_0000,
    {
        let w = self.elem.spec_width();
        let len = mem.data@.len() as int;
        assert(len <= 0x1_0000_0000) by (nonlinear_arith)
            requires
                mem.spec_pages() == len / 65536,
                len % 65536 == 0,
                mem.spec_pages() <= 65536,
                len >= 0,
        ;
        assert(self.spec_len(mem) <= len) by (nonlinear_arith)
            requires
                w >= 1,
                len >= 0,
                self.spec_len(mem) <= len / w,
        ;
    }

    /// Reads every element a slice selects, in order.  The slice is
    /// resolved against the view's current length; a non-positive step and
    /// an empty slice are rejected.
    pub fn get_slice(&self, mem: &Memory, s: &SliceExpr) -> (r: Result<Vec<i128>, BoundsError>)
        requires
            mem.wf(),
        ensures
            ({
                let n = self.spec_len(mem);
                let step = spec_slice_step(*s);
                let start = spec_slice_start(*s, n);
                let stop = spec_slice_stop(*s, n);
                let count = spec_slice_count(start, stop, step);
                match r {
                    Ok(vs) => {
                        &&& step >= 1
                        &&& start < stop
                        &&& vs@.len() == count
                        &&& forall|k: int|
                            0 <= k < count ==> #[trigger] vs@[k] == self.spec_get(
                                mem,
                                start + k * step,
                            )
                    },
                    Err(e) => {
                        if step < 1 {
                            e == (BoundsError::NonPositiveStep { step: step as i64 })
                        } else {
                            start >= stop && e == (BoundsError::EmptySlice {
                                start: start as usize,
                                stop: stop as usize,
                            })
                        }
                    },
                }
            }),
    {
        let n = self.len(mem);
        proof {
            self.lemma_len_small(mem);
        }
        let (start, stop, step) = match resolve_slice(s, n) {
            Ok(t) => t,
            Err(e) => {
                return Err(e);
            },
        };
        let span: usize = stop - start - 1;
        proof {
            assert((span as int) / (step as int) <= span) by (nonlinear_arith)
                requires
                    step >= 1,
                    span >= 0,
            ;
        }
        let count: usize = ((span as u64) / step + 1) as usize;
        proof {
            assert(count as int == spec_slice_count(start as int, stop as int, step as int));
        }
        let mut out: Vec<i128> = Vec::new();
        let mut k: usize = 0;
        while k < count
            invariant
                k <= count,
                step >= 1,
                start < stop,
                stop <= self.spec_len(mem),
                count == spec_slice_count(start as int, stop as int, step as int),
                out@.len() == k,
                forall|j: int|
                    0 <= j < k ==> #[trigger] out@[j] == self.spec_get(
                        mem,
                        start + j * (step as int),
                    ),
            decreases count - k,
        {
            proof {
                lemma_stride_below_stop(start as int, stop as int, step as int, k as int);
            }
            let idx: usize = start + ((k as u64) * step) as usize;
            match self.get(mem, idx) {
                Ok(v) => {
                    out.push(v);
                },
                Err(_) => {
                    proof {
                        assert(false);
                    }
                    return Err(BoundsError::IndexOutOfBounds { index: idx, length: n });
                },
            }
            k = k + 1;
        }
        Ok(out)
    }

    /// Writes every element a slice selects, atomically: the incoming
    /// sequence must have exactly one value per selected position and every
    /// value must fit the element type, or nothing at all is written.
    pub fn set_slice(&self, mem: &mut Memory, s: &SliceExpr, values: &Vec<i128>) -> (r: Result<
        (),
        BoundsError,
    >)
        requires
            old(mem).wf(),
        ensures
            final(mem).wf(),
            final(mem).minimum == old(mem).minimum,
            final(mem).maximum == old(mem).maximum,
            final(mem).shared == old(mem).shared,
            final(mem).data@.len() == old(mem).data@.len(),
            r is Err ==> *final(mem) == *old(mem),
            ({
                let n = self.spec_len(old(mem));
                let step = spec_slice_step(*s);
                let start = spec_slice_start(*s, n);
                let stop = spec_slice_stop(*s, n);
                let count = spec_slice_count(start, stop, step);
                match r {
                    Ok(u) => {
                        &&& step >= 1
                        &&& start < stop
                        &&& values@.len() == count
                        &&& forall|k: int|
                            0 <= k < count ==> #[trigger] self.spec_get(
                                final(mem),
                                start + k * step,
                            ) == values@[k]
                        &&& forall|b: int|
                            0 <= b < old(mem).data@.len() && !self.spec_in_stride(
                                start,
                                count,
                                step,
                                b,
                            ) ==> final(mem).data@[b] == old(mem).data@[b]
                    },
                    Err(e) => {
                        if step < 1 {
                            e == (BoundsError::NonPositiveStep { step: step as i64 })
                        } else if start >= stop {
                            e == (BoundsError::EmptySlice {
                                start: start as usize,
                                stop: stop as usize,
                            })
                        } else if values@.len() != count {
                            e == (BoundsError::LengthMismatch {
                                expected: count as usize,
                                given: values@.len() as usize,
                            })
                        } else {
                            exists|p: int|
                                {
                                    &&& 0 <= p < count
                                    &&& !self.elem.spec_in_range(values@[p] as int)
                                    &&& (forall|q: int|
                                        0 <= q < p ==> self.elem.spec_in_range(
                                            #[trigger] values@[q] as int,
                                        ))
                                    &&& e == (BoundsError::ValueOutOfRange {
                                        position: p as usize,
                                    })
                                }
                        }
                    },
                }
            }),
    {
        let n = self.len(mem);
        proof {
            self.lemma_len_small(mem);
        }
        let (start, stop, step) = match resolve_slice(s, n) {
            Ok(t) => t,
            Err(e) => {
                return Err(e);
            },
        };
        let span: usize = stop - start - 1;
        proof {
            assert((span as int) / (step as int) <= span) by (nonlinear_arith)
                requires
                    step >= 1,
                    span >= 0,
            ;
        }
        let count: usize = ((span as u64) / step + 1) as usize;
        proof {
            assert(count as int == spec_slice_count(start as int, stop as int, step as int));
        }
        if values.len() != count {
            return Err(BoundsError::LengthMismatch { expected: count, given: values.len() });
        }
        let mut p: usize = 0;
        while p < count
            invariant
                p <= count,
                count == values@.len(),
                *mem == *old(mem),
                old(mem).wf(),
                count == spec_slice_count(
                    spec_slice_start(*s, self.spec_len(old(mem))),
                    spec_slice_stop(*s, self.spec_len(old(mem))),
                    spec_slice_step(*s),
                ),
                spec_slice_step(*s) >= 1,
                spec_slice_start(*s, self.spec_len(old(mem))) < spec_slice_stop(
                    *s,
                    self.spec_len(old(mem)),
                ),
                forall|q: int| 0 <= q < p ==> self.elem.spec_in_range(#[trigger] values@[q] as int),
            decreases count - p,
        {
            if !self.elem.in_range(values[p]) {
                return Err(BoundsError::ValueOutOfRange { position: p });
            }
            p = p + 1;
        }
        let ghost pre = *mem;
        let w = self.elem.width();
        let mut k: usize = 0;
        while k < count
            invariant
                k <= count,
                step >= 1,
                start < stop,
                start == spec_slice_start(*s, self.spec_len(&pre)),
                stop == spec_slice_stop(*s, self.spec_len(&pre)),
                step == spec_slice_step(*s),
                stop <= self.spec_len(&pre),
                count == spec_slice_count(start as int, stop as int, step as int),
                count == values@.len(),
                forall|q: int|
                    0 <= q < count ==> self.elem.spec_in_range(#[trigger] values@[q] as int),
                w == self.elem.spec_width(),
                pre == *old(mem),
                pre.wf(),
                mem.minimum == pre.minimum,
                mem.maximum == pre.maximum,
                mem.shared == pre.shared,
                mem.data@.len() == pre.data@.len(),
                forall|j: int|
                    0 <= j < k ==> #[trigger] self.spec_raw(mem, start + j * (step as int))
                        == self.elem.spec_to_bits(values@[j] as int),
                forall|b: int|
                    0 <= b < pre.data@.len() && !self.spec_in_stride(
                        start as int,
                        k as int,
                        step as int,
                        b,
                    ) ==> mem.data@[b] == pre.data@[b],
            decreases count - k,
        {
            let ghost stepi = step as int;
            let ghost starti = start as int;
            let ghost ki = k as int;
            proof {
                lemma_stride_below_stop(start as int, stop as int, step as int, k as int);
            }
            let idx: usize = start + ((k as u64) * step) as usize;
            // Binds the memory's exact byte length as a machine word, which
            // the address computation below needs to stay in bounds.
            let byte_len = mem.data.len();
            proof {
                assert(self.spec_len(mem) == self.spec_len(&pre));
                self.lemma_addr_in_bounds(mem, idx as int);
                self.elem.lemma_bits_roundtrip(values@[k as int] as int);
                lemma_pow256_increases(self.elem.spec_width() as nat, 8);
                reveal_with_fuel(pow256, 9);
                assert(self.spec_addr(idx as int) == (self.offset + idx) * w);
            }
            let value = values[k];
            let full = self.elem.full_range();
            let bits: u64 = if value < 0 {
                (value + full as i128) as u64
            } else {
                value as u64
            };
            let addr = (self.offset + idx) * w;
            let ghost before_write = mem.data@;
            proof {
                assert(idx as int == starti + ki * stepi);
                assert(addr as int == self.spec_addr(starti + ki * stepi));
                // Restate what the earlier iterations wrote as facts about
                // the byte sequence itself, so they survive the write.
                assert forall|j: int| 0 <= j < ki implies le_val(
                    #[trigger] before_write.subrange(
                        self.spec_addr(starti + j * stepi),
                        self.spec_addr(starti + j * stepi) + w,
                    ),
                ) as int == self.elem.spec_to_bits(values@[j] as int) by {
                    assert(self.spec_raw(mem, starti + j * stepi) == self.elem.spec_to_bits(
                        values@[j] as int,
                    ));
                }
            }
            write_le(&mut mem.data, addr, w, bits);
            proof {
                // Earlier elements end before this one begins, so their
                // bytes are untouched by this write.
                assert forall|j: int| 0 <= j < ki implies #[trigger] self.spec_raw(
                    mem,
                    starti + j * stepi,
                ) == self.elem.spec_to_bits(values@[j] as int) by {
                    lemma_stride_increases(starti, stepi, j, ki);
                    assert((self.offset + (starti + j * stepi) + 1) * (w as int) <= (self.offset
                        + (starti + ki * stepi)) * (w as int)) by (nonlinear_arith)
                        requires
                            w >= 1,
                            self.offset + (starti + j * stepi) + 1 <= self.offset + (starti + ki
                                * stepi),
                            0 <= starti + j * stepi,
                            0 <= self.offset,
                    ;
                    assert((self.offset + (starti + j * stepi) + 1) * (w as int) == (self.offset
                        + (starti + j * stepi)) * (w as int) + w) by (nonlinear_arith);
                    assert(self.spec_addr(starti + j * stepi) + w <= addr);
                    assert(mem.data@.subrange(
                        self.spec_addr(starti + j * stepi),
                        self.spec_addr(starti + j * stepi) + w,
                    ) =~= before_write.subrange(
                        self.spec_addr(starti + j * stepi),
                        self.spec_addr(starti + j * stepi) + w,
                    ));
                }
                // Bytes outside the first k + 1 selected elements are
                // untouched.
                assert forall|b: int|
                    0 <= b < pre.data@.len() && !self.spec_in_stride(
                        starti,
                        ki + 1,
                        stepi,
                        b,
                    ) implies mem.data@[b] == pre.data@[b] by {
                    assert(!self.spec_in_stride(starti, ki, stepi, b));
                    assert(!(self.spec_addr(starti + ki * stepi) <= b < self.spec_addr(
                        starti + ki * stepi,
                    ) + w));
                }
                // The element just written holds its value.
                assert(mem.data@.subrange(
                    self.spec_addr(starti + ki * stepi),
                    self.spec_addr(starti + ki * stepi) + w,
                ) =~= mem.data@.subrange(addr as int, addr + w));
                assert(self.spec_raw(mem, starti + ki * stepi) == self.elem.spec_to_bits(
                    values@[ki] as int,
                ));
            }
            k = k + 1;
        }
        proof {
            let stepi = step as int;
            let starti = start as int;
            assert forall|j: int| 0 <= j < count implies #[trigger] self.spec_get(
                mem,
                starti + j * stepi,
            ) == values@[j] by {
                self.elem.lemma_bits_roundtrip(values@[j] as int);
            }
        }
        Ok(())
    }
}

/// Growing a memory lengthens every view over it by exactly the grown
/// pages' worth of elements: the delta in pages times the elements per
/// page.  Views never cache a length, so the growth is visible to every
/// already-built view.
pub proof fn lemma_len_after_grow(v: MemoryView, before: &Memory, after: &Memory, delta: u32)
    requires
        v.offset <= (before.data@.len() as int) / v.elem.spec_width(),
        after.data@.len() == before.data@.len() + delta * (crate::memory::PAGE_BYTES as int),
    ensures
        v.spec_len(after) == v.spec_len(before) + delta * ((crate::memory::PAGE_BYTES as int)
            / v.elem.spec_width()),
{
    let w = v.elem.spec_width();
    let page = crate::memory::PAGE_BYTES as int;
    assert(page == w * (page / w));
    assert((before.data@.len() + delta * page) as int / w == (before.data@.len() as int) / w
        + delta * (page / w)) by (nonlinear_arith)
        requires
            w >= 1,
            page == w * (page / w),
            before.data@.len() >= 0,
            delta >= 0,
    ;
}



impl Memory {
    /// A view over this memory with `uint8` elements.
    pub fn uint8_view(&self, offset: usize) -> (r: MemoryView)
        ensures
            r.elem == ElementType::Uint8,
            r.offset == offset,
    {
        MemoryView { elem: ElementType::Uint8, offset }
    }

    /// A view over this memory with `int8` elements.
    pub fn int8_view(&self, offset: usize) -> (r: MemoryView)
        ensures
            r.elem == ElementType::Int8,
            r.offset == offset,
    {
        MemoryView { elem: ElementType::Int8, offset }
    }

    /// A view over this memory with `uint16` elements.
    pub fn uint16_view(&self, offset: usize) -> (r: MemoryView)
        ensures
            r.elem == ElementType::Uint16,
            r.offset == offset,
    {
        MemoryView { elem: ElementType::Uint16, offset }
    }

    /// A view over this memory with `int16` elements.
    pub fn int16_view(&self, offset: usize) -> (r: MemoryView)
        ensures
            r.elem == ElementType::Int16,
            r.offset == offset,
    {
        MemoryView { elem: ElementType::Int16, offset }
    }

    /// A view over this memory with `uint32` elements.
    pub fn uint32_view(&self, offset: usize) -> (r: MemoryView)
        ensures
            r.elem == ElementType::Uint32,
            r.offset == offset,
    {
        MemoryView { elem: ElementType::Uint32, offset }
    }

    /// A view over this memory with `int32` elements.
    pub fn int32_view(&self, offset: usize) -> (r: MemoryView)
        ensures
            r.elem == ElementType::Int32,
            r.offset == offset,
    {
        MemoryView { elem: ElementType::Int32, offset }
    }

    /// A view over this memory with `uint64` elements.
    pub fn uint64_view(&self, offset: usize) -> (r: MemoryView)
        ensures
            r.elem == ElementType::Uint64,
            r.offset == offset,
    {
        MemoryView { elem: ElementType::Uint64, offset }
    }

    /// A view over this memory with `int64` elements.
    pub fn int64_view(&self, offset: usize) -> (r: MemoryView)
        ensures
            r.elem == ElementType::Int64,
            r.offset == offset,
    {
        MemoryView { elem: ElementType::Int64, offset }
    }

    /// A view over this memory with `float32` elements, read and written
    /// as bit patterns.
    pub fn float32_view(&self, offset: usize) -> (r: MemoryView)
        ensures
            r.elem == ElementType::Float32,
            r.offset == offset,
    {
        MemoryView { elem: ElementType::Float32, offset }
    }

    /// A view over this memory with `float64` elements, read and written
    /// as bit patterns.
    pub fn float64_view(&self, offset: usize) -> (r: MemoryView)
        ensures
            r.elem == ElementType::Float64,
            r.offset == offset,
    {
        MemoryView { elem: ElementType::Float64, offset }
    }
}

} // verus!
