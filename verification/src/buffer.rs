//! The buffer adapter: the whole memory as a flat byte region for the
//! host's zero-copy buffer-exchange protocol.
//!
//! The adapter only computes the description the protocol needs; handing
//! out the actual pointer is the embedder's job, and the description is
//! valid only until the next `grow`.

use crate::memory::Memory;
use vstd::prelude::*;

verus! {

/// What a buffer consumer requested: write access and which optional
/// fields of the description it wants filled.
#[derive(Clone, Copy, Debug)]
pub struct BufferRequest {
    /// The consumer wants to write through the buffer.
    pub writable: bool,

    /// The consumer wants the element format exposed.
    pub format: bool,

    /// The consumer wants the one-dimensional shape exposed.
    pub shape: bool,

    /// The consumer wants the per-dimension strides exposed.
    pub strides: bool,
}

/// The description of a memory as a flat byte buffer: one dimension, one
/// byte per item, as many items as the memory currently has bytes.
#[derive(Clone, Copy, Debug, PartialEq, Eq)]
pub struct BufferLayout {
    /// The buffer's total length in bytes: the memory's current byte size.
    pub length: usize,

    /// Whether the buffer is read-only.  A writable request is granted,
    /// never silently downgraded.
    pub readonly: bool,

    /// The size of one item; always one byte.
    pub itemsize: usize,

    /// The number of dimensions; always one.
    pub ndim: u32,

    /// Whether the byte format is exposed, exactly as requested.
    pub format: bool,

    /// The shape of the single dimension, when requested: the length.
    pub shape: Option<usize>,

    /// The stride of the single dimension, when requested: the item size.
    pub strides: Option<usize>,
}

impl Memory {
    /// Describes this memory as a flat byte buffer for the given request.
    /// The length is re-read from the live memory, so the description
    /// reflects the most recent `grow`.
    pub fn buffer_layout(&self, request: &BufferRequest) -> (r: BufferLayout)
        ensures
            r.length == self.data@.len(),
            r.readonly == !request.writable,
            r.itemsize == 1,
            r.ndim == 1,
            r.format == request.format,
            request.shape ==> r.shape == Some(r.length),
            !request.shape ==> r.shape is None,
            request.strides ==> r.strides == Some(1usize),
            !request.strides ==> r.strides is None,
    {
        let length = self.data.len();
        BufferLayout {
            length,
            readonly: !request.writable,
            itemsize: 1,
            ndim: 1,
            format: request.format,
            shape: if request.shape {
                Some(length)
            } else {
                None
            },
            strides: if request.strides {
                Some(1)
            } else {
                None
            },
        }
    }
}

} // verus!
