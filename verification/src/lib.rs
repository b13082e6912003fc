//! Guest/host value marshaling and linear-memory access for a WebAssembly
//! embedding.
//!
//! A dynamically-typed host drives a WebAssembly engine: host code builds
//! functions, memories and globals, registers them under namespace/name keys,
//! and exchanges calls and typed values with running guest code.  The hard
//! part of that boundary is not WebAssembly execution (the engine's job) but
//! the translation layer, and that layer is what this crate implements and
//! verifies:
//!
//! * the value codec, which converts a single scalar between the host's
//!   dynamic representation and a typed WebAssembly value ([`values`]);
//! * the signature resolver, which derives a function type from explicit
//!   descriptors or from per-parameter type hints ([`signature`]);
//! * the host-function trampoline, which lets guest code call back into a
//!   host callable with marshaled arguments and results, traps instead of
//!   panicking, and releases the interpreter lock on every exit path
//!   ([`function`]);
//! * the linear-memory view engine, which gives bounds-checked indexed and
//!   sliced read/write access at a chosen element width ([`view`]), over a
//!   page-structured memory ([`memory`]);
//! * the buffer adapter, which describes the whole memory as a flat byte
//!   region for the host's buffer-exchange protocol ([`buffer`]);
//! * the import registry, which aggregates importable items under
//!   namespace/name keys for instantiation ([`registry`]).
//!
//! Host dynamic values and the interpreter lock are modeled by plain types of
//! this crate ([`host`]); the embedder converts at the edge.  Engine
//! lifecycle work (compilation, instantiation, execution) stays with the
//! engine and is out of scope here.

pub mod buffer;
pub mod bytes;
pub mod errors;
pub mod function;
pub mod global;
pub mod host;
pub mod memory;
pub mod registry;
pub mod signature;
pub mod types;
pub mod values;
pub mod view;
