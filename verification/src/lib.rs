//! Host-side execution runtime for a GPU-style compute device, verified with Verus.
//!
//! The crate provides the resource-handle model (buffers, textures, bindless
//! arrays, meshes, acceleration structures), ordered command streams with
//! batched command buffers and one-shot synchronization tokens, a synchronous /
//! deferred shader-compilation pipeline, and a typed, arity-polymorphic
//! argument-encoding layer for kernel dispatch.
//!
//! The device itself is an in-process reference backend: resources live in
//! memory, submitted commands are queued per stream, and queued work runs, in
//! submission order, when the stream is synchronized.

pub mod api;
pub mod device;
pub mod ir;
pub mod laws;
pub mod resource;
pub mod semantics;
pub mod shader;
pub mod stream;

use vstd::prelude::*;

verus! {

/// Failure taxonomy of the runtime.
#[derive(Clone, Copy, PartialEq, Eq, Structural, Debug)]
pub enum Error {
    /// A resource factory call was rejected: zero-sized element type, or the
    /// requested allocation does not fit in the address space.
    ResourceCreation,
    /// An operation was rejected by the backend device.
    Backend,
    /// A shader build failed.
    Compile,
}

} // verus!
