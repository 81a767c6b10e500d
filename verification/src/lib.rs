//! A backend-agnostic hardware-abstraction layer for GPU ray-tracing
//! acceleration structures.
//!
//! The crate models the resources a device hands out (buffers, memory,
//! acceleration structures, query pools, fences) as plain handles into a
//! [`device::Device`], and gives exact contracts to the operations that
//! matter for building bounding-volume hierarchies: the size-query
//! protocol, the acceleration-structure lifecycle, the command-stream
//! build/copy/query state machine, and the bit-exact GPU-resident
//! instance record codec.

use vstd::prelude::*;

pub mod accel;
pub mod adapter;
pub mod command;
pub mod device;
pub mod instance;
pub mod memory;

verus! {

/// A byte offset into a buffer or a memory allocation.
pub type Offset = u64;

/// The distance in bytes between consecutive elements in a buffer.
pub type Stride = u32;

/// The width of the entries of an index buffer.
#[derive(Clone, Copy, PartialEq, Eq, Structural, Debug)]
pub enum IndexType {
    U16,
    U32,
}

/// The failures a device operation can surface.
#[derive(Clone, Copy, PartialEq, Eq, Structural, Debug)]
pub enum Error {
    /// An allocation or creation could not be satisfied.
    OutOfMemory,
    /// A malformed description was handed to a create call.
    CreationError,
    /// A memory binding was misaligned, redundant, or undersized.
    BindError,
    /// The device executed an invalid command and is unusable.
    DeviceLost,
    /// A wait did not complete, or a queried result is not available.
    WaitError,
}

/// A handle to a sized, usage-flagged GPU buffer owned by a [`device::Device`].
#[derive(Clone, Copy, PartialEq, Eq, Structural, Debug)]
pub struct Buffer {
    pub index: usize,
}

/// A handle to a typed GPU memory allocation owned by a [`device::Device`].
#[derive(Clone, Copy, PartialEq, Eq, Structural, Debug)]
pub struct Memory {
    pub index: usize,
}

/// A handle to an acceleration structure owned by a [`device::Device`].
#[derive(Clone, Copy, PartialEq, Eq, Structural, Debug)]
pub struct AccelerationStructure {
    pub index: usize,
}

/// A handle to a query pool owned by a [`device::Device`].
#[derive(Clone, Copy, PartialEq, Eq, Structural, Debug)]
pub struct QueryPool {
    pub index: usize,
}

/// A handle to a fence owned by a [`device::Device`].
#[derive(Clone, Copy, PartialEq, Eq, Structural, Debug)]
pub struct Fence {
    pub index: usize,
}

} // verus!
