//! Memory primitives: usage and property flag sets, memory types and
//! heaps, and the requirements a buffer places on the memory it is bound
//! to.

use vstd::prelude::*;

verus! {

/// The buffer may be the source of a transfer.
pub const TRANSFER_SRC: u32 = 0x1;
/// The buffer may be the destination of a transfer.
pub const TRANSFER_DST: u32 = 0x2;
/// The buffer may back an acceleration structure or its scratch space.
pub const ACCELERATION_STRUCTURE_STORAGE: u32 = 0x4;
/// The buffer may be read as input by an acceleration structure build.
pub const ACCELERATION_STRUCTURE_BUILD_INPUT_READ_ONLY: u32 = 0x8;
/// The buffer's device address may be queried and used by shaders.
pub const SHADER_DEVICE_ADDRESS: u32 = 0x10;

/// How a buffer will be used, as a fixed-width bit set.
#[derive(Clone, Copy, PartialEq, Eq, Structural, Debug)]
pub struct Usage {
    pub bits: u32,
}

impl Usage {
    /// True when every bit of `other` is set in `self`.
    pub open spec fn spec_contains(self, other: Usage) -> bool {
        self.bits & other.bits == other.bits
    }

    /// The empty flag set.
    pub fn empty() -> (r: Usage)
        ensures
            r.bits == 0,
    {
        Usage { bits: 0 }
    }

    /// The flag set holding exactly [`ACCELERATION_STRUCTURE_STORAGE`].
    pub fn acceleration_structure_storage() -> (r: Usage)
        ensures
            r.bits == ACCELERATION_STRUCTURE_STORAGE,
    {
        Usage { bits: ACCELERATION_STRUCTURE_STORAGE }
    }

    /// The flag set holding exactly
    /// [`ACCELERATION_STRUCTURE_BUILD_INPUT_READ_ONLY`].
    pub fn acceleration_structure_build_input_read_only() -> (r: Usage)
        ensures
            r.bits == ACCELERATION_STRUCTURE_BUILD_INPUT_READ_ONLY,
    {
        Usage { bits: ACCELERATION_STRUCTURE_BUILD_INPUT_READ_ONLY }
    }

    /// The flag set holding exactly [`SHADER_DEVICE_ADDRESS`].
    pub fn shader_device_address() -> (r: Usage)
        ensures
            r.bits == SHADER_DEVICE_ADDRESS,
    {
        Usage { bits: SHADER_DEVICE_ADDRESS }
    }

    /// The union of two flag sets.
    pub fn union(self, other: Usage) -> (r: Usage)
        ensures
            r.bits == self.bits | other.bits,
    {
        Usage { bits: self.bits | other.bits }
    }

    /// Whether every bit of `other` is set in `self`.
    pub fn contains(self, other: Usage) -> (r: bool)
        ensures
            r == self.spec_contains(other),
    {
        self.bits & other.bits == other.bits
    }
}

/// The memory lives on the device.
pub const DEVICE_LOCAL: u32 = 0x1;
/// The memory can be mapped into host address space.
pub const CPU_VISIBLE: u32 = 0x2;
/// Host writes are visible to the device without explicit flushes.
pub const COHERENT: u32 = 0x4;
/// Host reads of the memory are cached.
pub const CPU_CACHED: u32 = 0x8;

/// The properties of a memory type, as a fixed-width bit set.
#[derive(Clone, Copy, PartialEq, Eq, Structural, Debug)]
pub struct Properties {
    pub bits: u32,
}

impl Properties {
    /// True when every bit of `other` is set in `self`.
    pub open spec fn spec_contains(self, other: Properties) -> bool {
        self.bits & other.bits == other.bits
    }

    /// The empty flag set.
    pub fn empty() -> (r: Properties)
        ensures
            r.bits == 0,
    {
        Properties { bits: 0 }
    }

    /// The flag set holding exactly [`CPU_VISIBLE`].
    pub fn cpu_visible() -> (r: Properties)
        ensures
            r.bits == CPU_VISIBLE,
    {
        Properties { bits: CPU_VISIBLE }
    }

    /// The union of two flag sets.
    pub fn union(self, other: Properties) -> (r: Properties)
        ensures
            r.bits == self.bits | other.bits,
    {
        Properties { bits: self.bits | other.bits }
    }

    /// Whether every bit of `other` is set in `self`.
    pub fn contains(self, other: Properties) -> (r: bool)
        ensures
            r == self.spec_contains(other),
    {
        self.bits & other.bits == other.bits
    }
}

/// Selects a memory type by its position in
/// [`MemoryProperties::memory_types`].
#[derive(Clone, Copy, PartialEq, Eq, Structural, Debug)]
pub struct MemoryTypeId {
    pub index: usize,
}

/// One memory type a device offers.
#[derive(Clone, Copy, PartialEq, Eq, Structural, Debug)]
pub struct MemoryType {
    /// The properties of memory allocated with this type.
    pub properties: Properties,
    /// The heap the type allocates from, as an index into
    /// [`MemoryProperties::memory_heaps`].
    pub heap_index: usize,
}

/// One memory heap a device offers.
#[derive(Clone, Copy, PartialEq, Eq, Structural, Debug)]
pub struct MemoryHeap {
    /// The total size of the heap in bytes.
    pub size: u64,
}

/// The memory types and heaps a physical device offers.
#[derive(Clone, PartialEq, Eq, Debug)]
pub struct MemoryProperties {
    /// Each memory type that can be named in an allocation.
    pub memory_types: Vec<MemoryType>,
    /// Each heap the memory types draw from.
    pub memory_heaps: Vec<MemoryHeap>,
}

/// The requirements a buffer places on the memory it is bound to.
#[derive(Clone, Copy, PartialEq, Eq, Structural, Debug)]
pub struct Requirements {
    /// The number of bytes of memory the resource needs.
    pub size: u64,
    /// The required alignment of the binding offset.
    pub alignment: u64,
    /// A bit field with one bit per memory type; a set bit means the
    /// resource can be bound to memory of that type.
    pub type_mask: u32,
}

} // verus!
