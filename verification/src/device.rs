//! The device: owner of buffers, memory allocations, acceleration
//! structures, query pools and fences, and the implementation of the
//! size-query protocol.
//!
//! The device keeps one slot per resource ever created; handles are
//! indices into the slot tables, and destroying a resource retires its
//! slot rather than reusing it. The abstract state of a device is its
//! [`DeviceView`]; every operation's contract says exactly how the view
//! changes.

use vstd::prelude::*;

use crate::{AccelerationStructure, Buffer, Error, Fence, Memory, QueryPool};
use crate::accel::{CreateDesc, DeviceAddress, Flags, Geometry, GeometryData, GeometryDesc, SizeRequirements, Type, ALLOW_UPDATE};
use crate::memory::{MemoryTypeId, Requirements, Usage};

verus! {

/// The kinds of query a query pool can record.
#[derive(Clone, Copy, PartialEq, Eq, Structural, Debug)]
pub enum QueryType {
    /// The size a built acceleration structure would occupy after a
    /// compacting copy.
    AccelerationStructureCompactedSize,
    /// The size a built acceleration structure would occupy when
    /// serialized to a buffer.
    AccelerationStructureSerializationSize,
}

/// The build state of an acceleration structure slot.
#[derive(Clone, Copy, PartialEq, Eq, Structural, Debug)]
pub enum AsState {
    /// Created but never written by a build or copy command.
    Unbuilt,
    /// Written by a build from scratch or a plain copy of a built source.
    Built,
    /// Written in place by an incremental update.
    Updated,
    /// Written by a compacting copy; terminal for this handle.
    Compacted,
}

/// The state of one buffer slot.
#[derive(Clone, Copy, Debug)]
pub struct BufferSlot {
    /// The size of the buffer in bytes.
    pub size: u64,
    /// The usages the buffer was created for.
    pub usage: Usage,
    /// The memory index and byte offset the buffer is bound at, if bound.
    pub memory: Option<(usize, u64)>,
    /// Whether the handle is still live.
    pub live: bool,
}

/// The state of one memory slot.
#[derive(Clone, Copy, Debug)]
pub struct MemorySlot {
    /// The size of the allocation in bytes.
    pub size: u64,
    /// Whether the allocation is currently mapped for host access.
    pub mapped: bool,
    /// Whether the allocation is still live.
    pub live: bool,
}

/// The state of one acceleration structure slot.
#[derive(Clone, Copy, Debug)]
pub struct AccelSlot {
    /// The declared type of the structure.
    pub ty: Type,
    /// The backing buffer's index.
    pub buffer: usize,
    /// The byte offset into the backing buffer.
    pub offset: u64,
    /// The size reserved for the structure.
    pub size: u64,
    /// Where the structure stands in its build lifecycle.
    pub state: AsState,
    /// The flags of the build that last wrote the structure.
    pub built_flags: Flags,
    /// The geometry cost of the build that last wrote the structure;
    /// the compacted and serialized sizes are functions of it.
    pub built_cost: u64,
    /// Whether a recorded write to the structure has not yet been
    /// followed by a barrier.
    pub pending_write: bool,
    /// Whether the handle is still live.
    pub live: bool,
}

/// The state of one query pool slot.
#[derive(Clone, Debug)]
pub struct QueryPoolSlot {
    /// The kind of query the pool records.
    pub ty: QueryType,
    /// One result cell per query; `None` until written.
    pub results: Vec<Option<u64>>,
    /// Whether the handle is still live.
    pub live: bool,
}

/// The abstract state of one query pool.
#[verifier::ext_equal]
pub struct QueryPoolView {
    pub ty: QueryType,
    pub results: Seq<Option<u64>>,
    pub live: bool,
}

impl View for QueryPoolSlot {
    type V = QueryPoolView;

    open spec fn view(&self) -> QueryPoolView {
        QueryPoolView { ty: self.ty, results: self.results@, live: self.live }
    }
}

/// The state of one fence slot.
#[derive(Clone, Copy, Debug)]
pub struct FenceSlot {
    /// Whether the fence has been signaled by a submission.
    pub signaled: bool,
    /// Whether the handle is still live.
    pub live: bool,
}

/// The abstract state of a device: its resource tables and its memory
/// budget.
#[verifier::ext_equal]
pub struct DeviceView {
    pub buffers: Seq<BufferSlot>,
    pub memories: Seq<MemorySlot>,
    pub accels: Seq<AccelSlot>,
    pub pools: Seq<QueryPoolView>,
    pub fences: Seq<FenceSlot>,
    /// The total size of live memory allocations.
    pub allocated: u64,
    /// The size of the single memory heap the device offers.
    pub heap_size: u64,
    /// The granularity host-visible uploads must be padded to.
    pub non_coherent_atom_size: u64,
    /// Whether the device executed an invalid command and is unusable.
    pub lost: bool,
}

/// A device owning GPU resources and executing command streams.
///
/// The device is a complete, deterministic realization of the
/// hardware-abstraction interface: commands submitted to its queue take
/// effect synchronously at submission, which is when a real device would
/// merely begin executing them.
#[derive(Debug)]
pub struct Device {
    pub buffers: Vec<BufferSlot>,
    pub memories: Vec<MemorySlot>,
    pub accels: Vec<AccelSlot>,
    pub pools: Vec<QueryPoolSlot>,
    pub fences: Vec<FenceSlot>,
    pub allocated: u64,
    pub heap_size: u64,
    pub non_coherent_atom_size: u64,
    pub lost: bool,
}

impl View for Device {
    type V = DeviceView;

    open spec fn view(&self) -> DeviceView {
        DeviceView {
            buffers: self.buffers@,
            memories: self.memories@,
            accels: self.accels@,
            pools: self.pools@.map(|i: int, p: QueryPoolSlot| p@),
            fences: self.fences@,
            allocated: self.allocated,
            heap_size: self.heap_size,
            non_coherent_atom_size: self.non_coherent_atom_size,
            lost: self.lost,
        }
    }
}

/// The total size of the live allocations among `memories`.
pub open spec fn sum_live(memories: Seq<MemorySlot>) -> int
    decreases memories.len(),
{
    if memories.len() == 0 {
        0
    } else {
        sum_live(memories.drop_last()) + if memories.last().live {
            memories.last().size as int
        } else {
            0
        }
    }
}

/// The sum of live allocation sizes is never negative.
pub proof fn lemma_sum_live_nonneg(memories: Seq<MemorySlot>)
    ensures
        sum_live(memories) >= 0,
    decreases memories.len(),
{
    if memories.len() > 0 {
        lemma_sum_live_nonneg(memories.drop_last());
    }
}

/// Appending a slot adds its live size to the sum.
pub proof fn lemma_sum_live_push(memories: Seq<MemorySlot>, slot: MemorySlot)
    ensures
        sum_live(memories.push(slot)) == sum_live(memories) + if slot.live {
            slot.size as int
        } else {
            0
        },
{
    assert(memories.push(slot).drop_last() =~= memories);
}

/// Replacing one slot changes the sum by the difference of the two
/// slots' live sizes.
pub proof fn lemma_sum_live_update(memories: Seq<MemorySlot>, i: int, slot: MemorySlot)
    requires
        0 <= i < memories.len(),
    ensures
        sum_live(memories.update(i, slot)) == sum_live(memories)
            - (if memories[i].live { memories[i].size as int } else { 0 })
            + (if slot.live { slot.size as int } else { 0 }),
    decreases memories.len(),
{
    let updated = memories.update(i, slot);
    if i == memories.len() - 1 {
        assert(updated.drop_last() =~= memories.drop_last());
    } else {
        assert(updated.drop_last() =~= memories.drop_last().update(i, slot));
        lemma_sum_live_update(memories.drop_last(), i, slot);
    }
}

/// A live slot's size never exceeds the sum of live sizes.
pub proof fn lemma_sum_live_bound(memories: Seq<MemorySlot>, i: int)
    requires
        0 <= i < memories.len(),
        memories[i].live,
    ensures
        sum_live(memories) >= memories[i].size,
    decreases memories.len(),
{
    lemma_sum_live_nonneg(memories.drop_last());
    if i < memories.len() - 1 {
        lemma_sum_live_bound(memories.drop_last(), i);
    }
}

impl DeviceView {
    /// The well-formedness of a device: the allocation counter is
    /// exactly the total size of live allocations and stays within the
    /// heap, and the upload granularity is nonzero.
    pub open spec fn wf(self) -> bool {
        &&& self.allocated == sum_live(self.memories)
        &&& self.allocated <= self.heap_size
        &&& self.non_coherent_atom_size >= 1
    }
}

/// The fixed per-structure size of the header every acceleration
/// structure build writes.
pub const ACCEL_STRUCTURE_BASE_SIZE: u64 = 256;
/// The fixed part of the scratch space a build from scratch needs.
pub const BUILD_SCRATCH_BASE_SIZE: u64 = 64;
/// The fixed part of the scratch space an incremental update needs.
pub const UPDATE_SCRATCH_BASE_SIZE: u64 = 32;
/// The node size a triangle primitive contributes to a build.
pub const TRIANGLE_PRIM_SIZE: u64 = 64;
/// The node size a bounding-box primitive contributes to a build.
pub const AABB_PRIM_SIZE: u64 = 32;
/// The node size an instance primitive contributes to a build.
pub const INSTANCE_PRIM_SIZE: u64 = 64;

/// The size one primitive of the given geometry variant contributes.
pub open spec fn prim_size(data: GeometryData) -> int {
    match data {
        GeometryData::Triangles(_) => TRIANGLE_PRIM_SIZE as int,
        GeometryData::Aabbs(_) => AABB_PRIM_SIZE as int,
        GeometryData::Instances(_) => INSTANCE_PRIM_SIZE as int,
    }
}

/// The total size the first `n` geometries contribute, each with its
/// primitive count.
pub open spec fn geometry_cost(geometries: Seq<Geometry>, counts: Seq<u32>, n: int) -> int
    decreases n,
{
    if n <= 0 {
        0
    } else {
        geometry_cost(geometries, counts, n - 1) + counts[n - 1] * prim_size(
            geometries[n - 1].geometry,
        )
    }
}

/// The geometry cost is nonnegative and below `n` times the largest
/// term a 32-bit primitive count can contribute.
pub proof fn lemma_geometry_cost_bounds(geometries: Seq<Geometry>, counts: Seq<u32>, n: int)
    requires
        0 <= n <= counts.len(),
    ensures
        0 <= geometry_cost(geometries, counts, n) <= n * 0x40_0000_0000,
    decreases n,
{
    if n > 0 {
        lemma_geometry_cost_bounds(geometries, counts, n - 1);
        assert(counts[n - 1] * prim_size(geometries[n - 1].geometry) <= 0x40_0000_0000) by {
            assert(counts[n - 1] <= 0xFFFF_FFFFu32);
            assert(prim_size(geometries[n - 1].geometry) <= 64);
            assert(counts[n - 1] * prim_size(geometries[n - 1].geometry) <= 0xFFFF_FFFF * 64)
                by (nonlinear_arith)
                requires
                    counts[n - 1] <= 0xFFFF_FFFFu32,
                    0 <= prim_size(geometries[n - 1].geometry) <= 64,
            ;
        }
        assert(counts[n - 1] * prim_size(geometries[n - 1].geometry) >= 0) by (nonlinear_arith)
            requires
                counts[n - 1] >= 0,
                prim_size(geometries[n - 1].geometry) >= 0,
        ;
    }
}

/// The size the backing buffer of an acceleration structure must have
/// for a build over these geometries and primitive counts.
pub open spec fn spec_accel_size(geometries: Seq<Geometry>, counts: Seq<u32>) -> int {
    ACCEL_STRUCTURE_BASE_SIZE + geometry_cost(geometries, counts, geometries.len() as int)
}

/// The scratch size a build from scratch needs: zero for an empty
/// geometry set, positive otherwise.
pub open spec fn spec_build_scratch(geometries: Seq<Geometry>, counts: Seq<u32>) -> int {
    if geometries.len() == 0 {
        0
    } else {
        BUILD_SCRATCH_BASE_SIZE + geometry_cost(geometries, counts, geometries.len() as int)
    }
}

/// The scratch size an incremental update needs: zero unless updates
/// were requested by [`ALLOW_UPDATE`].
pub open spec fn spec_update_scratch(flags: Flags, geometries: Seq<Geometry>, counts: Seq<u32>) -> int {
    if flags.bits & ALLOW_UPDATE == ALLOW_UPDATE && geometries.len() > 0 {
        UPDATE_SCRATCH_BASE_SIZE + geometry_cost(geometries, counts, geometries.len() as int)
    } else {
        0
    }
}

/// The required sizes are functions of the geometry description and
/// primitive counts alone: two size queries with equal inputs report
/// equal requirements. Together with the query's contract this makes the
/// query idempotent and free of side effects.
pub proof fn lemma_size_query_deterministic(
    flags: Flags,
    geometries1: Seq<Geometry>,
    counts1: Seq<u32>,
    geometries2: Seq<Geometry>,
    counts2: Seq<u32>,
)
    requires
        geometries1 == geometries2,
        counts1 == counts2,
    ensures
        spec_accel_size(geometries1, counts1) == spec_accel_size(geometries2, counts2),
        spec_build_scratch(geometries1, counts1) == spec_build_scratch(geometries2, counts2),
        spec_update_scratch(flags, geometries1, counts1) == spec_update_scratch(
            flags,
            geometries2,
            counts2,
        ),
{
}

/// A size query over a non-empty geometry set reports a positive
/// structure size and a positive build scratch size, whatever the
/// primitive bounds; and the update scratch size is zero whenever
/// updating was not requested.
pub proof fn lemma_nonempty_query_sizes(flags: Flags, geometries: Seq<Geometry>, counts: Seq<u32>)
    requires
        geometries.len() == counts.len(),
        geometries.len() > 0,
    ensures
        spec_accel_size(geometries, counts) > 0,
        spec_build_scratch(geometries, counts) > 0,
        flags.bits & ALLOW_UPDATE != ALLOW_UPDATE ==> spec_update_scratch(
            flags,
            geometries,
            counts,
        ) == 0,
{
    lemma_geometry_cost_bounds(geometries, counts, geometries.len() as int);
}

/// The size a built structure of the given geometry cost occupies after
/// a compacting copy: the header plus half the geometry cost, never more
/// than the built size.
pub open spec fn spec_compacted_size(built_cost: u64) -> u64 {
    (ACCEL_STRUCTURE_BASE_SIZE + built_cost / 2) as u64
}

/// Compaction never grows a structure: the compacted size is positive,
/// at most the size the structure was built with, and strictly smaller
/// as soon as the geometry contributes anything. This is what makes the
/// query-then-allocate-then-copy workflow sound: a buffer of the queried
/// compacted size always suffices for the compacting copy.
pub proof fn lemma_compaction_shrinks(built_cost: u64)
    requires
        built_cost <= u64::MAX - ACCEL_STRUCTURE_BASE_SIZE,
    ensures
        0 < spec_compacted_size(built_cost) <= ACCEL_STRUCTURE_BASE_SIZE + built_cost,
        built_cost >= 2 ==> spec_compacted_size(built_cost) < ACCEL_STRUCTURE_BASE_SIZE
            + built_cost,
{
}

/// The size a built structure of the given geometry cost occupies when
/// serialized: the built size saturated at the largest representable
/// size.
pub open spec fn spec_serialized_size(built_cost: u64) -> u64 {
    if built_cost <= u64::MAX - ACCEL_STRUCTURE_BASE_SIZE {
        (ACCEL_STRUCTURE_BASE_SIZE + built_cost) as u64
    } else {
        u64::MAX
    }
}

/// The state of a freshly opened device: no resources, the whole heap
/// available.
pub open spec fn fresh_device(heap_size: u64, non_coherent_atom_size: u64) -> DeviceView {
    DeviceView {
        buffers: Seq::empty(),
        memories: Seq::empty(),
        accels: Seq::empty(),
        pools: Seq::empty(),
        fences: Seq::empty(),
        allocated: 0,
        heap_size,
        non_coherent_atom_size,
        lost: false,
    }
}

impl Device {
    /// A fresh device with the given heap budget and upload granularity,
    /// owning no resources.
    pub fn new(heap_size: u64, non_coherent_atom_size: u64) -> (r: Device)
        requires
            non_coherent_atom_size >= 1,
        ensures
            r@.wf(),
            r@ == fresh_device(heap_size, non_coherent_atom_size),
    {
        let d = Device {
            buffers: Vec::new(),
            memories: Vec::new(),
            accels: Vec::new(),
            pools: Vec::new(),
            fences: Vec::new(),
            allocated: 0,
            heap_size,
            non_coherent_atom_size,
            lost: false,
        };
        proof {
            assert(d.pools@.map(|i: int, p: QueryPoolSlot| p@) =~= Seq::<QueryPoolView>::empty());
            assert(d@ =~= fresh_device(heap_size, non_coherent_atom_size));
        }
        d
    }

    /// Creates a buffer of the given size and usages. Fails with
    /// [`Error::CreationError`] exactly when the size is zero.
    pub fn create_buffer(&mut self, size: u64, usage: Usage) -> (r: Result<Buffer, Error>)
        requires
            old(self)@.wf(),
        ensures
            final(self)@.wf(),
            size == 0 ==> r == Err::<Buffer, Error>(Error::CreationError) && final(self)@ == old(
                self,
            )@,
            size != 0 ==> r == Ok::<Buffer, Error>(Buffer { index: old(self).buffers.len() })
                && final(self)@ == (DeviceView {
                buffers: old(self)@.buffers.push(
                    BufferSlot { size, usage, memory: None, live: true },
                ),
                ..old(self)@
            }),
    {
        if size == 0 {
            return Err(Error::CreationError);
        }
        let index = self.buffers.len();
        self.buffers.push(BufferSlot { size, usage, memory: None, live: true });
        Ok(Buffer { index })
    }

    /// The memory requirements of a live buffer: its creation size, no
    /// alignment constraint, and every memory type acceptable.
    pub fn get_buffer_requirements(&self, buffer: Buffer) -> (r: Requirements)
        requires
            buffer.index < self@.buffers.len(),
            self@.buffers[buffer.index as int].live,
        ensures
            r == (Requirements {
                size: self@.buffers[buffer.index as int].size,
                alignment: 1,
                type_mask: 0xFFFF_FFFFu32,
            }),
    {
        Requirements { size: self.buffers[buffer.index].size, alignment: 1, type_mask: 0xFFFF_FFFF }
    }

    /// Allocates memory of the device's single memory type. Fails with
    /// [`Error::OutOfMemory`] exactly when the request does not fit in
    /// what is left of the heap.
    pub fn allocate_memory(&mut self, memory_type: MemoryTypeId, size: u64) -> (r: Result<
        Memory,
        Error,
    >)
        requires
            old(self)@.wf(),
            memory_type.index == 0,
        ensures
            final(self)@.wf(),
            size > old(self)@.heap_size - old(self)@.allocated ==> r == Err::<Memory, Error>(
                Error::OutOfMemory,
            ) && final(self)@ == old(self)@,
            size <= old(self)@.heap_size - old(self)@.allocated ==> r == Ok::<Memory, Error>(
                Memory { index: old(self).memories.len() },
            ) && final(self)@ == (DeviceView {
                memories: old(self)@.memories.push(MemorySlot { size, mapped: false, live: true }),
                allocated: (old(self)@.allocated + size) as u64,
                ..old(self)@
            }),
    {
        if size > self.heap_size - self.allocated {
            return Err(Error::OutOfMemory);
        }
        let index = self.memories.len();
        proof {
            lemma_sum_live_push(
                self.memories@,
                MemorySlot { size, mapped: false, live: true },
            );
        }
        self.memories.push(MemorySlot { size, mapped: false, live: true });
        self.allocated = self.allocated + size;
        Ok(Memory { index })
    }

    /// Binds a live buffer to a region of a live allocation, a one-time
    /// operation per buffer. Fails with [`Error::BindError`] exactly when
    /// the buffer is already bound or the region overruns the allocation.
    pub fn bind_buffer_memory(&mut self, memory: Memory, offset: u64, buffer: Buffer) -> (r:
        Result<(), Error>)
        requires
            old(self)@.wf(),
            buffer.index < old(self)@.buffers.len(),
            old(self)@.buffers[buffer.index as int].live,
            memory.index < old(self)@.memories.len(),
            old(self)@.memories[memory.index as int].live,
        ensures
            final(self)@.wf(),
            ({
                let b = old(self)@.buffers[buffer.index as int];
                let m = old(self)@.memories[memory.index as int];
                if b.memory is Some || offset + b.size > m.size {
                    r == Err::<(), Error>(Error::BindError) && final(self)@ == old(self)@
                } else {
                    r == Ok::<(), Error>(()) && final(self)@ == (DeviceView {
                        buffers: old(self)@.buffers.update(
                            buffer.index as int,
                            (BufferSlot { memory: Some((memory.index, offset)), ..b }),
                        ),
                        ..old(self)@
                    })
                }
            }),
    {
        let b = self.buffers[buffer.index];
        let m = self.memories[memory.index];
        if b.memory.is_some() {
            return Err(Error::BindError);
        }
        if b.size > m.size || offset > m.size - b.size {
            return Err(Error::BindError);
        }
        self.buffers[buffer.index] = BufferSlot { memory: Some((memory.index, offset)), ..b };
        Ok(())
    }

    /// Retires a live buffer handle. The memory it was bound to is not
    /// freed.
    pub fn destroy_buffer(&mut self, buffer: Buffer)
        requires
            old(self)@.wf(),
            buffer.index < old(self)@.buffers.len(),
            old(self)@.buffers[buffer.index as int].live,
        ensures
            final(self)@.wf(),
            final(self)@ == (DeviceView {
                buffers: old(self)@.buffers.update(
                    buffer.index as int,
                    (BufferSlot { live: false, ..old(self)@.buffers[buffer.index as int] }),
                ),
                ..old(self)@
            }),
    {
        let b = self.buffers[buffer.index];
        self.buffers[buffer.index] = BufferSlot { live: false, ..b };
    }

    /// Releases a live allocation, returning its size to the heap. The
    /// caller must not free memory that still backs GPU work in flight.
    pub fn free_memory(&mut self, memory: Memory)
        requires
            old(self)@.wf(),
            memory.index < old(self)@.memories.len(),
            old(self)@.memories[memory.index as int].live,
        ensures
            final(self)@.wf(),
            final(self)@ == (DeviceView {
                memories: old(self)@.memories.update(
                    memory.index as int,
                    (MemorySlot { live: false, ..old(self)@.memories[memory.index as int] }),
                ),
                allocated: (old(self)@.allocated
                    - old(self)@.memories[memory.index as int].size) as u64,
                ..old(self)@
            }),
    {
        let m = self.memories[memory.index];
        proof {
            lemma_sum_live_bound(self.memories@, memory.index as int);
            lemma_sum_live_update(
                self.memories@,
                memory.index as int,
                MemorySlot { live: false, ..m },
            );
            lemma_sum_live_nonneg(self.memories@.update(
                memory.index as int,
                MemorySlot { live: false, ..m },
            ));
        }
        self.memories[memory.index] = MemorySlot { live: false, ..m };
        self.allocated = self.allocated - m.size;
    }

    /// Maps a live allocation for host access. Fails with
    /// [`Error::CreationError`] exactly when it is already mapped.
    pub fn map_memory(&mut self, memory: Memory) -> (r: Result<(), Error>)
        requires
            old(self)@.wf(),
            memory.index < old(self)@.memories.len(),
            old(self)@.memories[memory.index as int].live,
        ensures
            final(self)@.wf(),
            old(self)@.memories[memory.index as int].mapped ==> r == Err::<(), Error>(
                Error::CreationError,
            ) && final(self)@ == old(self)@,
            !old(self)@.memories[memory.index as int].mapped ==> r == Ok::<(), Error>(())
                && final(self)@ == (DeviceView {
                memories: old(self)@.memories.update(
                    memory.index as int,
                    (MemorySlot { mapped: true, ..old(self)@.memories[memory.index as int] }),
                ),
                ..old(self)@
            }),
    {
        let m = self.memories[memory.index];
        if m.mapped {
            return Err(Error::CreationError);
        }
        proof {
            lemma_sum_live_update(
                self.memories@,
                memory.index as int,
                MemorySlot { mapped: true, ..m },
            );
        }
        self.memories[memory.index] = MemorySlot { mapped: true, ..m };
        Ok(())
    }

    /// Unmaps a mapped allocation.
    pub fn unmap_memory(&mut self, memory: Memory)
        requires
            old(self)@.wf(),
            memory.index < old(self)@.memories.len(),
            old(self)@.memories[memory.index as int].live,
        ensures
            final(self)@.wf(),
            final(self)@ == (DeviceView {
                memories: old(self)@.memories.update(
                    memory.index as int,
                    (MemorySlot { mapped: false, ..old(self)@.memories[memory.index as int] }),
                ),
                ..old(self)@
            }),
    {
        let m = self.memories[memory.index];
        proof {
            lemma_sum_live_update(
                self.memories@,
                memory.index as int,
                MemorySlot { mapped: false, ..m },
            );
        }
        self.memories[memory.index] = MemorySlot { mapped: false, ..m };
    }

    /// Makes host writes to a mapped allocation visible to the device.
    /// The device model keeps no byte contents, so the flush changes no
    /// observable state.
    pub fn flush_mapped_memory_ranges(&self, memory: Memory) -> (r: Result<(), Error>)
        requires
            memory.index < self@.memories.len(),
            self@.memories[memory.index as int].live,
            self@.memories[memory.index as int].mapped,
        ensures
            r == Ok::<(), Error>(()),
    {
        Ok(())
    }
}

impl Device {
    /// Creates an acceleration structure bound to a region of a live,
    /// caller-sized buffer. Fails with [`Error::CreationError`] exactly
    /// when the offset is not a multiple of 256, the size is zero, or the
    /// region overruns the buffer.
    pub fn create_acceleration_structure(&mut self, desc: &CreateDesc) -> (r: Result<
        AccelerationStructure,
        Error,
    >)
        requires
            old(self)@.wf(),
            desc.buffer.index < old(self)@.buffers.len(),
            old(self)@.buffers[desc.buffer.index as int].live,
        ensures
            final(self)@.wf(),
            ({
                let b = old(self)@.buffers[desc.buffer.index as int];
                if desc.buffer_offset % 256 != 0 || desc.size == 0 || desc.buffer_offset
                    + desc.size > b.size {
                    r == Err::<AccelerationStructure, Error>(Error::CreationError) && final(self)@
                        == old(self)@
                } else {
                    r == Ok::<AccelerationStructure, Error>(
                        AccelerationStructure { index: old(self).accels.len() },
                    ) && final(self)@ == (DeviceView {
                        accels: old(self)@.accels.push(
                            (AccelSlot {
                                ty: desc.ty,
                                buffer: desc.buffer.index,
                                offset: desc.buffer_offset,
                                size: desc.size,
                                state: AsState::Unbuilt,
                                built_flags: (Flags { bits: 0 }),
                                built_cost: 0,
                                pending_write: false,
                                live: true,
                            }),
                        ),
                        ..old(self)@
                    })
                }
            }),
    {
        let b = self.buffers[desc.buffer.index];
        if desc.buffer_offset % 256 != 0 || desc.size == 0 {
            return Err(Error::CreationError);
        }
        if desc.size > b.size || desc.buffer_offset > b.size - desc.size {
            return Err(Error::CreationError);
        }
        let index = self.accels.len();
        self.accels.push(
            AccelSlot {
                ty: desc.ty,
                buffer: desc.buffer.index,
                offset: desc.buffer_offset,
                size: desc.size,
                state: AsState::Unbuilt,
                built_flags: Flags { bits: 0 },
                built_cost: 0,
                pending_write: false,
                live: true,
            },
        );
        Ok(AccelerationStructure { index })
    }

    /// The GPU-virtual address of a live acceleration structure, for use
    /// in instance records: a distinct value per handle, in an address
    /// range no buffer allocation uses.
    pub fn get_acceleration_structure_address(&self, accel: AccelerationStructure) -> (r:
        DeviceAddress)
        requires
            accel.index < self@.accels.len(),
            self@.accels[accel.index as int].live,
        ensures
            r == DeviceAddress((accel.index as u64) | 0x8000_0000_0000_0000),
    {
        DeviceAddress((accel.index as u64) | 0x8000_0000_0000_0000)
    }

    /// Attaches a debug name to a live acceleration structure. Naming is
    /// a debug-only side channel: it has no functional effect, and the
    /// device's observable state is unchanged.
    pub fn set_acceleration_structure_name(&mut self, accel: AccelerationStructure, name: &str)
        requires
            accel.index < old(self)@.accels.len(),
            old(self)@.accels[accel.index as int].live,
        ensures
            final(self)@ == old(self)@,
    {
    }

    /// Retires a live acceleration structure handle. The backing buffer
    /// is not freed.
    pub fn destroy_acceleration_structure(&mut self, accel: AccelerationStructure)
        requires
            old(self)@.wf(),
            accel.index < old(self)@.accels.len(),
            old(self)@.accels[accel.index as int].live,
        ensures
            final(self)@.wf(),
            final(self)@ == (DeviceView {
                accels: old(self)@.accels.update(
                    accel.index as int,
                    (AccelSlot { live: false, ..old(self)@.accels[accel.index as int] }),
                ),
                ..old(self)@
            }),
    {
        let a = self.accels[accel.index];
        self.accels[accel.index] = AccelSlot { live: false, ..a };
    }

    /// The buffer sizes a build over `geometry_desc` needs, given an
    /// upper bound on the primitives each geometry may contribute. A pure
    /// query: no resource is touched, and identical inputs always yield
    /// identical requirements.
    pub fn get_acceleration_structure_build_requirements(
        &self,
        geometry_desc: &GeometryDesc,
        max_primitive_counts: &Vec<u32>,
    ) -> (r: SizeRequirements)
        requires
            geometry_desc.wf(),
            max_primitive_counts@.len() == geometry_desc.geometries@.len(),
            spec_accel_size(geometry_desc.geometries@, max_primitive_counts@) <= u64::MAX,
        ensures
            r.acceleration_structure_size == spec_accel_size(
                geometry_desc.geometries@,
                max_primitive_counts@,
            ),
            r.build_scratch_size == spec_build_scratch(
                geometry_desc.geometries@,
                max_primitive_counts@,
            ),
            r.update_scratch_size == spec_update_scratch(
                geometry_desc.flags,
                geometry_desc.geometries@,
                max_primitive_counts@,
            ),
    {
        let cost = geometry_cost_exec(&geometry_desc.geometries, max_primitive_counts);
        proof {
            lemma_geometry_cost_bounds(
                geometry_desc.geometries@,
                max_primitive_counts@,
                geometry_desc.geometries@.len() as int,
            );
        }
        let cost64: u64 = cost as u64;
        let empty = geometry_desc.geometries.len() == 0;
        let allow_update = geometry_desc.flags.contains(Flags { bits: ALLOW_UPDATE });
        SizeRequirements {
            acceleration_structure_size: ACCEL_STRUCTURE_BASE_SIZE + cost64,
            update_scratch_size: if allow_update && !empty {
                UPDATE_SCRATCH_BASE_SIZE + cost64
            } else {
                0
            },
            build_scratch_size: if empty {
                0
            } else {
                BUILD_SCRATCH_BASE_SIZE + cost64
            },
        }
    }

    /// Creates a query pool of the given kind with `count` result cells,
    /// all unwritten. Fails with [`Error::CreationError`] exactly when
    /// `count` is zero.
    pub fn create_query_pool(&mut self, ty: QueryType, count: u32) -> (r: Result<QueryPool, Error>)
        requires
            old(self)@.wf(),
        ensures
            final(self)@.wf(),
            count == 0 ==> r == Err::<QueryPool, Error>(Error::CreationError) && final(self)@
                == old(self)@,
            count != 0 ==> r == Ok::<QueryPool, Error>(QueryPool { index: old(self).pools.len() })
                && final(self)@ == (DeviceView {
                pools: old(self)@.pools.push(
                    (QueryPoolView {
                        ty,
                        results: Seq::new(count as nat, |i: int| None::<u64>),
                        live: true,
                    }),
                ),
                ..old(self)@
            }),
    {
        if count == 0 {
            return Err(Error::CreationError);
        }
        let index = self.pools.len();
        let mut results: Vec<Option<u64>> = Vec::new();
        let mut i: u32 = 0;
        while i < count
            invariant
                i <= count,
                results@.len() == i as int,
                forall|j: int| 0 <= j < i as int ==> results@[j] is None,
            decreases count - i,
        {
            results.push(None);
            i = i + 1;
        }
        proof {
            assert(results@ =~= Seq::new(count as nat, |i: int| None::<u64>));
        }
        self.pools.push(QueryPoolSlot { ty, results, live: true });
        proof {
            assert(self.pools@.map(|i: int, p: QueryPoolSlot| p@) =~= old(self).pools@.map(
                |i: int, p: QueryPoolSlot| p@,
            ).push(
                QueryPoolView {
                    ty,
                    results: Seq::new(count as nat, |i: int| None::<u64>),
                    live: true,
                },
            ));
        }
        Ok(QueryPool { index })
    }

    /// Retires a live query pool handle.
    pub fn destroy_query_pool(&mut self, pool: QueryPool)
        requires
            old(self)@.wf(),
            pool.index < old(self)@.pools.len(),
            old(self)@.pools[pool.index as int].live,
        ensures
            final(self)@.wf(),
            final(self)@ == (DeviceView {
                pools: old(self)@.pools.update(
                    pool.index as int,
                    (QueryPoolView { live: false, ..old(self)@.pools[pool.index as int] }),
                ),
                ..old(self)@
            }),
    {
        let ghost prior = self.pools@.map(|i: int, p: QueryPoolSlot| p@);
        let slot_ref = &mut self.pools[pool.index];
        slot_ref.live = false;
        proof {
            assert(self.pools@.map(|i: int, p: QueryPoolSlot| p@) =~= prior.update(
                pool.index as int,
                QueryPoolView { live: false, ..prior[pool.index as int] },
            ));
        }
    }

    /// Reads `query_count` results of a live pool starting at
    /// `first_query`. Fails with [`Error::WaitError`] exactly when some
    /// requested result has not been written yet.
    pub fn get_query_pool_results(&self, pool: QueryPool, first_query: u32, query_count: u32) -> (r:
        Result<Vec<u64>, Error>)
        requires
            pool.index < self@.pools.len(),
            self@.pools[pool.index as int].live,
            first_query + query_count <= self@.pools[pool.index as int].results.len(),
        ensures
            ({
                let results = self@.pools[pool.index as int].results;
                if exists|j: int|
                    first_query <= j < first_query + query_count && results[j] is None {
                    r == Err::<Vec<u64>, Error>(Error::WaitError)
                } else {
                    &&& r is Ok
                    &&& r->Ok_0@.len() == query_count
                    &&& forall|j: int|
                        0 <= j < query_count ==> results[first_query + j] == Some(
                            #[trigger] r->Ok_0@[j],
                        )
                }
            }),
    {
        let slot = &self.pools[pool.index];
        let n_results = slot.results.len();
        let mut values: Vec<u64> = Vec::new();
        let mut i: u32 = 0;
        while i < query_count
            invariant
                i <= query_count,
                pool.index < self@.pools.len(),
                slot == self.pools@[pool.index as int],
                n_results == slot.results@.len(),
                first_query + query_count <= slot.results@.len(),
                values@.len() == i as int,
                forall|j: int|
                    first_query <= j < first_query + i ==> #[trigger] slot.results@[j] == Some(
                        values@[j - first_query],
                    ),
            decreases query_count - i,
        {
            match slot.results[first_query as usize + i as usize] {
                Some(v) => values.push(v),
                None => {
                    return Err(Error::WaitError);
                },
            }
            i = i + 1;
        }
        proof {
            assert forall|j: int| 0 <= j < query_count implies self@.pools[pool.index as int]
                .results[first_query + j] == Some(#[trigger] values@[j]) by {
                assert(slot.results@[first_query + j] == Some(values@[(first_query + j)
                    - first_query]));
            }
        }
        Ok(values)
    }

    /// Creates a fence, optionally already signaled.
    pub fn create_fence(&mut self, signaled: bool) -> (r: Result<Fence, Error>)
        requires
            old(self)@.wf(),
        ensures
            final(self)@.wf(),
            r == Ok::<Fence, Error>(Fence { index: old(self).fences.len() }),
            final(self)@ == (DeviceView {
                fences: old(self)@.fences.push((FenceSlot { signaled, live: true })),
                ..old(self)@
            }),
    {
        let index = self.fences.len();
        self.fences.push(FenceSlot { signaled, live: true });
        Ok(Fence { index })
    }

    /// Returns a live fence to the unsignaled state.
    pub fn reset_fence(&mut self, fence: Fence)
        requires
            old(self)@.wf(),
            fence.index < old(self)@.fences.len(),
            old(self)@.fences[fence.index as int].live,
        ensures
            final(self)@.wf(),
            final(self)@ == (DeviceView {
                fences: old(self)@.fences.update(
                    fence.index as int,
                    (FenceSlot { signaled: false, ..old(self)@.fences[fence.index as int] }),
                ),
                ..old(self)@
            }),
    {
        let f = self.fences[fence.index];
        self.fences[fence.index] = FenceSlot { signaled: false, ..f };
    }

    /// Waits for a live fence. Submission executes synchronously in this
    /// device, so the outcome is already determined: `Ok(true)` when the
    /// fence is signaled, `Ok(false)` when the timeout would elapse
    /// first, and [`Error::DeviceLost`] when the device is lost.
    pub fn wait_for_fence(&self, fence: Fence, timeout_ns: u64) -> (r: Result<bool, Error>)
        requires
            fence.index < self@.fences.len(),
            self@.fences[fence.index as int].live,
        ensures
            self@.lost ==> r == Err::<bool, Error>(Error::DeviceLost),
            !self@.lost ==> r == Ok::<bool, Error>(self@.fences[fence.index as int].signaled),
    {
        if self.lost {
            return Err(Error::DeviceLost);
        }
        Ok(self.fences[fence.index].signaled)
    }

    /// Waits for the device to go idle. Submission executes
    /// synchronously, so the device is always idle; the wait only
    /// reports a lost device.
    pub fn wait_idle(&self) -> (r: Result<(), Error>)
        ensures
            self@.lost ==> r == Err::<(), Error>(Error::DeviceLost),
            !self@.lost ==> r == Ok::<(), Error>(()),
    {
        if self.lost {
            return Err(Error::DeviceLost);
        }
        Ok(())
    }
}

/// `size` rounded up to the next multiple of `align`.
pub open spec fn round_up(size: int, align: int) -> int
    recommends
        align >= 1,
{
    ((size + align - 1) / align) * align
}

/// Rounding up yields a multiple of the alignment that is at least the
/// size and overshoots by less than one alignment unit.
pub proof fn lemma_round_up(size: int, align: int)
    requires
        0 <= size,
        1 <= align,
    ensures
        round_up(size, align) % align == 0,
        size <= round_up(size, align) < size + align,
{
    let q = (size + align - 1) / align;
    vstd::arithmetic::div_mod::lemma_mod_multiples_basic(q, align);
    assert(size <= q * align < size + align) by (nonlinear_arith)
        requires
            q == (size + align - 1) / align,
            0 <= size,
            1 <= align,
    ;
}

/// Creates a buffer whose size is `size` rounded up to the next multiple
/// of `non_coherent_alignment`, allocates memory of exactly that padded
/// size, and binds the buffer to it at offset zero, so that flushes of
/// any prefix of the buffer respect the device's flush granularity.
pub fn create_empty_buffer(
    device: &mut Device,
    non_coherent_alignment: u64,
    usage: Usage,
    size: u64,
) -> (r: (Buffer, Memory))
    requires
        old(device)@.wf(),
        size > 0,
        non_coherent_alignment >= 1,
        size + non_coherent_alignment - 1 <= u64::MAX,
        old(device)@.allocated + round_up(size as int, non_coherent_alignment as int) <= old(
            device,
        )@.heap_size,
    ensures
        final(device)@.wf(),
        ({
            let padded = round_up(size as int, non_coherent_alignment as int);
            let buffer_index = old(device)@.buffers.len();
            let memory_index = old(device)@.memories.len();
            &&& r.0.index == buffer_index
            &&& r.1.index == memory_index
            &&& final(device)@ == (DeviceView {
                buffers: old(device)@.buffers.push(
                    (BufferSlot {
                        size: padded as u64,
                        usage,
                        memory: Some((memory_index as usize, 0)),
                        live: true,
                    }),
                ),
                memories: old(device)@.memories.push(
                    (MemorySlot { size: padded as u64, mapped: false, live: true }),
                ),
                allocated: (old(device)@.allocated + padded) as u64,
                ..old(device)@
            })
        }),
{
    proof {
        lemma_round_up(size as int, non_coherent_alignment as int);
    }
    let q: u64 = (size + (non_coherent_alignment - 1)) / non_coherent_alignment;
    proof {
        assert(size <= q * non_coherent_alignment < size + non_coherent_alignment)
            by (nonlinear_arith)
            requires
                q == (size as int + non_coherent_alignment as int - 1)
                    / non_coherent_alignment as int,
                1 <= size,
                1 <= non_coherent_alignment,
        ;
    }
    let padded: u64 = q * non_coherent_alignment;
    proof {
        assert(padded == round_up(size as int, non_coherent_alignment as int));
    }
    let buffer = match device.create_buffer(padded, usage) {
        Ok(b) => b,
        Err(_) => {
            proof {
                assert(false);
            }
            Buffer { index: 0 }
        },
    };
    let requirements = device.get_buffer_requirements(buffer);
    let memory = match device.allocate_memory(MemoryTypeId { index: 0 }, requirements.size) {
        Ok(m) => m,
        Err(_) => {
            proof {
                assert(false);
            }
            Memory { index: 0 }
        },
    };
    let bound = device.bind_buffer_memory(memory, 0, buffer);
    proof {
        assert(bound is Ok);
        assert(final(device)@.buffers =~= old(device)@.buffers.push(
            BufferSlot {
                size: padded,
                usage,
                memory: Some((memory.index, 0)),
                live: true,
            },
        ));
    }
    (buffer, memory)
}

/// Creates a padded, bound buffer as [`create_empty_buffer`] does, and
/// performs the host-upload sequence for `data_len` bytes of content:
/// map, flush, unmap. The device model keeps no byte contents, so the
/// resources end in the same state as a fresh bound buffer.
pub fn upload_to_buffer(
    device: &mut Device,
    non_coherent_alignment: u64,
    usage: Usage,
    data_len: u64,
) -> (r: (Buffer, Memory))
    requires
        old(device)@.wf(),
        data_len > 0,
        non_coherent_alignment >= 1,
        data_len + non_coherent_alignment - 1 <= u64::MAX,
        old(device)@.allocated + round_up(data_len as int, non_coherent_alignment as int) <= old(
            device,
        )@.heap_size,
    ensures
        final(device)@.wf(),
        ({
            let padded = round_up(data_len as int, non_coherent_alignment as int);
            let buffer_index = old(device)@.buffers.len();
            let memory_index = old(device)@.memories.len();
            &&& r.0.index == buffer_index
            &&& r.1.index == memory_index
            &&& final(device)@ == (DeviceView {
                buffers: old(device)@.buffers.push(
                    (BufferSlot {
                        size: padded as u64,
                        usage,
                        memory: Some((memory_index as usize, 0)),
                        live: true,
                    }),
                ),
                memories: old(device)@.memories.push(
                    (MemorySlot { size: padded as u64, mapped: false, live: true }),
                ),
                allocated: (old(device)@.allocated + padded) as u64,
                ..old(device)@
            })
        }),
{
    let (buffer, memory) = create_empty_buffer(device, non_coherent_alignment, usage, data_len);
    let mapped = device.map_memory(memory);
    proof {
        assert(mapped is Ok);
    }
    let flushed = device.flush_mapped_memory_ranges(memory);
    proof {
        assert(flushed is Ok);
    }
    device.unmap_memory(memory);
    proof {
        assert(final(device)@.memories =~= old(device)@.memories.push(
            MemorySlot {
                size: round_up(data_len as int, non_coherent_alignment as int) as u64,
                mapped: false,
                live: true,
            },
        ));
    }
    (buffer, memory)
}

/// Computes the total geometry cost of `geometries` with the paired
/// primitive counts. The result is exact: a 128-bit total cannot
/// overflow for any vector that fits in memory.
pub fn geometry_cost_exec(geometries: &Vec<Geometry>, counts: &Vec<u32>) -> (r: u128)
    requires
        geometries@.len() == counts@.len(),
    ensures
        r == geometry_cost(geometries@, counts@, geometries@.len() as int),
{
    let n = geometries.len();
    let mut total: u128 = 0;
    let mut i: usize = 0;
    while i < n
        invariant
            n == geometries@.len() == counts@.len(),
            0 <= i <= n,
            total == geometry_cost(geometries@, counts@, i as int),
            total <= (i as int) * 0x40_0000_0000,
        decreases n - i,
    {
        let size: u128 = match geometries[i].geometry {
            GeometryData::Triangles(_) => TRIANGLE_PRIM_SIZE as u128,
            GeometryData::Aabbs(_) => AABB_PRIM_SIZE as u128,
            GeometryData::Instances(_) => INSTANCE_PRIM_SIZE as u128,
        };
        let c: u128 = counts[i] as u128;
        proof {
            assert(0 <= c * size <= 0x40_0000_0000) by (nonlinear_arith)
                requires
                    0 <= c <= 0xFFFF_FFFFu128,
                    0 <= size <= 64,
            ;
        }
        let term: u128 = c * size;
        proof {
            assert(term == counts@[i as int] * prim_size(geometries@[i as int].geometry));
        }
        total = total + term;
        i = i + 1;
    }
    total
}

} // verus!
