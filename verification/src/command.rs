//! The command-stream state machine: command buffers record build, copy,
//! property-write and barrier commands; a queue submission executes them
//! against a device.
//!
//! Commands take effect only at submission. Within one command buffer
//! they execute in recorded order, but the device performs no hazard
//! tracking on the caller's behalf: a command that consumes an
//! acceleration structure whose write has not been separated from it by
//! a barrier is invalid. Executing any invalid command loses the device.
//! The function [`step`] is the complete definition of what one command
//! does; a submission's contract says the device ends in exactly the
//! state reached by stepping through the recorded commands.

use vstd::prelude::*;

use crate::{AccelerationStructure, Buffer, Error, Fence, QueryPool};
use crate::accel::{
    BuildDesc, BuildRangeDesc, CopyMode, Flags, Geometry, GeometryDesc, Type, desc_wf,
    ALLOW_COMPACTION, ALLOW_UPDATE,
};
use crate::device::{
    AccelSlot, AsState, Device, DeviceView, FenceSlot, QueryPoolSlot, QueryPoolView, QueryType,
    geometry_cost, geometry_cost_exec, lemma_geometry_cost_bounds, spec_build_scratch,
    ACCEL_STRUCTURE_BASE_SIZE, BUILD_SCRATCH_BASE_SIZE, UPDATE_SCRATCH_BASE_SIZE,
};
use crate::device::{spec_compacted_size, spec_serialized_size};

verus! {

/// The level of a command buffer; only primary command buffers can be
/// submitted to a queue.
#[derive(Clone, Copy, PartialEq, Eq, Structural, Debug)]
pub enum Level {
    Primary,
    Secondary,
}

/// One recorded command.
#[derive(Clone, Debug)]
pub enum Command {
    /// Build or update the destination structure from geometry data.
    Build {
        /// The structure an incremental update starts from.
        src: Option<AccelerationStructure>,
        /// The structure being written.
        dst: AccelerationStructure,
        /// The geometry written into the destination.
        geometry: GeometryDesc,
        /// The buffer providing scratch space.
        scratch: Buffer,
        /// The offset into the scratch buffer.
        scratch_offset: u64,
        /// One primitive range per geometry.
        ranges: Vec<BuildRangeDesc>,
    },
    /// Copy the source structure into the destination.
    Copy {
        src: AccelerationStructure,
        dst: AccelerationStructure,
        mode: CopyMode,
    },
    /// Write one property of each listed structure into consecutive
    /// cells of a query pool.
    WriteProperties {
        structures: Vec<AccelerationStructure>,
        query_type: QueryType,
        pool: QueryPool,
        first_query: u32,
    },
    /// Make every acceleration-structure write recorded before this
    /// point visible to the commands after it.
    Barrier,
}

/// The abstract form of one recorded command.
pub enum CommandView {
    Build {
        src: Option<AccelerationStructure>,
        dst: AccelerationStructure,
        flags: Flags,
        ty: Type,
        geometries: Seq<Geometry>,
        scratch: Buffer,
        scratch_offset: u64,
        ranges: Seq<BuildRangeDesc>,
    },
    Copy { src: AccelerationStructure, dst: AccelerationStructure, mode: CopyMode },
    WriteProperties {
        structures: Seq<AccelerationStructure>,
        query_type: QueryType,
        pool: QueryPool,
        first_query: u32,
    },
    Barrier,
}

impl View for Command {
    type V = CommandView;

    open spec fn view(&self) -> CommandView {
        match self {
            Command::Build { src, dst, geometry, scratch, scratch_offset, ranges } =>
                CommandView::Build {
                    src: *src,
                    dst: *dst,
                    flags: geometry.flags,
                    ty: geometry.ty,
                    geometries: geometry.geometries@,
                    scratch: *scratch,
                    scratch_offset: *scratch_offset,
                    ranges: ranges@,
                },
            Command::Copy { src, dst, mode } => CommandView::Copy {
                src: *src,
                dst: *dst,
                mode: *mode,
            },
            Command::WriteProperties { structures, query_type, pool, first_query } =>
                CommandView::WriteProperties {
                    structures: structures@,
                    query_type: *query_type,
                    pool: *pool,
                    first_query: *first_query,
                },
            Command::Barrier => CommandView::Barrier,
        }
    }
}

/// The primitive count of each range, in order.
pub open spec fn range_counts(ranges: Seq<BuildRangeDesc>) -> Seq<u32> {
    ranges.map(|i: int, r: BuildRangeDesc| r.primitive_count)
}

/// Whether a build command is valid against the device state: a live,
/// non-generic destination of the declared type with no unsynchronized
/// write, a well-formed geometry description with one range per
/// geometry, a live, bound scratch buffer whose region is large enough,
/// a destination sized for the geometry whose backing buffer is bound,
/// and, for an update, a live source built with update support, itself
/// synchronized, with updating requested again by the build flags.
pub open spec fn valid_build(
    s: DeviceView,
    src: Option<AccelerationStructure>,
    dst: AccelerationStructure,
    flags: Flags,
    ty: Type,
    geometries: Seq<Geometry>,
    scratch: Buffer,
    scratch_offset: u64,
    ranges: Seq<BuildRangeDesc>,
) -> bool {
    let counts = range_counts(ranges);
    let cost = geometry_cost(geometries, counts, geometries.len() as int);
    let required_scratch = if src is Some {
        UPDATE_SCRATCH_BASE_SIZE + cost
    } else {
        spec_build_scratch(geometries, counts)
    };
    &&& dst.index < s.accels.len()
    &&& s.accels[dst.index as int].live
    &&& !s.accels[dst.index as int].pending_write
    &&& !(ty is Generic)
    &&& s.accels[dst.index as int].ty == ty
    &&& desc_wf(ty, geometries)
    &&& ranges.len() == geometries.len()
    &&& scratch.index < s.buffers.len()
    &&& s.buffers[scratch.index as int].live
    &&& s.buffers[scratch.index as int].memory is Some
    &&& s.accels[dst.index as int].buffer < s.buffers.len()
    &&& s.buffers[s.accels[dst.index as int].buffer as int].memory is Some
    &&& ACCEL_STRUCTURE_BASE_SIZE + cost <= s.accels[dst.index as int].size
    &&& scratch_offset + required_scratch <= s.buffers[scratch.index as int].size
    &&& match src {
        None => true,
        Some(h) => {
            &&& h.index < s.accels.len()
            &&& s.accels[h.index as int].live
            &&& (s.accels[h.index as int].state is Built || s.accels[h.index as int].state
                is Updated)
            &&& !s.accels[h.index as int].pending_write
            &&& s.accels[h.index as int].built_flags.bits & ALLOW_UPDATE == ALLOW_UPDATE
            &&& flags.bits & ALLOW_UPDATE == ALLOW_UPDATE
        },
    }
}

/// The device state after a valid build: the destination becomes built
/// (or updated, when a source was given), remembers the build's flags
/// and geometry cost, and carries an unsynchronized write.
pub open spec fn apply_build(
    s: DeviceView,
    src: Option<AccelerationStructure>,
    dst: AccelerationStructure,
    flags: Flags,
    geometries: Seq<Geometry>,
    ranges: Seq<BuildRangeDesc>,
) -> DeviceView {
    let cost = geometry_cost(geometries, range_counts(ranges), geometries.len() as int);
    DeviceView {
        accels: s.accels.update(
            dst.index as int,
            AccelSlot {
                state: if src is Some {
                    AsState::Updated
                } else {
                    AsState::Built
                },
                built_flags: flags,
                built_cost: cost as u64,
                pending_write: true,
                ..s.accels[dst.index as int]
            },
        ),
        ..s
    }
}

/// Whether a copy command is valid: distinct live source and
/// destination, the source built and synchronized, the destination
/// synchronized, and, by mode, either a destination created with the
/// source's parameters (plain copy) or a destination of the source's
/// type at least as large as the source's compacted size, the source
/// having allowed compaction (compacting copy).
pub open spec fn valid_copy(
    s: DeviceView,
    src: AccelerationStructure,
    dst: AccelerationStructure,
    mode: CopyMode,
) -> bool {
    &&& src.index < s.accels.len()
    &&& dst.index < s.accels.len()
    &&& src.index != dst.index
    &&& s.accels[src.index as int].live
    &&& s.accels[dst.index as int].live
    &&& (s.accels[src.index as int].state is Built || s.accels[src.index as int].state is Updated
        || s.accels[src.index as int].state is Compacted)
    &&& !s.accels[src.index as int].pending_write
    &&& !s.accels[dst.index as int].pending_write
    &&& match mode {
        CopyMode::Copy => s.accels[dst.index as int].ty == s.accels[src.index as int].ty
            && s.accels[dst.index as int].size == s.accels[src.index as int].size,
        CopyMode::Compact => s.accels[dst.index as int].ty == s.accels[src.index as int].ty
            && s.accels[src.index as int].built_flags.bits & ALLOW_COMPACTION == ALLOW_COMPACTION
            && spec_compacted_size(s.accels[src.index as int].built_cost)
                <= s.accels[dst.index as int].size,
    }
}

/// The device state after a valid copy: the destination takes over the
/// source's contents (its state for a plain copy, the compacted state
/// for a compacting one) and carries an unsynchronized write.
pub open spec fn apply_copy(
    s: DeviceView,
    src: AccelerationStructure,
    dst: AccelerationStructure,
    mode: CopyMode,
) -> DeviceView {
    DeviceView {
        accels: s.accels.update(
            dst.index as int,
            AccelSlot {
                state: match mode {
                    CopyMode::Copy => s.accels[src.index as int].state,
                    CopyMode::Compact => AsState::Compacted,
                },
                built_flags: s.accels[src.index as int].built_flags,
                built_cost: s.accels[src.index as int].built_cost,
                pending_write: true,
                ..s.accels[dst.index as int]
            },
        ),
        ..s
    }
}

/// The value a property query writes for a structure of the given
/// geometry cost.
pub open spec fn query_value(query_type: QueryType, built_cost: u64) -> u64 {
    match query_type {
        QueryType::AccelerationStructureCompactedSize => spec_compacted_size(built_cost),
        QueryType::AccelerationStructureSerializationSize => spec_serialized_size(built_cost),
    }
}

/// Whether a property-write command is valid: a live pool of the
/// requested query kind with room for one cell per structure starting at
/// `first_query`, and every listed structure live, built and
/// synchronized, with compaction allowed by its build when the compacted
/// size is asked for.
pub open spec fn valid_write_properties(
    s: DeviceView,
    structures: Seq<AccelerationStructure>,
    query_type: QueryType,
    pool: QueryPool,
    first_query: u32,
) -> bool {
    &&& pool.index < s.pools.len()
    &&& s.pools[pool.index as int].live
    &&& s.pools[pool.index as int].ty == query_type
    &&& first_query + structures.len() <= s.pools[pool.index as int].results.len()
    &&& forall|k: int| 0 <= k < structures.len() ==> {
        let h = #[trigger] structures[k];
        &&& h.index < s.accels.len()
        &&& s.accels[h.index as int].live
        &&& (s.accels[h.index as int].state is Built || s.accels[h.index as int].state is Updated
            || s.accels[h.index as int].state is Compacted)
        &&& !s.accels[h.index as int].pending_write
        &&& (query_type is AccelerationStructureCompactedSize ==> s.accels[h.index
            as int].built_flags.bits & ALLOW_COMPACTION == ALLOW_COMPACTION)
    }
}

/// The device state after a valid property write: the pool's cells from
/// `first_query` on hold the queried value of each structure, in order;
/// every other cell keeps its value.
pub open spec fn apply_write_properties(
    s: DeviceView,
    structures: Seq<AccelerationStructure>,
    query_type: QueryType,
    pool: QueryPool,
    first_query: u32,
) -> DeviceView {
    let pv = s.pools[pool.index as int];
    let written = Seq::new(
        pv.results.len(),
        |j: int|
            if first_query <= j < first_query + structures.len() {
                Some(query_value(query_type, s.accels[structures[j - first_query].index as int].built_cost))
            } else {
                pv.results[j]
            },
    );
    DeviceView {
        pools: s.pools.update(pool.index as int, QueryPoolView { results: written, ..pv }),
        ..s
    }
}

/// The device state after a barrier: every acceleration structure's
/// pending write becomes visible.
pub open spec fn apply_barrier(s: DeviceView) -> DeviceView {
    DeviceView {
        accels: s.accels.map(|i: int, a: AccelSlot| AccelSlot { pending_write: false, ..a }),
        ..s
    }
}

/// Whether a command is valid against the device state.
pub open spec fn valid_command(s: DeviceView, c: CommandView) -> bool {
    match c {
        CommandView::Build { src, dst, flags, ty, geometries, scratch, scratch_offset, ranges } =>
            valid_build(s, src, dst, flags, ty, geometries, scratch, scratch_offset, ranges),
        CommandView::Copy { src, dst, mode } => valid_copy(s, src, dst, mode),
        CommandView::WriteProperties { structures, query_type, pool, first_query } =>
            valid_write_properties(s, structures, query_type, pool, first_query),
        CommandView::Barrier => true,
    }
}

/// The device state after a valid command.
pub open spec fn apply_command(s: DeviceView, c: CommandView) -> DeviceView {
    match c {
        CommandView::Build { src, dst, flags, ty, geometries, scratch, scratch_offset, ranges } =>
            apply_build(s, src, dst, flags, geometries, ranges),
        CommandView::Copy { src, dst, mode } => apply_copy(s, src, dst, mode),
        CommandView::WriteProperties { structures, query_type, pool, first_query } =>
            apply_write_properties(s, structures, query_type, pool, first_query),
        CommandView::Barrier => apply_barrier(s),
    }
}

/// One execution step: a lost device stays lost, an invalid command
/// loses the device, a valid one takes effect.
pub open spec fn step(s: DeviceView, c: CommandView) -> DeviceView {
    if s.lost {
        s
    } else if !valid_command(s, c) {
        DeviceView { lost: true, ..s }
    } else {
        apply_command(s, c)
    }
}

/// The device state after executing the first `n` recorded commands.
pub open spec fn run_prefix(s: DeviceView, commands: Seq<CommandView>, n: int) -> DeviceView
    decreases n,
{
    if n <= 0 {
        s
    } else {
        step(run_prefix(s, commands, n - 1), commands[n - 1])
    }
}

/// The device state after executing all recorded commands.
pub open spec fn run_commands(s: DeviceView, commands: Seq<CommandView>) -> DeviceView {
    run_prefix(s, commands, commands.len() as int)
}

/// Execution never touches buffers, memory, fences or the heap
/// accounting, so a well-formed device stays well-formed; and a lost
/// state absorbs every later step.
pub proof fn lemma_run_prefix_frame(s: DeviceView, commands: Seq<CommandView>, n: int)
    ensures
        run_prefix(s, commands, n).buffers == s.buffers,
        run_prefix(s, commands, n).memories == s.memories,
        run_prefix(s, commands, n).fences == s.fences,
        run_prefix(s, commands, n).allocated == s.allocated,
        run_prefix(s, commands, n).heap_size == s.heap_size,
        run_prefix(s, commands, n).non_coherent_atom_size == s.non_coherent_atom_size,
        s.wf() ==> run_prefix(s, commands, n).wf(),
        s.lost ==> run_prefix(s, commands, n) == s,
    decreases n,
{
    if n > 0 {
        lemma_run_prefix_frame(s, commands, n - 1);
    }
}

/// Once a prefix of the commands has lost the device, running further
/// commands changes nothing.
pub proof fn lemma_run_prefix_lost(s: DeviceView, commands: Seq<CommandView>, m: int, n: int)
    requires
        0 <= m <= n,
        run_prefix(s, commands, m).lost,
    ensures
        run_prefix(s, commands, n) == run_prefix(s, commands, m),
    decreases n - m,
{
    if m < n {
        lemma_run_prefix_lost(s, commands, m, n - 1);
    }
}

/// A copy of a vector of plain values.
fn copy_values<T: Copy>(values: &Vec<T>) -> (r: Vec<T>)
    ensures
        r@ == values@,
{
    let mut copied: Vec<T> = Vec::new();
    let n = values.len();
    let mut i: usize = 0;
    while i < n
        invariant
            n == values@.len(),
            i <= n,
            copied@ == values@.take(i as int),
        decreases n - i,
    {
        copied.push(values[i]);
        proof {
            assert(copied@ =~= values@.take(i as int + 1));
        }
        i = i + 1;
    }
    proof {
        assert(values@.take(n as int) =~= values@);
    }
    copied
}

/// The abstract state of a command buffer: the recorded commands and
/// whether recording is finished.
#[verifier::ext_equal]
pub struct CommandBufferView {
    pub commands: Seq<CommandView>,
    pub finished: bool,
}

/// A command buffer recording commands for one submission.
#[derive(Debug)]
pub struct CommandBuffer {
    pub commands: Vec<Command>,
    pub finished: bool,
}

impl View for CommandBuffer {
    type V = CommandBufferView;

    open spec fn view(&self) -> CommandBufferView {
        CommandBufferView {
            commands: self.commands@.map(|i: int, c: Command| c@),
            finished: self.finished,
        }
    }
}

impl CommandBuffer {
    /// Starts recording, discarding anything recorded before.
    pub fn begin(&mut self)
        ensures
            final(self)@.commands.len() == 0,
            !final(self)@.finished,
    {
        self.commands = Vec::new();
        self.finished = false;
        proof {
            assert(self.commands@.map(|i: int, c: Command| c@) =~= Seq::<CommandView>::empty());
        }
    }

    /// Ends recording; the buffer can then be submitted.
    pub fn finish(&mut self)
        ensures
            final(self)@ == (CommandBufferView { finished: true, ..old(self)@ }),
    {
        self.finished = true;
    }

    /// Records a build of `desc.dst` from the geometry in `desc`, paired
    /// with one primitive range per geometry.
    pub fn build_acceleration_structures(&mut self, desc: &BuildDesc, ranges: &Vec<BuildRangeDesc>)
        requires
            !old(self)@.finished,
            ranges@.len() == desc.geometry.geometries@.len(),
        ensures
            final(self)@ == (CommandBufferView {
                commands: old(self)@.commands.push(
                    (CommandView::Build {
                        src: desc.src,
                        dst: desc.dst,
                        flags: desc.geometry.flags,
                        ty: desc.geometry.ty,
                        geometries: desc.geometry.geometries@,
                        scratch: desc.scratch,
                        scratch_offset: desc.scratch_offset,
                        ranges: ranges@,
                    }),
                ),
                ..old(self)@
            }),
    {
        let ghost prior = self.commands@.map(|i: int, c: Command| c@);
        let geometry = GeometryDesc {
            flags: desc.geometry.flags,
            ty: desc.geometry.ty,
            geometries: copy_values(&desc.geometry.geometries),
        };
        self.commands.push(
            Command::Build {
                src: desc.src,
                dst: desc.dst,
                geometry,
                scratch: desc.scratch,
                scratch_offset: desc.scratch_offset,
                ranges: copy_values(ranges),
            },
        );
        proof {
            assert(self.commands@.map(|i: int, c: Command| c@) =~= prior.push(
                CommandView::Build {
                    src: desc.src,
                    dst: desc.dst,
                    flags: desc.geometry.flags,
                    ty: desc.geometry.ty,
                    geometries: desc.geometry.geometries@,
                    scratch: desc.scratch,
                    scratch_offset: desc.scratch_offset,
                    ranges: ranges@,
                },
            ));
        }
    }

    /// Records a copy of `src` into `dst`.
    pub fn copy_acceleration_structure(
        &mut self,
        src: AccelerationStructure,
        dst: AccelerationStructure,
        mode: CopyMode,
    )
        requires
            !old(self)@.finished,
        ensures
            final(self)@ == (CommandBufferView {
                commands: old(self)@.commands.push((CommandView::Copy { src, dst, mode })),
                ..old(self)@
            }),
    {
        let ghost prior = self.commands@.map(|i: int, c: Command| c@);
        self.commands.push(Command::Copy { src, dst, mode });
        proof {
            assert(self.commands@.map(|i: int, c: Command| c@) =~= prior.push(
                CommandView::Copy { src, dst, mode },
            ));
        }
    }

    /// Records a write of one property of each listed structure into
    /// consecutive cells of a query pool, starting at `first_query`.
    pub fn write_acceleration_structures_properties(
        &mut self,
        structures: &Vec<AccelerationStructure>,
        query_type: QueryType,
        pool: QueryPool,
        first_query: u32,
    )
        requires
            !old(self)@.finished,
        ensures
            final(self)@ == (CommandBufferView {
                commands: old(self)@.commands.push(
                    (CommandView::WriteProperties {
                        structures: structures@,
                        query_type,
                        pool,
                        first_query,
                    }),
                ),
                ..old(self)@
            }),
    {
        let ghost prior = self.commands@.map(|i: int, c: Command| c@);
        self.commands.push(
            Command::WriteProperties {
                structures: copy_values(structures),
                query_type,
                pool,
                first_query,
            },
        );
        proof {
            assert(self.commands@.map(|i: int, c: Command| c@) =~= prior.push(
                CommandView::WriteProperties {
                    structures: structures@,
                    query_type,
                    pool,
                    first_query,
                },
            ));
        }
    }

    /// Records a barrier making the acceleration-structure writes before
    /// it visible to the commands after it.
    pub fn pipeline_barrier(&mut self)
        requires
            !old(self)@.finished,
        ensures
            final(self)@ == (CommandBufferView {
                commands: old(self)@.commands.push(CommandView::Barrier),
                ..old(self)@
            }),
    {
        let ghost prior = self.commands@.map(|i: int, c: Command| c@);
        self.commands.push(Command::Barrier);
        proof {
            assert(self.commands@.map(|i: int, c: Command| c@) =~= prior.push(
                CommandView::Barrier,
            ));
        }
    }
}

/// The primitive count of each range, as a vector.
fn counts_of_ranges(ranges: &Vec<BuildRangeDesc>) -> (r: Vec<u32>)
    ensures
        r@ == range_counts(ranges@),
{
    let mut counts: Vec<u32> = Vec::new();
    let n = ranges.len();
    let mut i: usize = 0;
    while i < n
        invariant
            n == ranges@.len(),
            i <= n,
            counts@.len() == i as int,
            forall|j: int| 0 <= j < i ==> counts@[j] == ranges@[j].primitive_count,
        decreases n - i,
    {
        counts.push(ranges[i].primitive_count);
        i = i + 1;
    }
    proof {
        assert(counts@ =~= range_counts(ranges@));
    }
    counts
}

/// Executes one build command: checks its validity and, when valid,
/// writes the destination slot.
fn execute_build(
    device: &mut Device,
    src: Option<AccelerationStructure>,
    dst: AccelerationStructure,
    geometry: &GeometryDesc,
    scratch: Buffer,
    scratch_offset: u64,
    ranges: &Vec<BuildRangeDesc>,
) -> (r: bool)
    requires
        old(device)@.wf(),
    ensures
        final(device)@.wf(),
        r == valid_build(
            old(device)@,
            src,
            dst,
            geometry.flags,
            geometry.ty,
            geometry.geometries@,
            scratch,
            scratch_offset,
            ranges@,
        ),
        r ==> final(device)@ == apply_build(
            old(device)@,
            src,
            dst,
            geometry.flags,
            geometry.geometries@,
            ranges@,
        ),
        !r ==> final(device)@ == old(device)@,
{
    if dst.index >= device.accels.len() {
        return false;
    }
    let d = device.accels[dst.index];
    if !d.live || d.pending_write {
        return false;
    }
    let generic = match geometry.ty {
        Type::Generic => true,
        _ => false,
    };
    if generic {
        return false;
    }
    if !(d.ty == geometry.ty) {
        return false;
    }
    if !geometry.check_wf() {
        return false;
    }
    let n_geoms = geometry.geometries.len();
    if ranges.len() != n_geoms {
        return false;
    }
    if scratch.index >= device.buffers.len() {
        return false;
    }
    let sb = device.buffers[scratch.index];
    if !sb.live || sb.memory.is_none() {
        return false;
    }
    if d.buffer >= device.buffers.len() || device.buffers[d.buffer].memory.is_none() {
        return false;
    }
    let counts = counts_of_ranges(ranges);
    let cost = geometry_cost_exec(&geometry.geometries, &counts);
    proof {
        lemma_geometry_cost_bounds(geometry.geometries@, counts@, n_geoms as int);
    }
    if ACCEL_STRUCTURE_BASE_SIZE as u128 + cost > d.size as u128 {
        return false;
    }
    let required: u128 = if src.is_some() {
        UPDATE_SCRATCH_BASE_SIZE as u128 + cost
    } else if n_geoms == 0 {
        0
    } else {
        BUILD_SCRATCH_BASE_SIZE as u128 + cost
    };
    if scratch_offset as u128 + required > sb.size as u128 {
        return false;
    }
    match src {
        None => {},
        Some(h) => {
            if h.index >= device.accels.len() {
                return false;
            }
            let s0 = device.accels[h.index];
            if !s0.live {
                return false;
            }
            let updatable = match s0.state {
                AsState::Built => true,
                AsState::Updated => true,
                _ => false,
            };
            if !updatable {
                return false;
            }
            if s0.pending_write {
                return false;
            }
            if !(s0.built_flags.bits & ALLOW_UPDATE == ALLOW_UPDATE) {
                return false;
            }
            if !(geometry.flags.bits & ALLOW_UPDATE == ALLOW_UPDATE) {
                return false;
            }
        },
    }
    let cost64: u64 = cost as u64;
    device.accels[dst.index] = AccelSlot {
        state: if src.is_some() {
            AsState::Updated
        } else {
            AsState::Built
        },
        built_flags: geometry.flags,
        built_cost: cost64,
        pending_write: true,
        ..d
    };
    true
}

/// Executes one copy command: checks its validity and, when valid,
/// writes the destination slot.
fn execute_copy(
    device: &mut Device,
    src: AccelerationStructure,
    dst: AccelerationStructure,
    mode: CopyMode,
) -> (r: bool)
    requires
        old(device)@.wf(),
    ensures
        final(device)@.wf(),
        r == valid_copy(old(device)@, src, dst, mode),
        r ==> final(device)@ == apply_copy(old(device)@, src, dst, mode),
        !r ==> final(device)@ == old(device)@,
{
    if src.index >= device.accels.len() || dst.index >= device.accels.len() {
        return false;
    }
    if src.index == dst.index {
        return false;
    }
    let a = device.accels[src.index];
    let d = device.accels[dst.index];
    if !a.live || !d.live {
        return false;
    }
    let copyable = match a.state {
        AsState::Built => true,
        AsState::Updated => true,
        AsState::Compacted => true,
        AsState::Unbuilt => false,
    };
    if !copyable {
        return false;
    }
    if a.pending_write || d.pending_write {
        return false;
    }
    match mode {
        CopyMode::Copy => {
            if !(d.ty == a.ty) || d.size != a.size {
                return false;
            }
        },
        CopyMode::Compact => {
            if !(d.ty == a.ty) {
                return false;
            }
            if !(a.built_flags.bits & ALLOW_COMPACTION == ALLOW_COMPACTION) {
                return false;
            }
            if ACCEL_STRUCTURE_BASE_SIZE + a.built_cost / 2 > d.size {
                return false;
            }
        },
    }
    device.accels[dst.index] = AccelSlot {
        state: match mode {
            CopyMode::Copy => a.state,
            CopyMode::Compact => AsState::Compacted,
        },
        built_flags: a.built_flags,
        built_cost: a.built_cost,
        pending_write: true,
        ..d
    };
    true
}

/// Executes one property-write command: checks its validity and, when
/// valid, fills the pool's cells.
fn execute_write_properties(
    device: &mut Device,
    structures: &Vec<AccelerationStructure>,
    query_type: QueryType,
    pool: QueryPool,
    first_query: u32,
) -> (r: bool)
    requires
        old(device)@.wf(),
    ensures
        final(device)@.wf(),
        r == valid_write_properties(old(device)@, structures@, query_type, pool, first_query),
        r ==> final(device)@ == apply_write_properties(
            old(device)@,
            structures@,
            query_type,
            pool,
            first_query,
        ),
        !r ==> final(device)@ == old(device)@,
{
    let ghost prior = device@;
    if pool.index >= device.pools.len() {
        return false;
    }
    if !device.pools[pool.index].live {
        return false;
    }
    if !(device.pools[pool.index].ty == query_type) {
        return false;
    }
    let n_results = device.pools[pool.index].results.len();
    let n_structs = structures.len();
    if n_structs > n_results || first_query as usize > n_results - n_structs {
        return false;
    }
    let mut k: usize = 0;
    while k < n_structs
        invariant
            device@ == prior,
            prior == old(device)@,
            prior.wf(),
            n_structs == structures@.len(),
            k <= n_structs,
            forall|t: int| 0 <= t < k ==> {
                let h = #[trigger] structures@[t];
                &&& h.index < prior.accels.len()
                &&& prior.accels[h.index as int].live
                &&& (prior.accels[h.index as int].state is Built || prior.accels[h.index
                    as int].state is Updated || prior.accels[h.index as int].state is Compacted)
                &&& !prior.accels[h.index as int].pending_write
                &&& (query_type is AccelerationStructureCompactedSize ==> prior.accels[h.index
                    as int].built_flags.bits & ALLOW_COMPACTION == ALLOW_COMPACTION)
            },
        decreases n_structs - k,
    {
        let h = structures[k];
        if h.index >= device.accels.len() {
            return false;
        }
        let a = device.accels[h.index];
        if !a.live {
            return false;
        }
        let queryable = match a.state {
            AsState::Built => true,
            AsState::Updated => true,
            AsState::Compacted => true,
            AsState::Unbuilt => false,
        };
        if !queryable {
            return false;
        }
        if a.pending_write {
            return false;
        }
        let compacted_query = match query_type {
            QueryType::AccelerationStructureCompactedSize => true,
            QueryType::AccelerationStructureSerializationSize => false,
        };
        if compacted_query && !(a.built_flags.bits & ALLOW_COMPACTION == ALLOW_COMPACTION) {
            return false;
        }
        k = k + 1;
    }
    let ghost target = apply_write_properties(prior, structures@, query_type, pool, first_query);
    let mut written: Vec<Option<u64>> = Vec::new();
    let mut j: usize = 0;
    let first = first_query as usize;
    while j < n_results
        invariant
            device@ == prior,
            prior == old(device)@,
            prior.wf(),
            valid_write_properties(prior, structures@, query_type, pool, first_query),
            target == apply_write_properties(prior, structures@, query_type, pool, first_query),
            pool.index < device.pools@.len(),
            n_results == device.pools@[pool.index as int].results@.len(),
            n_structs == structures@.len(),
            first == first_query as int,
            first + n_structs <= n_results,
            j <= n_results,
            written@.len() == j as int,
            forall|t: int| 0 <= t < j ==> written@[t] == target.pools[pool.index as int].results[t],
        decreases n_results - j,
    {
        if j >= first && j < first + n_structs {
            let h = structures[j - first];
            proof {
                assert(structures@[j - first].index < prior.accels.len());
            }
            let cost = device.accels[h.index].built_cost;
            let value: u64 = match query_type {
                QueryType::AccelerationStructureCompactedSize => ACCEL_STRUCTURE_BASE_SIZE + cost
                    / 2,
                QueryType::AccelerationStructureSerializationSize => {
                    if cost <= u64::MAX - ACCEL_STRUCTURE_BASE_SIZE {
                        ACCEL_STRUCTURE_BASE_SIZE + cost
                    } else {
                        u64::MAX
                    }
                },
            };
            written.push(Some(value));
            proof {
                assert(value == query_value(query_type, prior.accels[structures@[j - first].index
                    as int].built_cost));
                assert(written@[j as int] == target.pools[pool.index as int].results[j as int]);
            }
        } else {
            written.push(device.pools[pool.index].results[j]);
            proof {
                assert(written@[j as int] == target.pools[pool.index as int].results[j as int]);
            }
        }
        j = j + 1;
    }
    let ty = device.pools[pool.index].ty;
    device.pools[pool.index] = QueryPoolSlot { ty, results: written, live: true };
    proof {
        assert(final(device).pools@.map(|i: int, p: QueryPoolSlot| p@)[pool.index as int].results
            =~= target.pools[pool.index as int].results);
        assert(final(device).pools@.map(|i: int, p: QueryPoolSlot| p@) =~= target.pools);
        assert(final(device)@ =~= target);
    }
    true
}

/// Executes a barrier: every pending acceleration-structure write
/// becomes visible.
fn execute_barrier(device: &mut Device)
    requires
        old(device)@.wf(),
    ensures
        final(device)@.wf(),
        final(device)@ == apply_barrier(old(device)@),
{
    let n = device.accels.len();
    let mut i: usize = 0;
    while i < n
        invariant
            n == device.accels@.len(),
            i <= n,
            device.buffers@ == old(device).buffers@,
            device.memories@ == old(device).memories@,
            device.pools@ == old(device).pools@,
            device.fences@ == old(device).fences@,
            device.allocated == old(device).allocated,
            device.heap_size == old(device).heap_size,
            device.non_coherent_atom_size == old(device).non_coherent_atom_size,
            device.lost == old(device).lost,
            n == old(device).accels@.len(),
            forall|j: int| 0 <= j < i ==> device.accels@[j] == (AccelSlot {
                pending_write: false,
                ..old(device).accels@[j]
            }),
            forall|j: int| i <= j < n ==> device.accels@[j] == old(device).accels@[j],
        decreases n - i,
    {
        let a = device.accels[i];
        device.accels[i] = AccelSlot { pending_write: false, ..a };
        i = i + 1;
    }
    proof {
        assert(device.accels@ =~= old(device).accels@.map(
            |j: int, a: AccelSlot| AccelSlot { pending_write: false, ..a },
        ));
        assert(final(device)@ =~= apply_barrier(old(device)@));
    }
}

/// Executes one command: checks its validity and, when valid, applies
/// its effect.
fn execute_command(device: &mut Device, command: &Command) -> (r: bool)
    requires
        old(device)@.wf(),
    ensures
        final(device)@.wf(),
        r == valid_command(old(device)@, command@),
        r ==> final(device)@ == apply_command(old(device)@, command@),
        !r ==> final(device)@ == old(device)@,
{
    match command {
        Command::Build { src, dst, geometry, scratch, scratch_offset, ranges } => execute_build(
            device,
            *src,
            *dst,
            geometry,
            *scratch,
            *scratch_offset,
            ranges,
        ),
        Command::Copy { src, dst, mode } => execute_copy(device, *src, *dst, *mode),
        Command::WriteProperties { structures, query_type, pool, first_query } =>
            execute_write_properties(device, structures, *query_type, *pool, *first_query),
        Command::Barrier => {
            execute_barrier(device);
            true
        },
    }
}

/// A queue commands are submitted to.
#[derive(Clone, Copy, Debug)]
pub struct CommandQueue;

impl CommandQueue {
    /// Submits a finished command buffer. The device executes the
    /// recorded commands in order; the first invalid command loses the
    /// device and fails the submission. On success the fence, if one is
    /// given, is signaled.
    pub fn submit(
        &mut self,
        device: &mut Device,
        command_buffer: &CommandBuffer,
        fence: Option<Fence>,
    ) -> (r: Result<(), Error>)
        requires
            old(device)@.wf(),
            command_buffer@.finished,
            match fence {
                None => true,
                Some(f) => f.index < old(device)@.fences.len() && old(device)@.fences[f.index
                    as int].live,
            },
        ensures
            final(device)@.wf(),
            ({
                let run = run_commands(old(device)@, command_buffer@.commands);
                if run.lost {
                    &&& r == Err::<(), Error>(Error::DeviceLost)
                    &&& final(device)@ == run
                } else {
                    &&& r == Ok::<(), Error>(())
                    &&& final(device)@ == (match fence {
                        None => run,
                        Some(f) => (DeviceView {
                            fences: run.fences.update(
                                f.index as int,
                                (FenceSlot { signaled: true, ..run.fences[f.index as int] }),
                            ),
                            ..run
                        }),
                    })
                }
            }),
    {
        let ghost commands = command_buffer@.commands;
        let n = command_buffer.commands.len();
        if device.lost {
            proof {
                lemma_run_prefix_frame(old(device)@, commands, n as int);
            }
            return Err(Error::DeviceLost);
        }
        let mut i: usize = 0;
        while i < n
            invariant
                old(device)@.wf(),
                n == command_buffer.commands@.len(),
                commands == command_buffer@.commands,
                i <= n,
                device@ == run_prefix(old(device)@, commands, i as int),
                !device@.lost,
                device@.wf(),
            decreases n - i,
        {
            let c = &command_buffer.commands[i];
            proof {
                assert(commands[i as int] == command_buffer.commands@[i as int]@);
            }
            let ok = execute_command(device, c);
            if !ok {
                device.lost = true;
                proof {
                    assert(device@ == run_prefix(old(device)@, commands, i as int + 1));
                    lemma_run_prefix_lost(old(device)@, commands, i as int + 1, n as int);
                    lemma_run_prefix_frame(old(device)@, commands, n as int);
                }
                return Err(Error::DeviceLost);
            }
            i = i + 1;
        }
        proof {
            lemma_run_prefix_frame(old(device)@, commands, n as int);
        }
        match fence {
            None => {},
            Some(f) => {
                let slot = device.fences[f.index];
                device.fences[f.index] = FenceSlot { signaled: true, ..slot };
            },
        }
        Ok(())
    }
}

/// A pool command buffers are allocated from.
#[derive(Clone, Copy, Debug)]
pub struct CommandPool;

impl CommandPool {
    /// Allocates one command buffer; only primary command buffers are
    /// supported.
    pub fn allocate_one(&mut self, level: Level) -> (r: CommandBuffer)
        requires
            level == Level::Primary,
        ensures
            r@.commands.len() == 0,
            !r@.finished,
    {
        let buffer = CommandBuffer { commands: Vec::new(), finished: false };
        proof {
            assert(buffer.commands@.map(|i: int, c: Command| c@) =~= Seq::<CommandView>::empty());
        }
        buffer
    }
}

} // verus!
