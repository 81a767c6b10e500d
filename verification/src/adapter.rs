//! The physical device and queue-family layer: opening a logical device
//! with its queues, and the memory types, heaps and limits the device
//! reports.

use vstd::prelude::*;

use crate::Error;
use crate::command::CommandQueue;
use crate::device::{Device, DeviceView, fresh_device};
use crate::memory::{MemoryHeap, MemoryProperties, MemoryType, Properties, CPU_CACHED, CPU_VISIBLE, COHERENT, DEVICE_LOCAL};

verus! {

/// The size of the single memory heap the device offers.
pub const DEVICE_HEAP_SIZE: u64 = 65536;

/// The flush granularity the device reports for host-visible uploads.
pub const NON_COHERENT_ATOM_SIZE: u64 = 1;

/// What kinds of work a queue family accepts.
#[derive(Clone, Copy, PartialEq, Eq, Structural, Debug)]
pub enum QueueType {
    /// Graphics, compute and transfer work.
    General,
    /// Graphics and transfer work.
    Graphics,
    /// Compute and transfer work.
    Compute,
    /// Transfer work only.
    Transfer,
}

/// Identifies a queue family of a physical device.
#[derive(Clone, Copy, PartialEq, Eq, Structural, Debug)]
pub struct QueueFamilyId {
    pub index: usize,
}

/// The single queue family the device offers.
#[derive(Clone, Copy, Debug)]
pub struct QueueFamily;

impl QueueFamily {
    /// The family accepts every kind of work.
    pub fn queue_type(&self) -> (r: QueueType)
        ensures
            r == QueueType::General,
    {
        QueueType::General
    }

    /// The family offers a single queue.
    pub fn max_queues(&self) -> (r: usize)
        ensures
            r == 1,
    {
        1
    }

    /// The family's identifier.
    pub fn id(&self) -> (r: QueueFamilyId)
        ensures
            r == (QueueFamilyId { index: 0 }),
    {
        QueueFamilyId { index: 0 }
    }
}

/// The device limits relevant to buffer uploads.
#[derive(Clone, Copy, PartialEq, Eq, Structural, Debug)]
pub struct Limits {
    /// The granularity host-visible uploads must be padded to.
    pub non_coherent_atom_size: u64,
    /// The row alignment buffer-image copies must respect.
    pub optimal_buffer_copy_pitch_alignment: u64,
}

/// One group of queues of a single family, handed out when a device is
/// opened.
#[derive(Debug)]
pub struct QueueGroup {
    /// The family all queues of the group belong to.
    pub family: QueueFamilyId,
    /// The queues themselves.
    pub queues: Vec<CommandQueue>,
}

/// An opened logical device with its queues.
#[derive(Debug)]
pub struct Gpu {
    /// The logical device.
    pub device: Device,
    /// One queue group per requested family.
    pub queue_groups: Vec<QueueGroup>,
}

/// The single physical device the crate exposes.
#[derive(Clone, Copy, Debug)]
pub struct PhysicalDevice;

impl PhysicalDevice {
    /// Opens a logical device with the requested queues: exactly one
    /// family with exactly one queue. The fresh device owns no resources
    /// and has the full heap available.
    pub fn open(&self, families: &Vec<(QueueFamily, usize)>) -> (r: Result<Gpu, Error>)
        requires
            families@.len() == 1,
            families@[0].1 == 1,
        ensures
            r is Ok,
            (r->Ok_0).device@ == fresh_device(DEVICE_HEAP_SIZE, NON_COHERENT_ATOM_SIZE),
            (r->Ok_0).queue_groups@.len() == 1,
            (r->Ok_0).queue_groups@[0].family == (QueueFamilyId { index: 0 }),
            (r->Ok_0).queue_groups@[0].queues@.len() == 1,
    {
        let device = Device::new(DEVICE_HEAP_SIZE, NON_COHERENT_ATOM_SIZE);
        let mut queues: Vec<CommandQueue> = Vec::new();
        queues.push(CommandQueue);
        let mut queue_groups: Vec<QueueGroup> = Vec::new();
        queue_groups.push(QueueGroup { family: QueueFamilyId { index: 0 }, queues });
        Ok(Gpu { device, queue_groups })
    }

    /// The memory types and heaps the device offers: one host-visible,
    /// coherent, device-local type drawing from one heap.
    pub fn memory_properties(&self) -> (r: MemoryProperties)
        ensures
            r.memory_types@.len() == 1,
            r.memory_types@[0] == (MemoryType {
                properties: (Properties {
                    bits: DEVICE_LOCAL | CPU_VISIBLE | COHERENT | CPU_CACHED,
                }),
                heap_index: 0,
            }),
            r.memory_heaps@.len() == 1,
            r.memory_heaps@[0] == (MemoryHeap { size: DEVICE_HEAP_SIZE }),
    {
        let mut memory_types: Vec<MemoryType> = Vec::new();
        memory_types.push(
            MemoryType {
                properties: Properties { bits: DEVICE_LOCAL | CPU_VISIBLE | COHERENT | CPU_CACHED },
                heap_index: 0,
            },
        );
        let mut memory_heaps: Vec<MemoryHeap> = Vec::new();
        memory_heaps.push(MemoryHeap { size: DEVICE_HEAP_SIZE });
        MemoryProperties { memory_types, memory_heaps }
    }

    /// The device limits.
    pub fn limits(&self) -> (r: Limits)
        ensures
            r == (Limits {
                non_coherent_atom_size: NON_COHERENT_ATOM_SIZE,
                optimal_buffer_copy_pitch_alignment: 1,
            }),
    {
        Limits {
            non_coherent_atom_size: NON_COHERENT_ATOM_SIZE,
            optimal_buffer_copy_pitch_alignment: 1,
        }
    }
}

} // verus!
