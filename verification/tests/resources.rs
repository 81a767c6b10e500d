//! Tests of resource lifecycles and of the bit-set operations the flag
//! types offer.

use accel_hal::accel::{
    Flags, GeometryFlags, InstanceFlags, ALLOW_COMPACTION, ALLOW_UPDATE,
    NO_DUPLICATE_ANY_HIT_INVOCATION, OPAQUE, TRIANGLE_FACING_CULL_DISABLE,
};
use accel_hal::device::{Device, QueryType};
use accel_hal::memory::{MemoryTypeId, Usage};

#[test]
fn flag_set_operations() {
    let both = Flags::allow_update().union(Flags::allow_compaction());
    assert_eq!(both.bits, ALLOW_UPDATE | ALLOW_COMPACTION);
    assert!(both.contains(Flags::allow_update()));
    assert!(both.contains(Flags::allow_compaction()));
    assert!(!Flags::empty().contains(Flags::allow_update()));

    let geometry_flags = GeometryFlags::opaque().union(GeometryFlags {
        bits: NO_DUPLICATE_ANY_HIT_INVOCATION,
    });
    assert_eq!(geometry_flags.bits, OPAQUE | NO_DUPLICATE_ANY_HIT_INVOCATION);
    assert!(geometry_flags.contains(GeometryFlags::opaque()));

    let instance_flags = InstanceFlags::force_opaque().union(InstanceFlags {
        bits: TRIANGLE_FACING_CULL_DISABLE,
    });
    assert!(instance_flags.contains(InstanceFlags::force_opaque()));
    assert!(!InstanceFlags::empty().contains(instance_flags));
}

#[test]
fn buffer_requirements_report_the_creation_size() {
    let mut device = Device::new(65536, 1);
    let buffer = device.create_buffer(300, Usage::empty()).unwrap();
    let requirements = device.get_buffer_requirements(buffer);
    assert_eq!(requirements.size, 300);
    assert_eq!(requirements.alignment, 1);
    assert_eq!(requirements.type_mask & 1, 1);
}

#[test]
fn destroyed_resources_are_retired() {
    let mut device = Device::new(65536, 1);
    let buffer = device.create_buffer(64, Usage::empty()).unwrap();
    device.destroy_buffer(buffer);
    assert!(!device.buffers[buffer.index].live);
    let pool = device
        .create_query_pool(QueryType::AccelerationStructureCompactedSize, 1)
        .unwrap();
    device.destroy_query_pool(pool);
    assert!(!device.pools[pool.index].live);
}

#[test]
fn fences_can_be_reset() {
    let mut device = Device::new(65536, 1);
    let fence = device.create_fence(true).unwrap();
    assert_eq!(device.wait_for_fence(fence, 0), Ok(true));
    device.reset_fence(fence);
    assert_eq!(device.wait_for_fence(fence, 0), Ok(false));
}

#[test]
fn freed_memory_returns_to_the_heap() {
    let mut device = Device::new(1000, 1);
    let memory = device.allocate_memory(MemoryTypeId { index: 0 }, 1000).unwrap();
    assert_eq!(device.allocated, 1000);
    device.free_memory(memory);
    assert_eq!(device.allocated, 0);
    assert!(!device.memories[memory.index].live);
}
