//! Tests of the in-place update path, the plain copy mode, and the
//! host-mapping operations.

use accel_hal::accel::{
    BuildDesc, BuildRangeDesc, CopyMode, Flags, Format, Geometry, GeometryData, GeometryDesc,
    GeometryFlags, GeometryTriangles, CreateDesc, Type,
};
use accel_hal::adapter::{PhysicalDevice, QueueFamily};
use accel_hal::command::{CommandPool, Level};
use accel_hal::device::{create_empty_buffer, upload_to_buffer, AsState};
use accel_hal::memory::{MemoryTypeId, Usage};
use accel_hal::Error;

fn triangles_desc(vertex_buffer: accel_hal::Buffer, flags: Flags) -> GeometryDesc {
    GeometryDesc {
        flags,
        ty: Type::BottomLevel,
        geometries: vec![Geometry {
            flags: GeometryFlags::opaque(),
            geometry: GeometryData::Triangles(GeometryTriangles {
                vertex_format: Format::Rgb32Sfloat,
                vertex_buffer,
                vertex_buffer_offset: 0,
                vertex_buffer_stride: 12,
                max_vertex: 8,
                index_buffer: None,
                transform: None,
            }),
        }],
    }
}

fn range(primitive_count: u32) -> BuildRangeDesc {
    BuildRangeDesc { primitive_count, primitive_offset: 0, first_vertex: 0, transform_offset: 0 }
}

#[test]
fn build_then_update_in_place() {
    let mut gpu = PhysicalDevice.open(&vec![(QueueFamily, 1)]).unwrap();
    let device = &mut gpu.device;
    let queue = &mut gpu.queue_groups[0].queues[0];
    let storage = Usage::acceleration_structure_storage();
    let (vertex_buffer, _vm) = upload_to_buffer(device, 1, storage, 96);
    let flags = Flags::allow_update();
    let desc = triangles_desc(vertex_buffer, flags);
    let requirements = device.get_acceleration_structure_build_requirements(&desc, &vec![12]);
    assert!(requirements.update_scratch_size > 0);
    let (scratch, _sm) = create_empty_buffer(device, 1, storage, requirements.build_scratch_size);
    let (backing, _bm) = create_empty_buffer(
        device,
        1,
        storage,
        requirements.acceleration_structure_size,
    );
    let blas = device
        .create_acceleration_structure(&CreateDesc {
            buffer: backing,
            buffer_offset: 0,
            size: requirements.acceleration_structure_size,
            ty: Type::BottomLevel,
        })
        .unwrap();

    let mut commands = CommandPool.allocate_one(Level::Primary);
    commands.begin();
    commands.build_acceleration_structures(
        &BuildDesc {
            src: None,
            dst: blas,
            geometry: triangles_desc(vertex_buffer, flags),
            scratch,
            scratch_offset: 0,
        },
        &vec![range(12)],
    );
    commands.pipeline_barrier();
    commands.build_acceleration_structures(
        &BuildDesc {
            src: Some(blas),
            dst: blas,
            geometry: triangles_desc(vertex_buffer, flags),
            scratch,
            scratch_offset: 0,
        },
        &vec![range(12)],
    );
    commands.pipeline_barrier();
    commands.finish();
    assert_eq!(queue.submit(device, &commands, None), Ok(()));
    assert_eq!(device.accels[blas.index].state, AsState::Updated);
}

#[test]
fn updating_a_structure_built_without_update_support_fails() {
    let mut gpu = PhysicalDevice.open(&vec![(QueueFamily, 1)]).unwrap();
    let device = &mut gpu.device;
    let queue = &mut gpu.queue_groups[0].queues[0];
    let storage = Usage::acceleration_structure_storage();
    let (vertex_buffer, _vm) = upload_to_buffer(device, 1, storage, 96);
    let desc = triangles_desc(vertex_buffer, Flags::empty());
    let requirements = device.get_acceleration_structure_build_requirements(&desc, &vec![12]);
    let (scratch, _sm) = create_empty_buffer(device, 1, storage, requirements.build_scratch_size);
    let (backing, _bm) = create_empty_buffer(
        device,
        1,
        storage,
        requirements.acceleration_structure_size,
    );
    let blas = device
        .create_acceleration_structure(&CreateDesc {
            buffer: backing,
            buffer_offset: 0,
            size: requirements.acceleration_structure_size,
            ty: Type::BottomLevel,
        })
        .unwrap();
    let mut commands = CommandPool.allocate_one(Level::Primary);
    commands.begin();
    commands.build_acceleration_structures(
        &BuildDesc {
            src: None,
            dst: blas,
            geometry: triangles_desc(vertex_buffer, Flags::empty()),
            scratch,
            scratch_offset: 0,
        },
        &vec![range(12)],
    );
    commands.pipeline_barrier();
    commands.build_acceleration_structures(
        &BuildDesc {
            src: Some(blas),
            dst: blas,
            geometry: triangles_desc(vertex_buffer, Flags::allow_update()),
            scratch,
            scratch_offset: 0,
        },
        &vec![range(12)],
    );
    commands.finish();
    assert_eq!(queue.submit(device, &commands, None), Err(Error::DeviceLost));
    assert!(device.lost);
}

#[test]
fn plain_copy_requires_matching_size_and_copies_the_state() {
    let mut gpu = PhysicalDevice.open(&vec![(QueueFamily, 1)]).unwrap();
    let device = &mut gpu.device;
    let queue = &mut gpu.queue_groups[0].queues[0];
    let storage = Usage::acceleration_structure_storage();
    let (vertex_buffer, _vm) = upload_to_buffer(device, 1, storage, 96);
    let desc = triangles_desc(vertex_buffer, Flags::empty());
    let requirements = device.get_acceleration_structure_build_requirements(&desc, &vec![12]);
    let size = requirements.acceleration_structure_size;
    let (scratch, _sm) = create_empty_buffer(device, 1, storage, requirements.build_scratch_size);
    let (backing_a, _ma) = create_empty_buffer(device, 1, storage, size);
    let (backing_b, _mb) = create_empty_buffer(device, 1, storage, size);
    let source = device
        .create_acceleration_structure(&CreateDesc {
            buffer: backing_a,
            buffer_offset: 0,
            size,
            ty: Type::BottomLevel,
        })
        .unwrap();
    let destination = device
        .create_acceleration_structure(&CreateDesc {
            buffer: backing_b,
            buffer_offset: 0,
            size,
            ty: Type::BottomLevel,
        })
        .unwrap();
    let mut commands = CommandPool.allocate_one(Level::Primary);
    commands.begin();
    commands.build_acceleration_structures(
        &BuildDesc {
            src: None,
            dst: source,
            geometry: triangles_desc(vertex_buffer, Flags::empty()),
            scratch,
            scratch_offset: 0,
        },
        &vec![range(12)],
    );
    commands.pipeline_barrier();
    commands.copy_acceleration_structure(source, destination, CopyMode::Copy);
    commands.finish();
    assert_eq!(queue.submit(device, &commands, None), Ok(()));
    assert_eq!(device.accels[destination.index].state, AsState::Built);
}

#[test]
fn compacting_without_compaction_support_fails() {
    let mut gpu = PhysicalDevice.open(&vec![(QueueFamily, 1)]).unwrap();
    let device = &mut gpu.device;
    let queue = &mut gpu.queue_groups[0].queues[0];
    let storage = Usage::acceleration_structure_storage();
    let (vertex_buffer, _vm) = upload_to_buffer(device, 1, storage, 96);
    let desc = triangles_desc(vertex_buffer, Flags::empty());
    let requirements = device.get_acceleration_structure_build_requirements(&desc, &vec![12]);
    let size = requirements.acceleration_structure_size;
    let (scratch, _sm) = create_empty_buffer(device, 1, storage, requirements.build_scratch_size);
    let (backing_a, _ma) = create_empty_buffer(device, 1, storage, size);
    let (backing_b, _mb) = create_empty_buffer(device, 1, storage, size);
    let source = device
        .create_acceleration_structure(&CreateDesc {
            buffer: backing_a,
            buffer_offset: 0,
            size,
            ty: Type::BottomLevel,
        })
        .unwrap();
    let destination = device
        .create_acceleration_structure(&CreateDesc {
            buffer: backing_b,
            buffer_offset: 0,
            size,
            ty: Type::BottomLevel,
        })
        .unwrap();
    let mut commands = CommandPool.allocate_one(Level::Primary);
    commands.begin();
    commands.build_acceleration_structures(
        &BuildDesc {
            src: None,
            dst: source,
            geometry: triangles_desc(vertex_buffer, Flags::empty()),
            scratch,
            scratch_offset: 0,
        },
        &vec![range(12)],
    );
    commands.pipeline_barrier();
    commands.copy_acceleration_structure(source, destination, CopyMode::Compact);
    commands.finish();
    assert_eq!(queue.submit(device, &commands, None), Err(Error::DeviceLost));
}

#[test]
fn mapping_is_exclusive_until_unmapped() {
    let mut gpu = PhysicalDevice.open(&vec![(QueueFamily, 1)]).unwrap();
    let device = &mut gpu.device;
    let memory = device.allocate_memory(MemoryTypeId { index: 0 }, 128).unwrap();
    assert_eq!(device.map_memory(memory), Ok(()));
    assert_eq!(device.map_memory(memory), Err(Error::CreationError));
    assert_eq!(device.flush_mapped_memory_ranges(memory), Ok(()));
    device.unmap_memory(memory);
    assert_eq!(device.map_memory(memory), Ok(()));
}
