//! Tests of the size-query protocol and of the device's typed failures.

use accel_hal::accel::{
    Flags, Format, Geometry, GeometryData, GeometryDesc, GeometryFlags, GeometryTriangles,
    CreateDesc, Type, ALLOW_UPDATE,
};
use accel_hal::device::{create_empty_buffer, Device, QueryType};
use accel_hal::memory::{MemoryTypeId, Usage};
use accel_hal::{Buffer, Error};

fn triangle_geometry(vertex_buffer: Buffer) -> Geometry {
    Geometry {
        flags: GeometryFlags::opaque(),
        geometry: GeometryData::Triangles(GeometryTriangles {
            vertex_format: Format::Rgb32Sfloat,
            vertex_buffer,
            vertex_buffer_offset: 0,
            vertex_buffer_stride: 12,
            max_vertex: 8,
            index_buffer: None,
            transform: None,
        }),
    }
}

#[test]
fn single_triangle_geometry_sizes() {
    let mut device = Device::new(65536, 1);
    let vertex_buffer = device.create_buffer(96, Usage::empty()).unwrap();
    let desc = GeometryDesc {
        flags: Flags::empty(),
        ty: Type::BottomLevel,
        geometries: vec![triangle_geometry(vertex_buffer)],
    };
    let requirements =
        device.get_acceleration_structure_build_requirements(&desc, &vec![12]);
    assert_eq!(requirements.acceleration_structure_size, 256 + 12 * 64);
    assert_eq!(requirements.build_scratch_size, 64 + 12 * 64);
    assert!(requirements.acceleration_structure_size > 0);
    assert!(requirements.build_scratch_size > 0);
    assert_eq!(requirements.update_scratch_size, 0);
}

#[test]
fn update_scratch_reported_only_when_requested() {
    let mut device = Device::new(65536, 1);
    let vertex_buffer = device.create_buffer(96, Usage::empty()).unwrap();
    let without_update = GeometryDesc {
        flags: Flags::empty(),
        ty: Type::BottomLevel,
        geometries: vec![triangle_geometry(vertex_buffer)],
    };
    let with_update = GeometryDesc {
        flags: Flags { bits: ALLOW_UPDATE },
        ty: Type::BottomLevel,
        geometries: vec![triangle_geometry(vertex_buffer)],
    };
    let counts = vec![5u32];
    assert_eq!(
        device
            .get_acceleration_structure_build_requirements(&without_update, &counts)
            .update_scratch_size,
        0
    );
    assert_eq!(
        device
            .get_acceleration_structure_build_requirements(&with_update, &counts)
            .update_scratch_size,
        32 + 5 * 64
    );
}

#[test]
fn size_query_is_idempotent() {
    let mut device = Device::new(65536, 1);
    let vertex_buffer = device.create_buffer(96, Usage::empty()).unwrap();
    let desc = GeometryDesc {
        flags: Flags::allow_compaction(),
        ty: Type::BottomLevel,
        geometries: vec![triangle_geometry(vertex_buffer)],
    };
    let counts = vec![12u32];
    let first = device.get_acceleration_structure_build_requirements(&desc, &counts);
    let second = device.get_acceleration_structure_build_requirements(&desc, &counts);
    assert_eq!(first, second);
}

#[test]
fn empty_geometry_set_needs_no_scratch() {
    let device = Device::new(65536, 1);
    let desc = GeometryDesc {
        flags: Flags::empty(),
        ty: Type::BottomLevel,
        geometries: vec![],
    };
    let requirements = device.get_acceleration_structure_build_requirements(&desc, &vec![]);
    assert_eq!(requirements.build_scratch_size, 0);
    assert_eq!(requirements.update_scratch_size, 0);
    assert_eq!(requirements.acceleration_structure_size, 256);
}

#[test]
fn geometry_well_formedness_check() {
    let mut device = Device::new(65536, 1);
    let vertex_buffer = device.create_buffer(96, Usage::empty()).unwrap();
    let top_level_with_triangles = GeometryDesc {
        flags: Flags::empty(),
        ty: Type::TopLevel,
        geometries: vec![triangle_geometry(vertex_buffer)],
    };
    assert!(!top_level_with_triangles.check_wf());
    let bottom_level_with_triangles = GeometryDesc {
        flags: Flags::empty(),
        ty: Type::BottomLevel,
        geometries: vec![triangle_geometry(vertex_buffer), triangle_geometry(vertex_buffer)],
    };
    assert!(bottom_level_with_triangles.check_wf());
}

#[test]
fn create_buffer_rejects_zero_size() {
    let mut device = Device::new(65536, 1);
    assert_eq!(device.create_buffer(0, Usage::empty()), Err(Error::CreationError));
}

#[test]
fn allocate_memory_reports_exhaustion() {
    let mut device = Device::new(65536, 1);
    assert_eq!(
        device.allocate_memory(MemoryTypeId { index: 0 }, 65537),
        Err(Error::OutOfMemory)
    );
    let first = device.allocate_memory(MemoryTypeId { index: 0 }, 40000).unwrap();
    assert_eq!(
        device.allocate_memory(MemoryTypeId { index: 0 }, 30000),
        Err(Error::OutOfMemory)
    );
    device.free_memory(first);
    assert!(device.allocate_memory(MemoryTypeId { index: 0 }, 30000).is_ok());
}

#[test]
fn bind_buffer_memory_is_one_time_and_bounded() {
    let mut device = Device::new(65536, 1);
    let buffer = device.create_buffer(100, Usage::empty()).unwrap();
    let memory = device.allocate_memory(MemoryTypeId { index: 0 }, 128).unwrap();
    assert_eq!(device.bind_buffer_memory(memory, 64, buffer), Err(Error::BindError));
    assert_eq!(device.bind_buffer_memory(memory, 0, buffer), Ok(()));
    assert_eq!(device.bind_buffer_memory(memory, 0, buffer), Err(Error::BindError));
}

#[test]
fn create_acceleration_structure_validates_the_region() {
    let mut device = Device::new(65536, 1);
    let buffer = device.create_buffer(1024, Usage::acceleration_structure_storage()).unwrap();
    let misaligned = CreateDesc { buffer, buffer_offset: 128, size: 256, ty: Type::BottomLevel };
    assert_eq!(device.create_acceleration_structure(&misaligned), Err(Error::CreationError));
    let empty = CreateDesc { buffer, buffer_offset: 0, size: 0, ty: Type::BottomLevel };
    assert_eq!(device.create_acceleration_structure(&empty), Err(Error::CreationError));
    let overrunning = CreateDesc { buffer, buffer_offset: 768, size: 512, ty: Type::BottomLevel };
    assert_eq!(device.create_acceleration_structure(&overrunning), Err(Error::CreationError));
    let valid = CreateDesc { buffer, buffer_offset: 256, size: 768, ty: Type::BottomLevel };
    assert!(device.create_acceleration_structure(&valid).is_ok());
}

#[test]
fn query_pool_results_wait_until_written() {
    let mut device = Device::new(65536, 1);
    assert_eq!(
        device.create_query_pool(QueryType::AccelerationStructureCompactedSize, 0),
        Err(Error::CreationError)
    );
    let pool = device
        .create_query_pool(QueryType::AccelerationStructureCompactedSize, 2)
        .unwrap();
    assert_eq!(device.get_query_pool_results(pool, 0, 2), Err(Error::WaitError));
}

#[test]
fn buffer_padding_rounds_up_to_the_alignment() {
    let mut device = Device::new(65536, 256);
    let (buffer, memory) = create_empty_buffer(
        &mut device,
        256,
        Usage::acceleration_structure_storage(),
        100,
    );
    assert_eq!(device.buffers[buffer.index].size, 256);
    assert_eq!(device.memories[memory.index].size, 256);
    assert_eq!(device.buffers[buffer.index].memory, Some((memory.index, 0)));
    let (exact, exact_memory) = create_empty_buffer(
        &mut device,
        256,
        Usage::acceleration_structure_storage(),
        512,
    );
    assert_eq!(device.buffers[exact.index].size, 512);
    assert_eq!(device.memories[exact_memory.index].size, 512);
}
