//! Tests of the GPU-consumed binary layouts: exact struct sizes with no
//! padding, and the identity transform behaving as the identity on
//! points when its entries are read back as single-precision floats.

use accel_hal::accel::{AabbPositions, Instance, TransformMatrix, F32_ONE_BITS, F32_ZERO_BITS};

#[test]
fn transform_matrix() {
    assert_eq!(std::mem::size_of::<TransformMatrix>(), 48);
    assert_eq!(std::mem::size_of::<[TransformMatrix; 2]>(), 96);
}

#[test]
fn aabb_positions() {
    assert_eq!(std::mem::size_of::<AabbPositions>(), 24);
    assert_eq!(std::mem::size_of::<[AabbPositions; 2]>(), 48);
}

#[test]
fn instance() {
    assert_eq!(std::mem::size_of::<Instance>(), 64);
    assert_eq!(std::mem::size_of::<[Instance; 2]>(), 128);
}

#[test]
fn identity_entries_are_float_bit_patterns() {
    assert_eq!(F32_ONE_BITS, 1.0f32.to_bits());
    assert_eq!(F32_ZERO_BITS, 0.0f32.to_bits());
    let identity = TransformMatrix::identity();
    for (row_index, row) in identity.matrix.iter().enumerate() {
        for (column_index, &bits) in row.iter().enumerate() {
            let expected = if row_index == column_index { 1.0f32 } else { 0.0f32 };
            assert_eq!(f32::from_bits(bits), expected);
        }
    }
}

/// Applies a 3x4 row-major affine transform, read back from its bit
/// patterns, to a point.
fn apply(matrix: &TransformMatrix, point: [f32; 3]) -> [f32; 3] {
    let mut result = [0.0f32; 3];
    for row in 0..3 {
        let m = matrix.matrix[row];
        result[row] = f32::from_bits(m[0]) * point[0] + f32::from_bits(m[1]) * point[1]
            + f32::from_bits(m[2]) * point[2] + f32::from_bits(m[3]);
    }
    result
}

#[test]
fn identity_transform_leaves_points_unchanged() {
    let identity = TransformMatrix::identity();
    let points = [
        [0.0f32, 0.0, 0.0],
        [1.0, 2.0, 3.0],
        [-1.5, 0.25, 1e30],
        [f32::MIN_POSITIVE, -0.0, 1e-30],
    ];
    for &point in &points {
        assert_eq!(apply(&identity, point), point);
    }
}
