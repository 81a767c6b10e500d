//! The acceleration-structure data model: geometry descriptions, build
//! descriptions, size requirements, and the bit-exact GPU-resident
//! instance record codec.
//!
//! The three GPU-consumed structures ([`TransformMatrix`], [`AabbPositions`],
//! [`Instance`]) are written directly into buffers the hardware parses, so
//! their field layout and total sizes (48, 24 and 64 bytes) are load-bearing.
//! Matrix and bounding-box entries are IEEE-754 single-precision values; the
//! crate stores them as their 32-bit bit patterns, which keeps the layout
//! byte-identical while the contracts stay over plain integers.

use vstd::prelude::*;

use crate::{Buffer, AccelerationStructure, IndexType, Offset, Stride};

verus! {

/// Denotes the type of acceleration structure.
#[derive(Clone, Copy, PartialEq, Eq, Structural, Debug)]
pub enum Type {
    /// A top-level acceleration structure containing [`GeometryData::Instances`]
    /// pointing to bottom-level acceleration structures.
    TopLevel,
    /// A bottom-level acceleration structure containing
    /// [`GeometryData::Triangles`] or [`GeometryData::Aabbs`].
    BottomLevel,
    /// An acceleration structure whose type is not known until build time.
    /// Not valid as the destination of any build command.
    Generic,
}

/// The acceleration structure can be updated incrementally during builds.
pub const ALLOW_UPDATE: u32 = 0x1;
/// The acceleration structure can be compacted by a [`CopyMode::Compact`] copy.
pub const ALLOW_COMPACTION: u32 = 0x2;
/// The build should prioritize trace performance over build time.
pub const PREFER_FAST_TRACE: u32 = 0x4;
/// The build should prioritize build time over trace performance.
pub const PREFER_FAST_BUILD: u32 = 0x8;
/// The build should minimize scratch memory and final size.
pub const LOW_MEMORY: u32 = 0x10;

/// Option flags for acceleration structure builds, as a fixed-width bit set.
#[derive(Clone, Copy, PartialEq, Eq, Structural, Debug)]
pub struct Flags {
    pub bits: u32,
}

impl Flags {
    /// True when every bit of `other` is set in `self`.
    pub open spec fn spec_contains(self, other: Flags) -> bool {
        self.bits & other.bits == other.bits
    }

    /// The empty flag set.
    pub fn empty() -> (r: Flags)
        ensures
            r.bits == 0,
    {
        Flags { bits: 0 }
    }

    /// The flag set holding exactly [`ALLOW_UPDATE`].
    pub fn allow_update() -> (r: Flags)
        ensures
            r.bits == ALLOW_UPDATE,
    {
        Flags { bits: ALLOW_UPDATE }
    }

    /// The flag set holding exactly [`ALLOW_COMPACTION`].
    pub fn allow_compaction() -> (r: Flags)
        ensures
            r.bits == ALLOW_COMPACTION,
    {
        Flags { bits: ALLOW_COMPACTION }
    }

    /// The union of two flag sets.
    pub fn union(self, other: Flags) -> (r: Flags)
        ensures
            r.bits == self.bits | other.bits,
    {
        Flags { bits: self.bits | other.bits }
    }

    /// Whether every bit of `other` is set in `self`.
    pub fn contains(self, other: Flags) -> (r: bool)
        ensures
            r == self.spec_contains(other),
    {
        self.bits & other.bits == other.bits
    }
}

/// This geometry will not invoke any-hit shaders.
pub const OPAQUE: u32 = 0x1;
/// Any-hit shaders run at most once per primitive of this geometry.
pub const NO_DUPLICATE_ANY_HIT_INVOCATION: u32 = 0x2;

/// Option flags for one geometry entry, as a fixed-width bit set.
#[derive(Clone, Copy, PartialEq, Eq, Structural, Debug)]
pub struct GeometryFlags {
    pub bits: u32,
}

impl GeometryFlags {
    /// True when every bit of `other` is set in `self`.
    pub open spec fn spec_contains(self, other: GeometryFlags) -> bool {
        self.bits & other.bits == other.bits
    }

    /// The empty flag set.
    pub fn empty() -> (r: GeometryFlags)
        ensures
            r.bits == 0,
    {
        GeometryFlags { bits: 0 }
    }

    /// The flag set holding exactly [`OPAQUE`].
    pub fn opaque() -> (r: GeometryFlags)
        ensures
            r.bits == OPAQUE,
    {
        GeometryFlags { bits: OPAQUE }
    }

    /// The union of two flag sets.
    pub fn union(self, other: GeometryFlags) -> (r: GeometryFlags)
        ensures
            r.bits == self.bits | other.bits,
    {
        GeometryFlags { bits: self.bits | other.bits }
    }

    /// Whether every bit of `other` is set in `self`.
    pub fn contains(self, other: GeometryFlags) -> (r: bool)
        ensures
            r == self.spec_contains(other),
    {
        self.bits & other.bits == other.bits
    }
}

/// The bit pattern of the single-precision value one.
pub const F32_ONE_BITS: u32 = 0x3F80_0000;
/// The bit pattern of the single-precision value zero.
pub const F32_ZERO_BITS: u32 = 0;

/// A 3x4 row-major affine transformation matrix of single-precision
/// entries, stored as their 32-bit bit patterns. 48 bytes, parsed by
/// hardware exactly as laid out.
#[derive(Clone, Copy, PartialEq, Eq, Debug)]
pub struct TransformMatrix {
    pub matrix: [[u32; 4]; 3],
}

impl TransformMatrix {
    /// True when the matrix is the identity transform: ones on the main
    /// diagonal of the rotation block, zeroes everywhere else, so the
    /// transform maps every point to itself.
    pub open spec fn is_identity(self) -> bool {
        &&& self.matrix[0] == [F32_ONE_BITS, F32_ZERO_BITS, F32_ZERO_BITS, F32_ZERO_BITS]
        &&& self.matrix[1] == [F32_ZERO_BITS, F32_ONE_BITS, F32_ZERO_BITS, F32_ZERO_BITS]
        &&& self.matrix[2] == [F32_ZERO_BITS, F32_ZERO_BITS, F32_ONE_BITS, F32_ZERO_BITS]
    }

    /// The identity transform: no translation, rotation or scale.
    pub fn identity() -> (r: Self)
        ensures
            r.is_identity(),
    {
        TransformMatrix {
            matrix: [
                [F32_ONE_BITS, F32_ZERO_BITS, F32_ZERO_BITS, F32_ZERO_BITS],
                [F32_ZERO_BITS, F32_ONE_BITS, F32_ZERO_BITS, F32_ZERO_BITS],
                [F32_ZERO_BITS, F32_ZERO_BITS, F32_ONE_BITS, F32_ZERO_BITS],
            ],
        }
    }
}

/// An axis-aligned bounding box: minimum and maximum corner, each three
/// single-precision coordinates stored as bit patterns. 24 bytes.
#[derive(Clone, Copy, PartialEq, Eq, Debug)]
pub struct AabbPositions {
    /// The minimum corner of the box.
    pub min: [u32; 3],
    /// The maximum corner of the box.
    pub max: [u32; 3],
}

/// A GPU-virtual pointer usable directly by hardware without a CPU-side
/// handle indirection.
#[derive(Clone, Copy, PartialEq, Eq, Structural, Debug)]
pub struct DeviceAddress(pub u64);

/// Disables face culling for this instance.
pub const TRIANGLE_FACING_CULL_DISABLE: u8 = 0x1;
/// Reverses front and back sides of the geometry's triangles.
pub const TRIANGLE_FRONT_COUNTERCLOCKWISE: u8 = 0x2;
/// Act as if every referenced geometry had its opaque flag set.
pub const FORCE_OPAQUE: u8 = 0x4;
/// Act as if no referenced geometry had its opaque flag set.
pub const FORCE_NO_OPAQUE: u8 = 0x8;

/// Option flags for an acceleration structure instance, as a fixed-width
/// bit set. They occupy the bottom 8 bits of the second packed word of an
/// [`Instance`].
#[derive(Clone, Copy, PartialEq, Eq, Structural, Debug)]
pub struct InstanceFlags {
    pub bits: u8,
}

impl InstanceFlags {
    /// True when every bit of `other` is set in `self`.
    pub open spec fn spec_contains(self, other: InstanceFlags) -> bool {
        self.bits & other.bits == other.bits
    }

    /// The empty flag set.
    pub fn empty() -> (r: InstanceFlags)
        ensures
            r.bits == 0,
    {
        InstanceFlags { bits: 0 }
    }

    /// The flag set holding exactly [`FORCE_OPAQUE`].
    pub fn force_opaque() -> (r: InstanceFlags)
        ensures
            r.bits == FORCE_OPAQUE,
    {
        InstanceFlags { bits: FORCE_OPAQUE }
    }

    /// The union of two flag sets.
    pub fn union(self, other: InstanceFlags) -> (r: InstanceFlags)
        ensures
            r.bits == self.bits | other.bits,
    {
        InstanceFlags { bits: self.bits | other.bits }
    }

    /// Whether every bit of `other` is set in `self`.
    pub fn contains(self, other: InstanceFlags) -> (r: bool)
        ensures
            r == self.spec_contains(other),
    {
        self.bits & other.bits == other.bits
    }
}

/// The mask selecting the top 24 bits of a packed 32-bit word.
pub const TOP_24_MASK: u32 = 0xFFFF_FF00;
/// The mask selecting the bottom 8 bits of a packed 32-bit word.
pub const BOTTOM_8_MASK: u32 = 0xFF;

/// The 24-bit field stored in the top 24 bits of a packed word.
pub open spec fn top_24_of(word: u32) -> u32 {
    (word & TOP_24_MASK) >> 8
}

/// The 8-bit field stored in the bottom 8 bits of a packed word.
pub open spec fn bottom_8_of(word: u32) -> u32 {
    word & BOTTOM_8_MASK
}

/// `destination` with exactly the bits selected by `new_bits_mask`
/// replaced by the corresponding bits of `new_bits`.
pub open spec fn spec_replace_bits(destination: u32, new_bits: u32, new_bits_mask: u32) -> u32 {
    destination ^ ((destination ^ new_bits) & new_bits_mask)
}

/// An instance pointing to some bottom-level acceleration structure.
///
/// The two 24-and-8-bit pairs are packed into single 32-bit words because
/// the native ray-tracing instance formats require this exact 64-byte
/// layout, written tightly packed into a GPU-read buffer. Use the setter
/// and getter methods rather than writing the packed words directly.
#[derive(Clone, Copy, PartialEq, Eq, Debug)]
pub struct Instance {
    /// The transform applied to the referenced acceleration structure.
    pub transform: TransformMatrix,

    /// Top 24 bits: the instance custom index. Bottom 8 bits: the
    /// visibility mask; the instance may only be hit when the ray mask
    /// and the instance mask intersect.
    pub instance_custom_index_24_and_mask_8: u32,

    /// Top 24 bits: the shader binding table record offset. Bottom 8
    /// bits: [`InstanceFlags`].
    pub instance_shader_binding_table_record_offset_24_and_flags_8: u32,

    /// The bottom-level acceleration structure this instance refers to.
    pub acceleration_structure_reference: DeviceAddress,
}

impl Instance {
    /// A fresh instance referencing `blas`: identity transform, and both
    /// packed words zeroed (custom index, mask, record offset and flags
    /// all zero).
    pub fn new(blas: DeviceAddress) -> (r: Self)
        ensures
            r.transform.is_identity(),
            r.instance_custom_index_24_and_mask_8 == 0,
            r.instance_shader_binding_table_record_offset_24_and_flags_8 == 0,
            r.acceleration_structure_reference == blas,
    {
        Instance {
            transform: TransformMatrix::identity(),
            instance_custom_index_24_and_mask_8: 0,
            instance_shader_binding_table_record_offset_24_and_flags_8: 0,
            acceleration_structure_reference: blas,
        }
    }

    /// Whether `n` can be stored in a 24-bit field.
    pub fn fits_in_24_bits(n: u32) -> (r: bool)
        ensures
            r == (n < 0x100_0000),
    {
        n < 0x100_0000
    }

    /// `destination` with exactly the bits selected by `new_bits_mask`
    /// replaced by the corresponding bits of `new_bits`.
    pub fn replace_bits(destination: u32, new_bits: u32, new_bits_mask: u32) -> (r: u32)
        ensures
            r == spec_replace_bits(destination, new_bits, new_bits_mask),
    {
        destination ^ ((destination ^ new_bits) & new_bits_mask)
    }

    /// Stores `instance_custom_index` in the top 24 bits of the first
    /// packed word, leaving the visibility mask in the bottom 8 bits and
    /// every other field untouched.
    pub fn set_instance_custom_index(&mut self, instance_custom_index: u32)
        requires
            instance_custom_index < 0x100_0000,
        ensures
            top_24_of(final(self).instance_custom_index_24_and_mask_8) == instance_custom_index,
            bottom_8_of(final(self).instance_custom_index_24_and_mask_8)
                == bottom_8_of(old(self).instance_custom_index_24_and_mask_8),
            final(self).transform == old(self).transform,
            final(self).instance_shader_binding_table_record_offset_24_and_flags_8
                == old(self).instance_shader_binding_table_record_offset_24_and_flags_8,
            final(self).acceleration_structure_reference
                == old(self).acceleration_structure_reference,
    {
        let word = self.instance_custom_index_24_and_mask_8;
        let updated = Self::replace_bits(word, instance_custom_index << 8, TOP_24_MASK);
        proof {
            lemma_top_24_round_trip(word, instance_custom_index);
        }
        self.instance_custom_index_24_and_mask_8 = updated;
    }

    /// Stores `mask` in the bottom 8 bits of the first packed word,
    /// leaving the custom index in the top 24 bits and every other field
    /// untouched.
    pub fn set_mask(&mut self, mask: u8)
        ensures
            bottom_8_of(final(self).instance_custom_index_24_and_mask_8) == mask,
            top_24_of(final(self).instance_custom_index_24_and_mask_8)
                == top_24_of(old(self).instance_custom_index_24_and_mask_8),
            final(self).transform == old(self).transform,
            final(self).instance_shader_binding_table_record_offset_24_and_flags_8
                == old(self).instance_shader_binding_table_record_offset_24_and_flags_8,
            final(self).acceleration_structure_reference
                == old(self).acceleration_structure_reference,
    {
        let word = self.instance_custom_index_24_and_mask_8;
        let new_bits: u32 = mask as u32;
        let updated = Self::replace_bits(word, new_bits, BOTTOM_8_MASK);
        proof {
            lemma_bottom_8_round_trip(word, new_bits);
        }
        self.instance_custom_index_24_and_mask_8 = updated;
    }

    /// Stores the shader binding table record offset in the top 24 bits
    /// of the second packed word, leaving the flags in the bottom 8 bits
    /// and every other field untouched.
    pub fn set_instance_shader_binding_table_record_offset(
        &mut self,
        instance_shader_binding_table_record_offset: u32,
    )
        requires
            instance_shader_binding_table_record_offset < 0x100_0000,
        ensures
            top_24_of(final(self).instance_shader_binding_table_record_offset_24_and_flags_8)
                == instance_shader_binding_table_record_offset,
            bottom_8_of(final(self).instance_shader_binding_table_record_offset_24_and_flags_8)
                == bottom_8_of(old(self).instance_shader_binding_table_record_offset_24_and_flags_8),
            final(self).transform == old(self).transform,
            final(self).instance_custom_index_24_and_mask_8
                == old(self).instance_custom_index_24_and_mask_8,
            final(self).acceleration_structure_reference
                == old(self).acceleration_structure_reference,
    {
        let word = self.instance_shader_binding_table_record_offset_24_and_flags_8;
        let updated = Self::replace_bits(
            word,
            instance_shader_binding_table_record_offset << 8,
            TOP_24_MASK,
        );
        proof {
            lemma_top_24_round_trip(word, instance_shader_binding_table_record_offset);
        }
        self.instance_shader_binding_table_record_offset_24_and_flags_8 = updated;
    }

    /// Stores `flags` in the bottom 8 bits of the second packed word,
    /// leaving the record offset in the top 24 bits and every other field
    /// untouched.
    pub fn set_flags(&mut self, flags: InstanceFlags)
        ensures
            bottom_8_of(final(self).instance_shader_binding_table_record_offset_24_and_flags_8)
                == flags.bits,
            top_24_of(final(self).instance_shader_binding_table_record_offset_24_and_flags_8)
                == top_24_of(old(self).instance_shader_binding_table_record_offset_24_and_flags_8),
            final(self).transform == old(self).transform,
            final(self).instance_custom_index_24_and_mask_8
                == old(self).instance_custom_index_24_and_mask_8,
            final(self).acceleration_structure_reference
                == old(self).acceleration_structure_reference,
    {
        let word = self.instance_shader_binding_table_record_offset_24_and_flags_8;
        let new_bits: u32 = flags.bits as u32;
        let updated = Self::replace_bits(word, new_bits, BOTTOM_8_MASK);
        proof {
            lemma_bottom_8_round_trip(word, new_bits);
        }
        self.instance_shader_binding_table_record_offset_24_and_flags_8 = updated;
    }

    /// The custom index stored in the top 24 bits of the first packed word.
    pub fn instance_custom_index(&self) -> (r: u32)
        ensures
            r == top_24_of(self.instance_custom_index_24_and_mask_8),
    {
        (self.instance_custom_index_24_and_mask_8 & TOP_24_MASK) >> 8
    }

    /// The visibility mask stored in the bottom 8 bits of the first
    /// packed word.
    pub fn mask(&self) -> (r: u32)
        ensures
            r == bottom_8_of(self.instance_custom_index_24_and_mask_8),
    {
        self.instance_custom_index_24_and_mask_8 & BOTTOM_8_MASK
    }

    /// The record offset stored in the top 24 bits of the second packed
    /// word.
    pub fn instance_shader_binding_table_record_offset(&self) -> (r: u32)
        ensures
            r == top_24_of(self.instance_shader_binding_table_record_offset_24_and_flags_8),
    {
        (self.instance_shader_binding_table_record_offset_24_and_flags_8 & TOP_24_MASK) >> 8
    }

    /// The flags stored in the bottom 8 bits of the second packed word.
    pub fn flags(&self) -> (r: InstanceFlags)
        ensures
            r.bits == bottom_8_of(self.instance_shader_binding_table_record_offset_24_and_flags_8),
    {
        let word = self.instance_shader_binding_table_record_offset_24_and_flags_8;
        let bits = word & BOTTOM_8_MASK;
        proof {
            assert(bits < 256) by (bit_vector)
                requires
                    bits == word & 0xFFu32,
            ;
        }
        InstanceFlags { bits: bits as u8 }
    }
}

/// Writing a 24-bit value into the top 24 bits of a packed word stores
/// exactly that value there and leaves the bottom 8 bits as they were.
pub proof fn lemma_top_24_round_trip(word: u32, value: u32)
    requires
        value < 0x100_0000,
    ensures
        top_24_of(spec_replace_bits(word, value << 8, TOP_24_MASK)) == value,
        bottom_8_of(spec_replace_bits(word, value << 8, TOP_24_MASK)) == bottom_8_of(word),
{
    assert(((word ^ ((word ^ (value << 8)) & 0xFFFF_FF00u32)) & 0xFFFF_FF00u32) >> 8 == value
        && (word ^ ((word ^ (value << 8)) & 0xFFFF_FF00u32)) & 0xFFu32 == word & 0xFFu32)
        by (bit_vector)
        requires
            value < 0x100_0000u32,
    ;
}

/// Writing an 8-bit value into the bottom 8 bits of a packed word stores
/// exactly that value there and leaves the top 24 bits as they were.
pub proof fn lemma_bottom_8_round_trip(word: u32, value: u32)
    requires
        value < 0x100,
    ensures
        bottom_8_of(spec_replace_bits(word, value, BOTTOM_8_MASK)) == value,
        top_24_of(spec_replace_bits(word, value, BOTTOM_8_MASK)) == top_24_of(word),
{
    assert((word ^ ((word ^ value) & 0xFFu32)) & 0xFFu32 == value
        && ((word ^ ((word ^ value) & 0xFFu32)) & 0xFFFF_FF00u32) >> 8
            == (word & 0xFFFF_FF00u32) >> 8)
        by (bit_vector)
        requires
            value < 0x100u32,
    ;
}

/// The two fields packed into one 32-bit word are independent: writing
/// the 24-bit field and then the 8-bit field, in either order, stores
/// both exactly, whatever the word held before.
pub proof fn lemma_packed_fields_independent(word: u32, high: u32, low: u32)
    requires
        high < 0x100_0000,
        low < 0x100,
    ensures
        ({
            let both = spec_replace_bits(
                spec_replace_bits(word, high << 8, TOP_24_MASK),
                low,
                BOTTOM_8_MASK,
            );
            top_24_of(both) == high && bottom_8_of(both) == low
        }),
        ({
            let both = spec_replace_bits(
                spec_replace_bits(word, low, BOTTOM_8_MASK),
                high << 8,
                TOP_24_MASK,
            );
            top_24_of(both) == high && bottom_8_of(both) == low
        }),
{
    lemma_top_24_round_trip(word, high);
    lemma_bottom_8_round_trip(spec_replace_bits(word, high << 8, TOP_24_MASK), low);
    lemma_bottom_8_round_trip(word, low);
    lemma_top_24_round_trip(spec_replace_bits(word, low, BOTTOM_8_MASK), high);
}

/// The size requirements describing how big to make the buffers needed to
/// create an acceleration structure.
#[derive(Clone, Copy, PartialEq, Eq, Structural, Debug)]
pub struct SizeRequirements {
    /// The required size for the acceleration structure buffer.
    pub acceleration_structure_size: u64,
    /// The required scratch size for an incremental update, zero when no
    /// update was requested.
    pub update_scratch_size: u64,
    /// The required scratch size for a build from scratch.
    pub build_scratch_size: u64,
}

/// Denotes how an acceleration structure should be copied.
#[derive(Clone, Copy, PartialEq, Eq, Structural, Debug)]
pub enum CopyMode {
    /// A bit-for-bit copy; the destination must have been created with
    /// the same parameters as the source.
    Copy,
    /// A compacting copy; the destination must be at least as large as
    /// the compacted size previously written by a query.
    Compact,
}

/// The range of primitives one geometry contributes to a build.
#[derive(Clone, Copy, PartialEq, Eq, Structural, Debug)]
pub struct BuildRangeDesc {
    /// The number of primitives built for this geometry.
    pub primitive_count: u32,
    /// The byte offset of the first primitive read from the geometry's
    /// data buffer.
    pub primitive_offset: u32,
    /// The index of the first vertex used, for a triangles geometry.
    pub first_vertex: u32,
    /// The additional offset into the transform buffer, for a triangles
    /// geometry.
    pub transform_offset: u32,
}

/// The buffer, offset and entry width of an index buffer.
#[derive(Clone, Copy, PartialEq, Eq, Structural, Debug)]
pub struct IndexBufferDesc {
    /// The buffer containing the index data.
    pub buffer: Buffer,
    /// The offset into the buffer.
    pub offset: Offset,
    /// The width of the index entries.
    pub index_type: IndexType,
}

/// The buffer and offset of a list of [`TransformMatrix`] records.
#[derive(Clone, Copy, PartialEq, Eq, Structural, Debug)]
pub struct TransformBufferDesc {
    /// The buffer containing the transform data.
    pub buffer: Buffer,
    /// The offset into the buffer.
    pub offset: Offset,
}

/// Geometry data containing triangle data.
#[derive(Clone, Copy, PartialEq, Eq, Structural, Debug)]
pub struct GeometryTriangles {
    /// The format of the vertex data.
    pub vertex_format: Format,
    /// The buffer containing the vertex data.
    pub vertex_buffer: Buffer,
    /// The offset into the vertex buffer where the vertex data starts.
    pub vertex_buffer_offset: Offset,
    /// The space between vertices in the vertex buffer.
    pub vertex_buffer_stride: Stride,
    /// The index of the last vertex addressed by a build using this geometry.
    pub max_vertex: Offset,
    /// The buffer, offset and entry width of the index data, if indexed.
    pub index_buffer: Option<IndexBufferDesc>,
    /// The buffer and offset of a list of [`TransformMatrix`] records.
    pub transform: Option<TransformBufferDesc>,
}

/// Geometry data containing axis-aligned bounding box data: a buffer of
/// [`AabbPositions`] records.
#[derive(Clone, Copy, PartialEq, Eq, Structural, Debug)]
pub struct GeometryAabbs {
    /// The buffer containing the bounding-box data.
    pub buffer: Buffer,
    /// The offset into the buffer.
    pub buffer_offset: Offset,
    /// The stride of the bounding-box data in the buffer.
    pub buffer_stride: Stride,
}

/// Geometry data containing instance data: a buffer of packed
/// [`Instance`] records.
#[derive(Clone, Copy, PartialEq, Eq, Structural, Debug)]
pub struct GeometryInstances {
    /// The buffer containing the instance data.
    pub buffer: Buffer,
    /// The offset into the buffer.
    pub buffer_offset: Offset,
}

/// The vertex formats accepted for triangle geometry.
#[derive(Clone, Copy, PartialEq, Eq, Structural, Debug)]
pub enum Format {
    /// Two 32-bit float components; the third is implied to be zero.
    Rg32Sfloat,
    /// Three 32-bit float components.
    Rgb32Sfloat,
    /// Two 16-bit float components; the third is implied to be zero.
    Rg16Sfloat,
    /// Four 16-bit float components; the fourth is ignored.
    Rgba16Sfloat,
    /// Two 16-bit signed normalized components; the third is implied to
    /// be zero.
    Rg16Snorm,
    /// Four 16-bit signed normalized components; the fourth is ignored.
    Rgba16Snorm,
}

/// Geometry data that can be stored in an acceleration structure.
#[derive(Clone, Copy, PartialEq, Eq, Structural, Debug)]
pub enum GeometryData {
    Triangles(GeometryTriangles),
    Aabbs(GeometryAabbs),
    Instances(GeometryInstances),
}

/// One geometry entry of a build, with its intersection flags.
#[derive(Clone, Copy, PartialEq, Eq, Structural, Debug)]
pub struct Geometry {
    /// Flags describing how this geometry will be intersected.
    pub flags: GeometryFlags,
    /// The data contained in this geometry.
    pub geometry: GeometryData,
}

/// Whether two geometry entries hold the same variant of geometry data.
pub open spec fn same_variant(a: GeometryData, b: GeometryData) -> bool {
    match a {
        GeometryData::Triangles(_) => b is Triangles,
        GeometryData::Aabbs(_) => b is Aabbs,
        GeometryData::Instances(_) => b is Instances,
    }
}

/// Whether a geometry data variant may appear in an acceleration
/// structure of type `ty`: a top-level structure holds only instances, a
/// bottom-level structure only triangles or bounding boxes.
pub open spec fn variant_allowed(ty: Type, data: GeometryData) -> bool {
    match ty {
        Type::TopLevel => data is Instances,
        Type::BottomLevel => data is Triangles || data is Aabbs,
        Type::Generic => true,
    }
}

/// A description of the geometry data needed to populate an acceleration
/// structure.
#[derive(Clone, PartialEq, Eq, Debug)]
pub struct GeometryDesc {
    /// Acceleration structure build flags.
    pub flags: Flags,
    /// The type of acceleration structure to build.
    pub ty: Type,
    /// The geometries to be stored in the acceleration structure.
    pub geometries: Vec<Geometry>,
}

/// The well-formedness of a geometry description: every entry holds the
/// variant its structure type allows, and all entries hold the same
/// variant.
pub open spec fn desc_wf(ty: Type, geometries: Seq<Geometry>) -> bool {
    &&& forall|i: int| 0 <= i < geometries.len() ==> variant_allowed(ty, #[trigger] geometries[i].geometry)
    &&& forall|i: int| 0 <= i < geometries.len() ==> same_variant(geometries[0].geometry, #[trigger] geometries[i].geometry)
}

impl GeometryDesc {
    /// Well-formedness of this description.
    pub open spec fn wf(&self) -> bool {
        desc_wf(self.ty, self.geometries@)
    }

    /// Checks that every geometry holds the variant the structure type
    /// allows and that all geometries hold the same variant.
    pub fn check_wf(&self) -> (r: bool)
        ensures
            r == self.wf(),
    {
        let n = self.geometries.len();
        if n == 0 {
            return true;
        }
        let first = self.geometries[0].geometry;
        let mut i: usize = 0;
        while i < n
            invariant
                0 < n == self.geometries@.len(),
                first == self.geometries@[0].geometry,
                forall|j: int| 0 <= j < i ==> variant_allowed(self.ty, #[trigger] self.geometries@[j].geometry),
                forall|j: int| 0 <= j < i ==> same_variant(first, #[trigger] self.geometries@[j].geometry),
            decreases n - i,
        {
            let g = self.geometries[i].geometry;
            let allowed = match (self.ty, g) {
                (Type::TopLevel, GeometryData::Instances(_)) => true,
                (Type::TopLevel, _) => false,
                (Type::BottomLevel, GeometryData::Instances(_)) => false,
                (Type::BottomLevel, _) => true,
                (Type::Generic, _) => true,
            };
            let same = match (first, g) {
                (GeometryData::Triangles(_), GeometryData::Triangles(_)) => true,
                (GeometryData::Aabbs(_), GeometryData::Aabbs(_)) => true,
                (GeometryData::Instances(_), GeometryData::Instances(_)) => true,
                _ => false,
            };
            if !allowed || !same {
                return false;
            }
            i = i + 1;
        }
        true
    }
}

/// A description of the data needed to create an acceleration structure.
#[derive(Clone, Copy, PartialEq, Eq, Structural, Debug)]
pub struct CreateDesc {
    /// The buffer to store the acceleration structure in.
    pub buffer: Buffer,
    /// The offset into the buffer where the acceleration structure will
    /// be written; must be a multiple of 256.
    pub buffer_offset: Offset,
    /// The size reserved for the acceleration structure, as reported by a
    /// size query or a compacted-size query.
    pub size: u64,
    /// The type of acceleration structure to create.
    pub ty: Type,
}

/// A description of the data needed to build or update an acceleration
/// structure with geometry data.
#[derive(Clone, PartialEq, Eq, Debug)]
pub struct BuildDesc {
    /// The structure an incremental update starts from; `None` means a
    /// build from scratch.
    pub src: Option<AccelerationStructure>,
    /// The structure to be built or updated.
    pub dst: AccelerationStructure,
    /// The geometry written into the destination.
    pub geometry: GeometryDesc,
    /// The buffer providing scratch space for the build.
    pub scratch: Buffer,
    /// The offset into the scratch buffer.
    pub scratch_offset: Offset,
}

} // verus!
