//! Tests of the packed instance record codec: round trips, field
//! independence, and the 24-bit precondition check.

use accel_hal::accel::{DeviceAddress, Instance, InstanceFlags, FORCE_OPAQUE, TRIANGLE_FACING_CULL_DISABLE};

#[test]
fn new_instance_is_zeroed() {
    let instance = Instance::new(DeviceAddress(0xDEAD_BEEF_0000_0001));
    assert_eq!(instance.instance_custom_index_24_and_mask_8, 0);
    assert_eq!(instance.instance_shader_binding_table_record_offset_24_and_flags_8, 0);
    assert_eq!(instance.acceleration_structure_reference.0, 0xDEAD_BEEF_0000_0001);
    assert_eq!(instance.instance_custom_index(), 0);
    assert_eq!(instance.mask(), 0);
    assert_eq!(instance.instance_shader_binding_table_record_offset(), 0);
    assert_eq!(instance.flags().bits, 0);
}

#[test]
fn new_instance_has_identity_transform() {
    let instance = Instance::new(DeviceAddress(1));
    let one = 1.0f32.to_bits();
    let zero = 0.0f32.to_bits();
    assert_eq!(
        instance.transform.matrix,
        [[one, zero, zero, zero], [zero, one, zero, zero], [zero, zero, one, zero]]
    );
}

#[test]
fn custom_index_round_trip() {
    let mut instance = Instance::new(DeviceAddress(7));
    for &index in &[0u32, 1, 2, 0x1234, 0xAB_CDEF, 0xFF_FFFF] {
        instance.set_instance_custom_index(index);
        assert_eq!(instance.instance_custom_index(), index);
    }
}

#[test]
fn record_offset_round_trip() {
    let mut instance = Instance::new(DeviceAddress(7));
    for &offset in &[0u32, 1, 0x40, 0xFF_FFFF] {
        instance.set_instance_shader_binding_table_record_offset(offset);
        assert_eq!(instance.instance_shader_binding_table_record_offset(), offset);
    }
}

#[test]
fn mask_round_trip() {
    let mut instance = Instance::new(DeviceAddress(7));
    for &mask in &[0u8, 1, 0x80, 0xFF] {
        instance.set_mask(mask);
        assert_eq!(instance.mask(), mask as u32);
    }
}

#[test]
fn flags_round_trip() {
    let mut instance = Instance::new(DeviceAddress(7));
    let flags = InstanceFlags { bits: FORCE_OPAQUE | TRIANGLE_FACING_CULL_DISABLE };
    instance.set_flags(flags);
    assert_eq!(instance.flags().bits, FORCE_OPAQUE | TRIANGLE_FACING_CULL_DISABLE);
}

#[test]
fn custom_index_does_not_disturb_mask() {
    let mut instance = Instance::new(DeviceAddress(7));
    instance.set_mask(0xAB);
    instance.set_instance_custom_index(0xFF_FFFF);
    assert_eq!(instance.mask(), 0xAB);
    assert_eq!(instance.instance_custom_index(), 0xFF_FFFF);
    instance.set_instance_custom_index(0);
    assert_eq!(instance.mask(), 0xAB);
    assert_eq!(instance.instance_custom_index(), 0);
}

#[test]
fn mask_does_not_disturb_custom_index() {
    let mut instance = Instance::new(DeviceAddress(7));
    instance.set_instance_custom_index(0x12_3456);
    instance.set_mask(0xFF);
    assert_eq!(instance.instance_custom_index(), 0x12_3456);
    assert_eq!(instance.mask(), 0xFF);
    instance.set_mask(0);
    assert_eq!(instance.instance_custom_index(), 0x12_3456);
    assert_eq!(instance.mask(), 0);
}

#[test]
fn record_offset_and_flags_are_independent() {
    let mut instance = Instance::new(DeviceAddress(7));
    instance.set_flags(InstanceFlags { bits: 0x0F });
    instance.set_instance_shader_binding_table_record_offset(0xFF_FFFF);
    assert_eq!(instance.flags().bits, 0x0F);
    assert_eq!(instance.instance_shader_binding_table_record_offset(), 0xFF_FFFF);
    instance.set_flags(InstanceFlags { bits: 0 });
    assert_eq!(instance.instance_shader_binding_table_record_offset(), 0xFF_FFFF);
    assert_eq!(instance.flags().bits, 0);
}

#[test]
fn setters_do_not_touch_the_other_packed_word() {
    let mut instance = Instance::new(DeviceAddress(7));
    instance.set_instance_custom_index(0x0F_F0F0);
    instance.set_mask(0x5A);
    let first_word = instance.instance_custom_index_24_and_mask_8;
    instance.set_instance_shader_binding_table_record_offset(0x0A_0B0C);
    instance.set_flags(InstanceFlags { bits: 0x05 });
    assert_eq!(instance.instance_custom_index_24_and_mask_8, first_word);
    let second_word = instance.instance_shader_binding_table_record_offset_24_and_flags_8;
    instance.set_instance_custom_index(0);
    instance.set_mask(0);
    assert_eq!(instance.instance_shader_binding_table_record_offset_24_and_flags_8, second_word);
}

#[test]
fn packed_word_layout_is_exact() {
    let mut instance = Instance::new(DeviceAddress(7));
    instance.set_instance_custom_index(0xAB_CDEF);
    instance.set_mask(0x12);
    assert_eq!(instance.instance_custom_index_24_and_mask_8, 0xABCD_EF12);
}

#[test]
fn fits_in_24_bits_boundary() {
    assert!(Instance::fits_in_24_bits(0));
    assert!(Instance::fits_in_24_bits(0xFF_FFFF));
    assert!(!Instance::fits_in_24_bits(0x100_0000));
    assert!(!Instance::fits_in_24_bits(u32::MAX));
}
