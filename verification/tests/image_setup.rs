use dmatex::dmatex::{
    compatible_modifiers, plan_memory_types, plane_list, select_memory_type, Dmatex, DmatexSize,
    MemoryTypeInfo, PlaneLayout,
};
use dmatex::format::{DmatexFormat, DmatexFormatVariant, Format, Fourcc};
use dmatex::{find_device_index, render_node_id_from_major_minor};

fn mem(device_local: bool, protected: bool) -> MemoryTypeInfo {
    MemoryTypeInfo { device_local, protected }
}

#[test]
fn memory_type_skips_protected_and_host_types() {
    // A protected device-local type listed first must not be picked, and
    // device-local must be found by scanning, not assumed at index 0.
    let types = vec![mem(true, true), mem(false, false), mem(true, false)];
    assert_eq!(select_memory_type(&types, 0b111), Some(2));
}

#[test]
fn memory_type_respects_requirement_bits() {
    let types = vec![mem(true, false), mem(true, false)];
    assert_eq!(select_memory_type(&types, 0b10), Some(1));
    assert_eq!(select_memory_type(&types, 0b01), Some(0));
    assert_eq!(select_memory_type(&types, 0b00), None);
}

#[test]
fn memory_type_none_when_nothing_qualifies() {
    let types = vec![mem(false, false), mem(true, true)];
    assert_eq!(select_memory_type(&types, 0b11), None);
}

#[test]
fn allocation_plan_is_all_or_nothing() {
    let types = vec![mem(false, false), mem(true, false)];
    // Both planes can be backed: one plan entry per plane.
    assert_eq!(plan_memory_types(&types, &vec![0b10, 0b11]), Some(vec![1, 1]));
    // The second plane admits only the non-device-local type: no plan at all.
    assert_eq!(plan_memory_types(&types, &vec![0b10, 0b01]), None);
    // No planes: an empty plan.
    assert_eq!(plan_memory_types(&types, &Vec::new()), Some(Vec::new()));
}

fn format_with_modifiers(mods: &[u64]) -> DmatexFormat {
    DmatexFormat {
        format: Format::B8G8R8A8_UNORM,
        fourcc: Fourcc::Argb8888,
        variants: mods
            .iter()
            .map(|m| DmatexFormatVariant { modifier: *m, planes: 1 })
            .collect(),
    }
}

#[test]
fn modifier_intersection_keeps_device_order() {
    let device = vec![5, 3, 9, 7];
    let format = format_with_modifiers(&[7, 3, 11]);
    assert_eq!(compatible_modifiers(&device, &format), vec![3, 7]);
}

#[test]
fn modifier_intersection_empty_when_disjoint() {
    let device = vec![1, 2];
    let format = format_with_modifiers(&[3]);
    assert_eq!(compatible_modifiers(&device, &format), Vec::<u64>::new());
}

fn layout(offset: u64, row: u64) -> PlaneLayout {
    PlaneLayout { offset, row_pitch: row, array_pitch: None, depth_pitch: None }
}

#[test]
fn single_plane_presents_two_entries_sharing_one_handle() {
    // With one memory plane the registration message still carries two
    // entries; the second reuses plane 0's handle, which is duplicated.
    let layouts = vec![layout(0, 256)];
    let planes = plane_list(&layouts);
    assert_eq!(planes.len(), 2);
    assert_eq!(planes[0].handle_index, 0);
    assert_eq!(planes[1].handle_index, 0);
    assert_eq!(planes[0].offset, 0);
    assert_eq!(planes[0].row_size, 256);
}

#[test]
fn multi_plane_entries_each_use_their_own_handle() {
    let layouts = vec![layout(0, 256), layout(16384, 128)];
    let planes = plane_list(&layouts);
    assert_eq!(planes.len(), 2);
    assert_eq!(planes[0].handle_index, 0);
    assert_eq!(planes[1].handle_index, 1);
    assert_eq!(planes[1].offset, 16384);
    assert_eq!(planes[1].row_size, 128);
}

#[test]
fn plane_pitches_default_to_zero() {
    let layouts = vec![PlaneLayout {
        offset: 64,
        row_pitch: 512,
        array_pitch: Some(32768),
        depth_pitch: None,
    }];
    let planes = plane_list(&layouts);
    assert_eq!(planes[0].array_element_size, 32768);
    assert_eq!(planes[0].depth_slice_size, 0);
}

#[test]
fn registration_record_fields() {
    let format = DmatexFormat {
        format: Format::B8G8R8A8_SRGB,
        fourcc: Fourcc::Argb8888,
        variants: vec![DmatexFormatVariant { modifier: 4, planes: 1 }],
    };
    let layouts = vec![layout(0, 1024)];
    let d = Dmatex::new(17, DmatexSize::Dim2D(64, 64), &format, 4, Some(2), &layouts);
    assert_eq!(d.dmatex_id, 17);
    assert_eq!(d.size, DmatexSize::Dim2D(64, 64));
    assert_eq!(d.fourcc, Fourcc::Argb8888.code());
    assert_eq!(d.modifier, 4);
    assert!(d.is_srgb);
    assert_eq!(d.array_layers, Some(2));
    assert_eq!(d.planes.len(), 2);
}

#[test]
fn srgb_flag_follows_format_name() {
    let linear = DmatexFormat {
        format: Format::B8G8R8A8_UNORM,
        fourcc: Fourcc::Argb8888,
        variants: vec![DmatexFormatVariant { modifier: 0, planes: 1 }],
    };
    let layouts = vec![layout(0, 1024)];
    let d = Dmatex::new(1, DmatexSize::Dim2D(8, 8), &linear, 0, None, &layouts);
    assert!(!d.is_srgb);
}

#[test]
fn extent_fills_unused_axes_with_one() {
    assert_eq!(DmatexSize::Dim1D(640).extent(), (640, 1, 1));
    assert_eq!(DmatexSize::Dim2D(64, 32).extent(), (64, 32, 1));
    assert_eq!(DmatexSize::Dim3D(4, 5, 6).extent(), (4, 5, 6));
}

#[test]
fn render_node_id_packs_major_and_minor() {
    // makedev(226, 128): major 226 in bits 8..20, minor 128 in bits 0..8.
    assert_eq!(render_node_id_from_major_minor(226, 128), 226 * 256 + 128);
    // High major bits land above bit 32.
    assert_eq!(
        render_node_id_from_major_minor(0xfffff000, 0),
        0xfffff000u64 << 32
    );
    assert_eq!(render_node_id_from_major_minor(0, 0xff), 0xff);
    // Out-of-field bits are masked off.
    assert_eq!(render_node_id_from_major_minor(0, 0x100), 0);
}

#[test]
fn device_lookup_finds_first_matching_node() {
    let ids = vec![10, 57984, 20, 57984];
    assert_eq!(find_device_index(&ids, 57984), Some(1));
    assert_eq!(find_device_index(&ids, 99), None);
    assert_eq!(find_device_index(&Vec::new(), 1), None);
}
