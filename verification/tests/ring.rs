use dmatex::dmatex::{Dmatex, DmatexSize, PlaneLayout};
use dmatex::format::{DmatexFormat, DmatexFormatVariant, Format, Fourcc};
use dmatex::swapchain::Swapchain;

fn one_plane_format() -> DmatexFormat {
    DmatexFormat {
        format: Format::B8G8R8A8_UNORM,
        fourcc: Fourcc::Argb8888,
        variants: vec![DmatexFormatVariant { modifier: 0, planes: 1 }],
    }
}

fn test_image(id: u64) -> Dmatex {
    let layouts = vec![PlaneLayout {
        offset: 0,
        row_pitch: 256,
        array_pitch: None,
        depth_pitch: None,
    }];
    Dmatex::new(id, DmatexSize::Dim2D(64, 64), &one_plane_format(), 0, None, &layouts)
}

fn ring_of(n: u64) -> Swapchain {
    let mut images = Vec::new();
    for id in 0..n {
        images.push(test_image(id));
    }
    Swapchain::new(images)
}

#[test]
fn five_acquisitions_of_three_slots() {
    // Ring of 3 images of 64 by 64, one modifier, one plane: five
    // acquisitions hand out slots 0, 1, 2, 0, 1 with acquire points
    // 1, 1, 1, 3, 3.
    let mut ring = ring_of(3);
    let expected_slots = [0usize, 1, 2, 0, 1];
    let expected_acquire = [1u64, 1, 1, 3, 3];
    for step in 0..5 {
        let h = ring.prepare_next_image();
        assert_eq!(h.slot_index, expected_slots[step], "slot at step {step}");
        assert_eq!(h.server_acquire, expected_acquire[step], "acquire at step {step}");
    }
}

#[test]
fn round_robin_order_many_rounds() {
    // Slot handed out by acquisition number k of a ring of n is k mod n.
    let n = 4u64;
    let mut ring = ring_of(n);
    for k in 0..25usize {
        let h = ring.prepare_next_image();
        assert_eq!(h.slot_index, k % n as usize);
    }
}

#[test]
fn previous_release_advances_by_two_per_revisit() {
    // Per slot, successive acquisitions see previous releases 0, 2, 4, ...
    // with acquire and next-release points one and two past them.
    let n = 3usize;
    let mut ring = ring_of(n as u64);
    let mut last_previous = [None::<u64>; 3];
    for _ in 0..12 {
        let h = ring.prepare_next_image();
        let slot = h.slot_index;
        match last_previous[slot] {
            None => assert_eq!(h.previous_server_release, 0),
            Some(prev) => assert_eq!(h.previous_server_release, prev + 2),
        }
        assert_eq!(h.server_acquire, h.previous_server_release + 1);
        assert_eq!(h.next_server_release, h.previous_server_release + 2);
        last_previous[slot] = Some(h.previous_server_release);
    }
}

#[test]
fn release_point_round_trips_to_next_wait() {
    // The release point handed to the compositor by one submission of a slot
    // is exactly the previous-release the next handoff of that slot waits on.
    let mut ring = ring_of(2);
    let h0 = ring.prepare_next_image();
    let slot0 = h0.slot_index;
    let material0 = h0.submit();
    let _h1 = ring.prepare_next_image();
    let h0_again = ring.prepare_next_image();
    assert_eq!(h0_again.slot_index, slot0);
    assert_eq!(h0_again.previous_server_release, material0.release_point);
}

#[test]
fn material_param_carries_the_handle_points() {
    let mut ring = ring_of(1);
    let h = ring.prepare_next_image();
    let id = h.dmatex_id;
    let acquire = h.server_acquire;
    let release = h.next_server_release;
    let m = h.submit();
    assert_eq!(m.dmatex_id, id);
    assert_eq!(m.acquire_point, acquire);
    assert_eq!(m.release_point, release);
    assert_eq!(m.acquire_point, 1);
    assert_eq!(m.release_point, 2);
}

#[test]
fn single_slot_ring_points_increase() {
    let mut ring = ring_of(1);
    for k in 0..6u64 {
        let h = ring.prepare_next_image();
        assert_eq!(h.slot_index, 0);
        assert_eq!(h.previous_server_release, 2 * k);
        assert_eq!(h.server_acquire, 2 * k + 1);
        assert_eq!(h.next_server_release, 2 * k + 2);
    }
}

#[test]
fn handle_names_the_slot_image() {
    let mut ring = ring_of(3);
    for expected_id in [0u64, 1, 2] {
        let h = ring.prepare_next_image();
        assert_eq!(h.dmatex_id, expected_id);
    }
}
