//! An explicit-sync shared-image swapchain for clients that hand GPU images
//! to a compositor without copying pixels. The library holds the verified
//! core: the format and modifier negotiation (`format`), the per-image
//! registration record with its memory-type, plane and extent decisions
//! (`dmatex`), and the round-robin ring with its timeline-point bookkeeping
//! (`swapchain`), which never lets a producer overwrite an image the
//! consumer has not released and never signals a timeline point twice. The
//! GPU driver calls, the DRM timeline primitives and the compositor wire
//! protocol stay outside, handing this library plain values and acting on
//! the decisions it returns.

pub mod dmatex;
pub mod format;
pub mod swapchain;

use vstd::prelude::*;

verus! {

/// Combines a DRM render node's major and minor numbers into the Linux
/// `dev_t` value that identifies the node, as `makedev` lays it out.
pub open spec fn spec_render_node_id(major: u64, minor: u64) -> u64 {
    ((major & 0xfffff000) << 32) | ((major & 0xfff) << 8) | (minor & 0xff)
}

/// Builds the `dev_t` device-node identifier from a render node's
/// major and minor numbers.
pub fn render_node_id_from_major_minor(major: u64, minor: u64) -> (r: u64)
    ensures
        r == spec_render_node_id(major, minor),
{
    ((major & 0xfffff000) << 32) | ((major & 0xfff) << 8) | (minor & 0xff)
}

/// Picks the physical device that backs the compositor's render node: the
/// first device whose node identifier equals the target. `None` when no
/// device matches, which the caller surfaces as a device-resolution error.
pub fn find_device_index(node_ids: &Vec<u64>, target: u64) -> (r: Option<usize>)
    ensures
        match r {
            Some(i) => i < node_ids@.len() && node_ids@[i as int] == target && forall|j: int|
                0 <= j < i ==> node_ids@[j] != target,
            None => forall|j: int| 0 <= j < node_ids@.len() ==> node_ids@[j] != target,
        },
{
    let mut i: usize = 0;
    while i < node_ids.len()
        invariant
            i <= node_ids@.len(),
            forall|j: int| 0 <= j < i ==> node_ids@[j] != target,
        decreases node_ids@.len() - i,
    {
        if node_ids[i] == target {
            return Some(i);
        }
        i = i + 1;
    }
    None
}

} // verus!
