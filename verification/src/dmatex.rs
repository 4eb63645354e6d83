use vstd::prelude::*;

use crate::format::{DmatexFormat, DmatexFormatVariant, is_srgb_format, fourcc_code};

verus! {

/// The dimensionality and extent of a shared image.
#[derive(Clone, Copy, PartialEq, Eq, Structural, Debug)]
pub enum DmatexSize {
    Dim1D(u32),
    Dim2D(u32, u32),
    Dim3D(u32, u32, u32),
}

/// The three-component extent handed to image creation; unused axes are 1.
pub open spec fn spec_extent(size: DmatexSize) -> (u32, u32, u32) {
    match size {
        DmatexSize::Dim1D(x) => (x, 1u32, 1u32),
        DmatexSize::Dim2D(x, y) => (x, y, 1u32),
        DmatexSize::Dim3D(x, y, z) => (x, y, z),
    }
}

impl DmatexSize {
    /// The extent to create the image with: width, height and depth, where
    /// axes the size does not have are 1.
    pub fn extent(&self) -> (r: (u32, u32, u32))
        ensures
            r == spec_extent(*self),
    {
        match *self {
            DmatexSize::Dim1D(x) => (x, 1, 1),
            DmatexSize::Dim2D(x, y) => (x, y, 1),
            DmatexSize::Dim3D(x, y, z) => (x, y, z),
        }
    }
}

/// What the device advertises of one of its memory types: whether it is
/// device-local and whether it is protected memory.
#[derive(Clone, Copy, PartialEq, Eq, Structural, Debug)]
pub struct MemoryTypeInfo {
    pub device_local: bool,
    pub protected: bool,
}

/// Whether memory type `i` may back a plane: the plane's requirements admit
/// it, it is device-local, and it is not protected memory.
pub open spec fn eligible_memory_type(
    types: Seq<MemoryTypeInfo>,
    type_bits: u32,
    i: int,
) -> bool {
    &&& 0 <= i < types.len()
    &&& types.len() <= 32
    &&& type_bits & (1u32 << (i as u32)) != 0
    &&& types[i].device_local
    &&& !types[i].protected
}

/// Whether no memory type at all may back a plane with these requirement
/// bits; creation of the whole image must then fail.
pub open spec fn no_eligible_memory_type(types: Seq<MemoryTypeInfo>, type_bits: u32) -> bool {
    forall|i: int| !eligible_memory_type(types, type_bits, i)
}

/// Whether `i` is the first memory type that may back a plane with these
/// requirement bits.
pub open spec fn first_eligible_memory_type(
    types: Seq<MemoryTypeInfo>,
    type_bits: u32,
    i: int,
) -> bool {
    &&& eligible_memory_type(types, type_bits, i)
    &&& forall|j: int| 0 <= j < i ==> !eligible_memory_type(types, type_bits, j)
}

/// Picks the memory type to allocate a plane from: the first type admitted
/// by the plane's requirement bits that is device-local and not protected.
/// Device-local types need not come first in the table, and a protected type
/// may precede them, so both tests are applied while scanning in order.
/// `None` when no type qualifies, which fails the whole image creation.
pub fn select_memory_type(types: &Vec<MemoryTypeInfo>, type_bits: u32) -> (r: Option<usize>)
    requires
        types@.len() <= 32,
    ensures
        match r {
            Some(i) => first_eligible_memory_type(types@, type_bits, i as int),
            None => no_eligible_memory_type(types@, type_bits),
        },
{
    let mut i: usize = 0;
    while i < types.len()
        invariant
            types@.len() <= 32,
            i <= types@.len(),
            forall|i2: int| 0 <= i2 < i ==> !eligible_memory_type(types@, type_bits, i2),
        decreases types@.len() - i,
    {
        let t = types[i];
        if type_bits & (1u32 << (i as u32)) != 0 && t.device_local && !t.protected {
            return Some(i);
        }
        i = i + 1;
    }
    None
}

/// Plans the allocation of every memory plane: for each plane's
/// memory-requirement bits, the memory type to allocate it from. The plan is
/// all-or-nothing, as a partially backed image is not a supported state:
/// `None` as soon as any plane has no eligible type.
pub fn plan_memory_types(
    types: &Vec<MemoryTypeInfo>,
    plane_type_bits: &Vec<u32>,
) -> (r: Option<Vec<usize>>)
    requires
        types@.len() <= 32,
    ensures
        match r {
            Some(plan) => plan@.len() == plane_type_bits@.len() && forall|p: int|
                0 <= p < plan@.len() ==> first_eligible_memory_type(
                    types@,
                    plane_type_bits@[p],
                    plan@[p] as int,
                ),
            None => exists|p: int|
                0 <= p < plane_type_bits@.len() && no_eligible_memory_type(
                    types@,
                    #[trigger] plane_type_bits@[p],
                ),
        },
{
    let mut plan: Vec<usize> = Vec::new();
    let mut p: usize = 0;
    while p < plane_type_bits.len()
        invariant
            types@.len() <= 32,
            p <= plane_type_bits@.len(),
            plan@.len() == p,
            forall|p2: int|
                0 <= p2 < p ==> first_eligible_memory_type(
                    types@,
                    plane_type_bits@[p2],
                    plan@[p2] as int,
                ),
        decreases plane_type_bits@.len() - p,
    {
        match select_memory_type(types, plane_type_bits[p]) {
            Some(i) => plan.push(i),
            None => {
                return None;
            },
        }
        p = p + 1;
    }
    Some(plan)
}

/// Whether some variant of a format carries the given modifier.
pub open spec fn variants_allow(vs: Seq<DmatexFormatVariant>, modifier: u64) -> bool {
    exists|k: int| 0 <= k < vs.len() && vs[k].modifier == modifier
}

/// The device's modifier list restricted to the modifiers the variants
/// allow, in the device's order.
pub open spec fn filter_compatible(mods: Seq<u64>, vs: Seq<DmatexFormatVariant>) -> Seq<u64>
    decreases mods.len(),
{
    if mods.len() == 0 {
        Seq::empty()
    } else {
        let rest = filter_compatible(mods.drop_last(), vs);
        if variants_allow(vs, mods.last()) {
            rest.push(mods.last())
        } else {
            rest
        }
    }
}

/// Whether the format lists the given modifier among its variants.
pub fn variant_modifiers_contain(variants: &Vec<DmatexFormatVariant>, modifier: u64) -> (r: bool)
    ensures
        r == variants_allow(variants@, modifier),
{
    let mut k: usize = 0;
    while k < variants.len()
        invariant
            k <= variants@.len(),
            forall|k2: int| 0 <= k2 < k ==> variants@[k2].modifier != modifier,
        decreases variants@.len() - k,
    {
        if variants[k].modifier == modifier {
            return true;
        }
        k = k + 1;
    }
    false
}

/// Intersects the modifiers the device supports for a format with those the
/// compositor advertised for it. The result is the candidate set handed to
/// image creation; no single modifier is picked here, the driver chooses
/// among the compatible ones.
pub fn compatible_modifiers(device_modifiers: &Vec<u64>, format: &DmatexFormat) -> (r: Vec<u64>)
    ensures
        r@ == filter_compatible(device_modifiers@, format.variants@),
{
    let mut r: Vec<u64> = Vec::new();
    let mut i: usize = 0;
    while i < device_modifiers.len()
        invariant
            i <= device_modifiers@.len(),
            r@ == filter_compatible(device_modifiers@.subrange(0, i as int), format.variants@),
        decreases device_modifiers@.len() - i,
    {
        let m = device_modifiers[i];
        let keep = variant_modifiers_contain(&format.variants, m);
        proof {
            let sub = device_modifiers@.subrange(0, i as int);
            assert(device_modifiers@.subrange(0, i + 1).drop_last() =~= sub);
            assert(device_modifiers@.subrange(0, i + 1).last() == m);
        }
        if keep {
            r.push(m);
        }
        i = i + 1;
    }
    proof {
        assert(device_modifiers@.subrange(0, device_modifiers@.len() as int)
            =~= device_modifiers@);
    }
    r
}

/// Every modifier the intersection keeps was allowed by the variants and
/// came from the device's list, and every device modifier the variants allow
/// is kept.
pub proof fn lemma_filter_compatible(mods: Seq<u64>, vs: Seq<DmatexFormatVariant>)
    ensures
        forall|k: int| #![auto]
            0 <= k < filter_compatible(mods, vs).len() ==> variants_allow(
                vs,
                filter_compatible(mods, vs)[k],
            ) && mods.contains(filter_compatible(mods, vs)[k]),
        forall|i: int| #![auto]
            0 <= i < mods.len() && variants_allow(vs, mods[i]) ==> filter_compatible(
                mods,
                vs,
            ).contains(mods[i]),
    decreases mods.len(),
{
    if mods.len() > 0 {
        lemma_filter_compatible(mods.drop_last(), vs);
        let rest = filter_compatible(mods.drop_last(), vs);
        assert forall|k: int| #![auto]
            0 <= k < filter_compatible(mods, vs).len() implies variants_allow(
            vs,
            filter_compatible(mods, vs)[k],
        ) && mods.contains(filter_compatible(mods, vs)[k]) by {
            if k < rest.len() {
                assert(mods.drop_last().contains(rest[k]));
                let w = choose|w: int| 0 <= w < mods.drop_last().len() && mods.drop_last()[w]
                    == rest[k];
                assert(mods[w] == rest[k]);
            } else {
                assert(mods[mods.len() - 1] == mods.last());
            }
        }
        assert forall|i: int| #![auto]
            0 <= i < mods.len() && variants_allow(vs, mods[i]) implies filter_compatible(
            mods,
            vs,
        ).contains(mods[i]) by {
            if i < mods.len() - 1 {
                assert(mods.drop_last()[i] == mods[i]);
                assert(rest.contains(mods[i]));
                let w = choose|w: int| 0 <= w < rest.len() && rest[w] == mods[i];
                if variants_allow(vs, mods.last()) {
                    assert(rest.push(mods.last())[w] == mods[i]);
                } else {
                    assert(filter_compatible(mods, vs) == rest);
                }
            } else {
                let out = filter_compatible(mods, vs);
                assert(out[out.len() - 1] == mods.last());
            }
        }
    }
}

/// Byte layout of one memory plane as queried from the bound image.
#[derive(Clone, Copy, PartialEq, Eq, Debug)]
pub struct PlaneLayout {
    pub offset: u64,
    pub row_pitch: u64,
    pub array_pitch: Option<u64>,
    pub depth_pitch: Option<u64>,
}

/// One plane of the registration message. `handle_index` says which exported
/// per-plane handle the entry carries, as an index into the list of exported
/// handles; an index that appears twice means the same logical handle is
/// handed over twice and must be duplicated before sending.
#[derive(Clone, Copy, PartialEq, Eq, Debug)]
pub struct DmatexPlane {
    pub handle_index: usize,
    pub offset: u32,
    pub row_size: u32,
    pub array_element_size: u32,
    pub depth_slice_size: u32,
}

/// The registration entry built from a queried plane layout and the handle
/// it is exported under. Pitches a layout does not have are sent as 0.
pub open spec fn spec_plane(l: PlaneLayout, h: usize) -> DmatexPlane {
    DmatexPlane {
        handle_index: h,
        offset: (l.offset & 0xffff_ffff) as u32,
        row_size: (l.row_pitch & 0xffff_ffff) as u32,
        array_element_size: match l.array_pitch {
            Some(a) => (a & 0xffff_ffff) as u32,
            None => 0u32,
        },
        depth_slice_size: match l.depth_pitch {
            Some(d) => (d & 0xffff_ffff) as u32,
            None => 0u32,
        },
    }
}

/// Builds one registration entry from a plane's layout and handle index.
fn plane_entry(l: &PlaneLayout, h: usize) -> (r: DmatexPlane)
    ensures
        r == spec_plane(*l, h),
{
    DmatexPlane {
        handle_index: h,
        offset: (l.offset & 0xffff_ffff) as u32,
        row_size: (l.row_pitch & 0xffff_ffff) as u32,
        array_element_size: match l.array_pitch {
            Some(a) => (a & 0xffff_ffff) as u32,
            None => 0,
        },
        depth_slice_size: match l.depth_pitch {
            Some(d) => (d & 0xffff_ffff) as u32,
            None => 0,
        },
    }
}

/// Assembles the plane list of the registration message: one entry per
/// plane, in plane order, each carrying its own exported handle. A
/// single-plane image presents two entries, the second reusing plane 0's
/// handle (duplicated on export), so the consumer always sees at least two.
pub fn plane_list(layouts: &Vec<PlaneLayout>) -> (r: Vec<DmatexPlane>)
    requires
        layouts@.len() >= 1,
    ensures
        r@.len() == if layouts@.len() == 1 { 2int } else { layouts@.len() as int },
        forall|i: int| 0 <= i < layouts@.len() ==> r@[i] == spec_plane(layouts@[i], i as usize),
        layouts@.len() == 1 ==> r@[1] == spec_plane(layouts@[0], 0),
{
    let mut r: Vec<DmatexPlane> = Vec::new();
    let mut i: usize = 0;
    while i < layouts.len()
        invariant
            layouts@.len() >= 1,
            i <= layouts@.len(),
            r@.len() == i,
            forall|i2: int| 0 <= i2 < i ==> r@[i2] == spec_plane(layouts@[i2], i2 as usize),
        decreases layouts@.len() - i,
    {
        let entry = plane_entry(&layouts[i], i);
        r.push(entry);
        i = i + 1;
    }
    if layouts.len() == 1 {
        let dup = plane_entry(&layouts[0], 0);
        r.push(dup);
    }
    r
}

/// The library's record of one shared image, as registered with the
/// compositor: its identifier, extent, the fourcc code and chosen modifier,
/// the SRGB flag, the array-layer count, and the plane list. The GPU image,
/// its memory and the timeline primitive that realise it are owned by the
/// caller that created them alongside this record.
pub struct Dmatex {
    pub dmatex_id: u64,
    pub size: DmatexSize,
    pub fourcc: u32,
    pub modifier: u64,
    pub is_srgb: bool,
    pub array_layers: Option<u32>,
    pub planes: Vec<DmatexPlane>,
}

impl Dmatex {
    /// Builds the registration record of a freshly created image: the fourcc
    /// code and SRGB flag come from the format, the modifier is the one the
    /// driver chose among the compatible candidates, and the plane list is
    /// assembled from the queried per-plane layouts.
    pub fn new(
        dmatex_id: u64,
        size: DmatexSize,
        format: &DmatexFormat,
        modifier: u64,
        array_layers: Option<u32>,
        layouts: &Vec<PlaneLayout>,
    ) -> (r: Dmatex)
        requires
            layouts@.len() >= 1,
            variants_allow(format.variants@, modifier),
        ensures
            r.dmatex_id == dmatex_id,
            r.size == size,
            r.fourcc == fourcc_code(format.fourcc),
            r.modifier == modifier,
            r.is_srgb == is_srgb_format(format.format),
            r.array_layers == array_layers,
            r.planes@.len() == if layouts@.len() == 1 { 2int } else { layouts@.len() as int },
            forall|i: int|
                0 <= i < layouts@.len() ==> r.planes@[i] == spec_plane(layouts@[i], i as usize),
            layouts@.len() == 1 ==> r.planes@[1] == spec_plane(layouts@[0], 0),
    {
        let planes = plane_list(layouts);
        Dmatex {
            dmatex_id,
            size,
            fourcc: format.drm_fourcc().code(),
            modifier,
            is_srgb: format.vk_format().is_srgb(),
            array_layers,
            planes,
        }
    }
}

} // verus!
