use dmatex::format::Fourcc;
use drm_fourcc::DrmFourcc;

#[test]
fn codes_match_kernel_constants() {
    let pairs: Vec<(Fourcc, DrmFourcc)> = vec![
        (Fourcc::Abgr1555, DrmFourcc::Abgr1555),
        (Fourcc::Xbgr1555, DrmFourcc::Xbgr1555),
        (Fourcc::Abgr2101010, DrmFourcc::Abgr2101010),
        (Fourcc::Xbgr2101010, DrmFourcc::Xbgr2101010),
        (Fourcc::Abgr4444, DrmFourcc::Abgr4444),
        (Fourcc::Xbgr4444, DrmFourcc::Xbgr4444),
        (Fourcc::Abgr8888, DrmFourcc::Abgr8888),
        (Fourcc::Xbgr8888, DrmFourcc::Xbgr8888),
        (Fourcc::Argb1555, DrmFourcc::Argb1555),
        (Fourcc::Xrgb1555, DrmFourcc::Xrgb1555),
        (Fourcc::Argb2101010, DrmFourcc::Argb2101010),
        (Fourcc::Xrgb2101010, DrmFourcc::Xrgb2101010),
        (Fourcc::Argb4444, DrmFourcc::Argb4444),
        (Fourcc::Xrgb4444, DrmFourcc::Xrgb4444),
        (Fourcc::Argb8888, DrmFourcc::Argb8888),
        (Fourcc::Xrgb8888, DrmFourcc::Xrgb8888),
        (Fourcc::Bgr565, DrmFourcc::Bgr565),
        (Fourcc::Bgr888, DrmFourcc::Bgr888),
        (Fourcc::Bgra4444, DrmFourcc::Bgra4444),
        (Fourcc::Bgrx4444, DrmFourcc::Bgrx4444),
        (Fourcc::Bgra5551, DrmFourcc::Bgra5551),
        (Fourcc::Bgrx5551, DrmFourcc::Bgrx5551),
        (Fourcc::Bgra8888, DrmFourcc::Bgra8888),
        (Fourcc::Bgrx8888, DrmFourcc::Bgrx8888),
        (Fourcc::R16, DrmFourcc::R16),
        (Fourcc::R8, DrmFourcc::R8),
        (Fourcc::Rg1616, DrmFourcc::Rg1616),
        (Fourcc::Rg88, DrmFourcc::Rg88),
        (Fourcc::Rgb565, DrmFourcc::Rgb565),
        (Fourcc::Rgb888, DrmFourcc::Rgb888),
        (Fourcc::Rgba4444, DrmFourcc::Rgba4444),
        (Fourcc::Rgbx4444, DrmFourcc::Rgbx4444),
        (Fourcc::Rgba5551, DrmFourcc::Rgba5551),
        (Fourcc::Rgbx5551, DrmFourcc::Rgbx5551),
        (Fourcc::Rgba8888, DrmFourcc::Rgba8888),
        (Fourcc::Rgbx8888, DrmFourcc::Rgbx8888),
        (Fourcc::Abgr16161616f, DrmFourcc::Abgr16161616f),
        (Fourcc::Bgr888A8, DrmFourcc::Bgr888_a8),
        (Fourcc::Rgb888A8, DrmFourcc::Rgb888_a8),
        (Fourcc::Nv12, DrmFourcc::Nv12),
        (Fourcc::Yuyv, DrmFourcc::Yuyv),
        (Fourcc::C8, DrmFourcc::C8),
    ];
    for (ours, theirs) in pairs {
        assert_eq!(ours.code(), theirs as u32, "{:?}", ours);
    }
}

#[test]
fn from_code_round_trips() {
    let all = vec![
        Fourcc::Abgr1555,
        Fourcc::Xbgr1555,
        Fourcc::Abgr2101010,
        Fourcc::Xbgr2101010,
        Fourcc::Abgr4444,
        Fourcc::Xbgr4444,
        Fourcc::Abgr8888,
        Fourcc::Xbgr8888,
        Fourcc::Argb1555,
        Fourcc::Xrgb1555,
        Fourcc::Argb2101010,
        Fourcc::Xrgb2101010,
        Fourcc::Argb4444,
        Fourcc::Xrgb4444,
        Fourcc::Argb8888,
        Fourcc::Xrgb8888,
        Fourcc::Bgr565,
        Fourcc::Bgr888,
        Fourcc::Bgra4444,
        Fourcc::Bgrx4444,
        Fourcc::Bgra5551,
        Fourcc::Bgrx5551,
        Fourcc::Bgra8888,
        Fourcc::Bgrx8888,
        Fourcc::R16,
        Fourcc::R8,
        Fourcc::Rg1616,
        Fourcc::Rg88,
        Fourcc::Rgb565,
        Fourcc::Rgb888,
        Fourcc::Rgba4444,
        Fourcc::Rgbx4444,
        Fourcc::Rgba5551,
        Fourcc::Rgbx5551,
        Fourcc::Rgba8888,
        Fourcc::Rgbx8888,
        Fourcc::Abgr16161616f,
        Fourcc::Bgr888A8,
        Fourcc::Rgb888A8,
        Fourcc::Nv12,
        Fourcc::Yuyv,
        Fourcc::C8,
    ];
    for f in all {
        assert_eq!(Fourcc::from_code(f.code()), Some(f));
    }
}

#[test]
fn from_code_rejects_unknown() {
    assert_eq!(Fourcc::from_code(0), None);
    assert_eq!(Fourcc::from_code(0xdead_beef), None);
    // A valid kernel fourcc this library does not map: YVYU.
    assert_eq!(Fourcc::from_code(DrmFourcc::Yvyu as u32), None);
}

#[test]
fn argb8888_code_value() {
    assert_eq!(Fourcc::Argb8888.code(), 875713089);
    assert_eq!(Fourcc::Xrgb8888.code(), 875713112);
}
