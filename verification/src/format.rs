use vstd::prelude::*;

verus! {

/// The DRM fourcc codes this library understands. Each stands for one of the
/// kernel's `DRM_FORMAT_*` constants; `code` gives the packed 32-bit value.
/// The first block maps to an API format; the last few are recognised codes
/// for which no API format is offered.
#[derive(Clone, Copy, PartialEq, Eq, Structural, Debug)]
pub enum Fourcc {
    Abgr1555,
    Xbgr1555,
    Abgr2101010,
    Xbgr2101010,
    Abgr4444,
    Xbgr4444,
    Abgr8888,
    Xbgr8888,
    Argb1555,
    Xrgb1555,
    Argb2101010,
    Xrgb2101010,
    Argb4444,
    Xrgb4444,
    Argb8888,
    Xrgb8888,
    Bgr565,
    Bgr888,
    Bgra4444,
    Bgrx4444,
    Bgra5551,
    Bgrx5551,
    Bgra8888,
    Bgrx8888,
    R16,
    R8,
    Rg1616,
    Rg88,
    Rgb565,
    Rgb888,
    Rgba4444,
    Rgbx4444,
    Rgba5551,
    Rgbx5551,
    Rgba8888,
    Rgbx8888,
    Abgr16161616f,
    Bgr888A8,
    Rgb888A8,
    Nv12,
    Yuyv,
    C8,
}

/// Packs four ASCII bytes into a fourcc code, least significant byte first,
/// as the kernel's `fourcc_code` macro does.
pub open spec fn pack_fourcc(a: u8, b: u8, c: u8, d: u8) -> u32 {
    (a + b * 0x100 + c * 0x1_0000 + d * 0x100_0000) as u32
}

/// The packed code of each recognised fourcc, by its four ASCII characters.
pub open spec fn fourcc_code(f: Fourcc) -> u32 {
    match f {
        Fourcc::Abgr1555 => pack_fourcc(65, 66, 49, 53),
        Fourcc::Xbgr1555 => pack_fourcc(88, 66, 49, 53),
        Fourcc::Abgr2101010 => pack_fourcc(65, 66, 51, 48),
        Fourcc::Xbgr2101010 => pack_fourcc(88, 66, 51, 48),
        Fourcc::Abgr4444 => pack_fourcc(65, 66, 49, 50),
        Fourcc::Xbgr4444 => pack_fourcc(88, 66, 49, 50),
        Fourcc::Abgr8888 => pack_fourcc(65, 66, 50, 52),
        Fourcc::Xbgr8888 => pack_fourcc(88, 66, 50, 52),
        Fourcc::Argb1555 => pack_fourcc(65, 82, 49, 53),
        Fourcc::Xrgb1555 => pack_fourcc(88, 82, 49, 53),
        Fourcc::Argb2101010 => pack_fourcc(65, 82, 51, 48),
        Fourcc::Xrgb2101010 => pack_fourcc(88, 82, 51, 48),
        Fourcc::Argb4444 => pack_fourcc(65, 82, 49, 50),
        Fourcc::Xrgb4444 => pack_fourcc(88, 82, 49, 50),
        Fourcc::Argb8888 => pack_fourcc(65, 82, 50, 52),
        Fourcc::Xrgb8888 => pack_fourcc(88, 82, 50, 52),
        Fourcc::Bgr565 => pack_fourcc(66, 71, 49, 54),
        Fourcc::Bgr888 => pack_fourcc(66, 71, 50, 52),
        Fourcc::Bgra4444 => pack_fourcc(66, 65, 49, 50),
        Fourcc::Bgrx4444 => pack_fourcc(66, 88, 49, 50),
        Fourcc::Bgra5551 => pack_fourcc(66, 65, 49, 53),
        Fourcc::Bgrx5551 => pack_fourcc(66, 88, 49, 53),
        Fourcc::Bgra8888 => pack_fourcc(66, 65, 50, 52),
        Fourcc::Bgrx8888 => pack_fourcc(66, 88, 50, 52),
        Fourcc::R16 => pack_fourcc(82, 49, 54, 32),
        Fourcc::R8 => pack_fourcc(82, 56, 32, 32),
        Fourcc::Rg1616 => pack_fourcc(82, 71, 51, 50),
        Fourcc::Rg88 => pack_fourcc(82, 71, 56, 56),
        Fourcc::Rgb565 => pack_fourcc(82, 71, 49, 54),
        Fourcc::Rgb888 => pack_fourcc(82, 71, 50, 52),
        Fourcc::Rgba4444 => pack_fourcc(82, 65, 49, 50),
        Fourcc::Rgbx4444 => pack_fourcc(82, 88, 49, 50),
        Fourcc::Rgba5551 => pack_fourcc(82, 65, 49, 53),
        Fourcc::Rgbx5551 => pack_fourcc(82, 88, 49, 53),
        Fourcc::Rgba8888 => pack_fourcc(82, 65, 50, 52),
        Fourcc::Rgbx8888 => pack_fourcc(82, 88, 50, 52),
        Fourcc::Abgr16161616f => pack_fourcc(65, 66, 52, 72),
        Fourcc::Bgr888A8 => pack_fourcc(66, 56, 65, 56),
        Fourcc::Rgb888A8 => pack_fourcc(82, 56, 65, 56),
        Fourcc::Nv12 => pack_fourcc(78, 86, 49, 50),
        Fourcc::Yuyv => pack_fourcc(89, 85, 89, 86),
        Fourcc::C8 => pack_fourcc(67, 56, 32, 32),
    }
}

/// Which fourcc, if any, a packed 32-bit code denotes.
pub open spec fn fourcc_from_code(code: u32) -> Option<Fourcc> {
    if code == fourcc_code(Fourcc::Abgr1555) { Some(Fourcc::Abgr1555) }
    else if code == fourcc_code(Fourcc::Xbgr1555) { Some(Fourcc::Xbgr1555) }
    else if code == fourcc_code(Fourcc::Abgr2101010) { Some(Fourcc::Abgr2101010) }
    else if code == fourcc_code(Fourcc::Xbgr2101010) { Some(Fourcc::Xbgr2101010) }
    else if code == fourcc_code(Fourcc::Abgr4444) { Some(Fourcc::Abgr4444) }
    else if code == fourcc_code(Fourcc::Xbgr4444) { Some(Fourcc::Xbgr4444) }
    else if code == fourcc_code(Fourcc::Abgr8888) { Some(Fourcc::Abgr8888) }
    else if code == fourcc_code(Fourcc::Xbgr8888) { Some(Fourcc::Xbgr8888) }
    else if code == fourcc_code(Fourcc::Argb1555) { Some(Fourcc::Argb1555) }
    else if code == fourcc_code(Fourcc::Xrgb1555) { Some(Fourcc::Xrgb1555) }
    else if code == fourcc_code(Fourcc::Argb2101010) { Some(Fourcc::Argb2101010) }
    else if code == fourcc_code(Fourcc::Xrgb2101010) { Some(Fourcc::Xrgb2101010) }
    else if code == fourcc_code(Fourcc::Argb4444) { Some(Fourcc::Argb4444) }
    else if code == fourcc_code(Fourcc::Xrgb4444) { Some(Fourcc::Xrgb4444) }
    else if code == fourcc_code(Fourcc::Argb8888) { Some(Fourcc::Argb8888) }
    else if code == fourcc_code(Fourcc::Xrgb8888) { Some(Fourcc::Xrgb8888) }
    else if code == fourcc_code(Fourcc::Bgr565) { Some(Fourcc::Bgr565) }
    else if code == fourcc_code(Fourcc::Bgr888) { Some(Fourcc::Bgr888) }
    else if code == fourcc_code(Fourcc::Bgra4444) { Some(Fourcc::Bgra4444) }
    else if code == fourcc_code(Fourcc::Bgrx4444) { Some(Fourcc::Bgrx4444) }
    else if code == fourcc_code(Fourcc::Bgra5551) { Some(Fourcc::Bgra5551) }
    else if code == fourcc_code(Fourcc::Bgrx5551) { Some(Fourcc::Bgrx5551) }
    else if code == fourcc_code(Fourcc::Bgra8888) { Some(Fourcc::Bgra8888) }
    else if code == fourcc_code(Fourcc::Bgrx8888) { Some(Fourcc::Bgrx8888) }
    else if code == fourcc_code(Fourcc::R16) { Some(Fourcc::R16) }
    else if code == fourcc_code(Fourcc::R8) { Some(Fourcc::R8) }
    else if code == fourcc_code(Fourcc::Rg1616) { Some(Fourcc::Rg1616) }
    else if code == fourcc_code(Fourcc::Rg88) { Some(Fourcc::Rg88) }
    else if code == fourcc_code(Fourcc::Rgb565) { Some(Fourcc::Rgb565) }
    else if code == fourcc_code(Fourcc::Rgb888) { Some(Fourcc::Rgb888) }
    else if code == fourcc_code(Fourcc::Rgba4444) { Some(Fourcc::Rgba4444) }
    else if code == fourcc_code(Fourcc::Rgbx4444) { Some(Fourcc::Rgbx4444) }
    else if code == fourcc_code(Fourcc::Rgba5551) { Some(Fourcc::Rgba5551) }
    else if code == fourcc_code(Fourcc::Rgbx5551) { Some(Fourcc::Rgbx5551) }
    else if code == fourcc_code(Fourcc::Rgba8888) { Some(Fourcc::Rgba8888) }
    else if code == fourcc_code(Fourcc::Rgbx8888) { Some(Fourcc::Rgbx8888) }
    else if code == fourcc_code(Fourcc::Abgr16161616f) { Some(Fourcc::Abgr16161616f) }
    else if code == fourcc_code(Fourcc::Bgr888A8) { Some(Fourcc::Bgr888A8) }
    else if code == fourcc_code(Fourcc::Rgb888A8) { Some(Fourcc::Rgb888A8) }
    else if code == fourcc_code(Fourcc::Nv12) { Some(Fourcc::Nv12) }
    else if code == fourcc_code(Fourcc::Yuyv) { Some(Fourcc::Yuyv) }
    else if code == fourcc_code(Fourcc::C8) { Some(Fourcc::C8) }
    else { None }
}

impl Fourcc {
    /// The packed 32-bit value of this fourcc, as the kernel defines it.
    pub fn code(self) -> (r: u32)
        ensures
            r == fourcc_code(self),
    {
        match self {
            Fourcc::Abgr1555 => 892420673,
            Fourcc::Xbgr1555 => 892420696,
            Fourcc::Abgr2101010 => 808665665,
            Fourcc::Xbgr2101010 => 808665688,
            Fourcc::Abgr4444 => 842089025,
            Fourcc::Xbgr4444 => 842089048,
            Fourcc::Abgr8888 => 875708993,
            Fourcc::Xbgr8888 => 875709016,
            Fourcc::Argb1555 => 892424769,
            Fourcc::Xrgb1555 => 892424792,
            Fourcc::Argb2101010 => 808669761,
            Fourcc::Xrgb2101010 => 808669784,
            Fourcc::Argb4444 => 842093121,
            Fourcc::Xrgb4444 => 842093144,
            Fourcc::Argb8888 => 875713089,
            Fourcc::Xrgb8888 => 875713112,
            Fourcc::Bgr565 => 909199170,
            Fourcc::Bgr888 => 875710274,
            Fourcc::Bgra4444 => 842088770,
            Fourcc::Bgrx4444 => 842094658,
            Fourcc::Bgra5551 => 892420418,
            Fourcc::Bgrx5551 => 892426306,
            Fourcc::Bgra8888 => 875708738,
            Fourcc::Bgrx8888 => 875714626,
            Fourcc::R16 => 540422482,
            Fourcc::R8 => 538982482,
            Fourcc::Rg1616 => 842221394,
            Fourcc::Rg88 => 943212370,
            Fourcc::Rgb565 => 909199186,
            Fourcc::Rgb888 => 875710290,
            Fourcc::Rgba4444 => 842088786,
            Fourcc::Rgbx4444 => 842094674,
            Fourcc::Rgba5551 => 892420434,
            Fourcc::Rgbx5551 => 892426322,
            Fourcc::Rgba8888 => 875708754,
            Fourcc::Rgbx8888 => 875714642,
            Fourcc::Abgr16161616f => 1211384385,
            Fourcc::Bgr888A8 => 943798338,
            Fourcc::Rgb888A8 => 943798354,
            Fourcc::Nv12 => 842094158,
            Fourcc::Yuyv => 1448695129,
            Fourcc::C8 => 538982467,
        }
    }

    /// Parses a packed 32-bit fourcc code; `None` when the code is not one
    /// this library recognises.
    pub fn from_code(code: u32) -> (r: Option<Fourcc>)
        ensures
            r == fourcc_from_code(code),
    {
        match code {
            892420673 => Some(Fourcc::Abgr1555),
            892420696 => Some(Fourcc::Xbgr1555),
            808665665 => Some(Fourcc::Abgr2101010),
            808665688 => Some(Fourcc::Xbgr2101010),
            842089025 => Some(Fourcc::Abgr4444),
            842089048 => Some(Fourcc::Xbgr4444),
            875708993 => Some(Fourcc::Abgr8888),
            875709016 => Some(Fourcc::Xbgr8888),
            892424769 => Some(Fourcc::Argb1555),
            892424792 => Some(Fourcc::Xrgb1555),
            808669761 => Some(Fourcc::Argb2101010),
            808669784 => Some(Fourcc::Xrgb2101010),
            842093121 => Some(Fourcc::Argb4444),
            842093144 => Some(Fourcc::Xrgb4444),
            875713089 => Some(Fourcc::Argb8888),
            875713112 => Some(Fourcc::Xrgb8888),
            909199170 => Some(Fourcc::Bgr565),
            875710274 => Some(Fourcc::Bgr888),
            842088770 => Some(Fourcc::Bgra4444),
            842094658 => Some(Fourcc::Bgrx4444),
            892420418 => Some(Fourcc::Bgra5551),
            892426306 => Some(Fourcc::Bgrx5551),
            875708738 => Some(Fourcc::Bgra8888),
            875714626 => Some(Fourcc::Bgrx8888),
            540422482 => Some(Fourcc::R16),
            538982482 => Some(Fourcc::R8),
            842221394 => Some(Fourcc::Rg1616),
            943212370 => Some(Fourcc::Rg88),
            909199186 => Some(Fourcc::Rgb565),
            875710290 => Some(Fourcc::Rgb888),
            842088786 => Some(Fourcc::Rgba4444),
            842094674 => Some(Fourcc::Rgbx4444),
            892420434 => Some(Fourcc::Rgba5551),
            892426322 => Some(Fourcc::Rgbx5551),
            875708754 => Some(Fourcc::Rgba8888),
            875714642 => Some(Fourcc::Rgbx8888),
            1211384385 => Some(Fourcc::Abgr16161616f),
            943798338 => Some(Fourcc::Bgr888A8),
            943798354 => Some(Fourcc::Rgb888A8),
            842094158 => Some(Fourcc::Nv12),
            1448695129 => Some(Fourcc::Yuyv),
            538982467 => Some(Fourcc::C8),
            _ => None,
        }
    }
}

/// Parsing a fourcc's own code gives that fourcc back: the codes are distinct.
pub proof fn lemma_fourcc_code_round_trip(f: Fourcc)
    ensures
        fourcc_from_code(fourcc_code(f)) == Some(f),
{
}

/// The graphics-API image formats this library hands out for fourcc codes,
/// together with their SRGB-encoded counterparts.
#[allow(non_camel_case_types)]
#[derive(Clone, Copy, PartialEq, Eq, Structural, Debug)]
pub enum Format {
    R5G5B5A1_UNORM_PACK16,
    A2B10G10R10_UNORM_PACK32,
    A4B4G4R4_UNORM_PACK16,
    R8G8B8A8_UNORM,
    A1R5G5B5_UNORM_PACK16,
    A2R10G10B10_UNORM_PACK32,
    B4G4R4A4_UNORM_PACK16,
    B8G8R8A8_UNORM,
    B5G6R5_UNORM_PACK16,
    B8G8R8_UNORM,
    B5G5R5A1_UNORM_PACK16,
    R16_UNORM,
    R8_UNORM,
    R16G16_UNORM,
    R8G8_UNORM,
    R5G6B5_UNORM_PACK16,
    R8G8B8_UNORM,
    R4G4B4A4_UNORM_PACK16,
    R16G16B16A16_SFLOAT,
    A8B8G8R8_UNORM_PACK32,
    R8_SRGB,
    R8G8_SRGB,
    R8G8B8_SRGB,
    B8G8R8_SRGB,
    R8G8B8A8_SRGB,
    B8G8R8A8_SRGB,
    A8B8G8R8_SRGB_PACK32,
    BC1_RGB_UNORM_BLOCK,
    BC1_RGB_SRGB_BLOCK,
    BC1_RGBA_UNORM_BLOCK,
    BC1_RGBA_SRGB_BLOCK,
    BC2_UNORM_BLOCK,
    BC2_SRGB_BLOCK,
    BC3_UNORM_BLOCK,
    BC3_SRGB_BLOCK,
    BC7_UNORM_BLOCK,
    BC7_SRGB_BLOCK,
    ETC2_R8G8B8_UNORM_BLOCK,
    ETC2_R8G8B8_SRGB_BLOCK,
    ETC2_R8G8B8A1_UNORM_BLOCK,
    ETC2_R8G8B8A1_SRGB_BLOCK,
    ETC2_R8G8B8A8_UNORM_BLOCK,
    ETC2_R8G8B8A8_SRGB_BLOCK,
}

/// Whether a format's name denotes an SRGB encoding.
pub open spec fn is_srgb_format(m: Format) -> bool {
    match m {
        Format::R8_SRGB => true,
        Format::R8G8_SRGB => true,
        Format::R8G8B8_SRGB => true,
        Format::B8G8R8_SRGB => true,
        Format::R8G8B8A8_SRGB => true,
        Format::B8G8R8A8_SRGB => true,
        Format::A8B8G8R8_SRGB_PACK32 => true,
        Format::BC1_RGB_SRGB_BLOCK => true,
        Format::BC1_RGBA_SRGB_BLOCK => true,
        Format::BC2_SRGB_BLOCK => true,
        Format::BC3_SRGB_BLOCK => true,
        Format::BC7_SRGB_BLOCK => true,
        Format::ETC2_R8G8B8_SRGB_BLOCK => true,
        Format::ETC2_R8G8B8A1_SRGB_BLOCK => true,
        Format::ETC2_R8G8B8A8_SRGB_BLOCK => true,
        _ => false,
    }
}

/// Bytes per texel block of each format, as the graphics API documents them.
pub open spec fn block_bytes(m: Format) -> nat {
    match m {
        Format::R5G5B5A1_UNORM_PACK16 => 2,
        Format::A2B10G10R10_UNORM_PACK32 => 4,
        Format::A4B4G4R4_UNORM_PACK16 => 2,
        Format::R8G8B8A8_UNORM => 4,
        Format::A1R5G5B5_UNORM_PACK16 => 2,
        Format::A2R10G10B10_UNORM_PACK32 => 4,
        Format::B4G4R4A4_UNORM_PACK16 => 2,
        Format::B8G8R8A8_UNORM => 4,
        Format::B5G6R5_UNORM_PACK16 => 2,
        Format::B8G8R8_UNORM => 3,
        Format::B5G5R5A1_UNORM_PACK16 => 2,
        Format::R16_UNORM => 2,
        Format::R8_UNORM => 1,
        Format::R16G16_UNORM => 4,
        Format::R8G8_UNORM => 2,
        Format::R5G6B5_UNORM_PACK16 => 2,
        Format::R8G8B8_UNORM => 3,
        Format::R4G4B4A4_UNORM_PACK16 => 2,
        Format::R16G16B16A16_SFLOAT => 8,
        Format::A8B8G8R8_UNORM_PACK32 => 4,
        Format::R8_SRGB => 1,
        Format::R8G8_SRGB => 2,
        Format::R8G8B8_SRGB => 3,
        Format::B8G8R8_SRGB => 3,
        Format::R8G8B8A8_SRGB => 4,
        Format::B8G8R8A8_SRGB => 4,
        Format::A8B8G8R8_SRGB_PACK32 => 4,
        Format::BC1_RGB_UNORM_BLOCK => 8,
        Format::BC1_RGB_SRGB_BLOCK => 8,
        Format::BC1_RGBA_UNORM_BLOCK => 8,
        Format::BC1_RGBA_SRGB_BLOCK => 8,
        Format::BC2_UNORM_BLOCK => 16,
        Format::BC2_SRGB_BLOCK => 16,
        Format::BC3_UNORM_BLOCK => 16,
        Format::BC3_SRGB_BLOCK => 16,
        Format::BC7_UNORM_BLOCK => 16,
        Format::BC7_SRGB_BLOCK => 16,
        Format::ETC2_R8G8B8_UNORM_BLOCK => 8,
        Format::ETC2_R8G8B8_SRGB_BLOCK => 8,
        Format::ETC2_R8G8B8A1_UNORM_BLOCK => 8,
        Format::ETC2_R8G8B8A1_SRGB_BLOCK => 8,
        Format::ETC2_R8G8B8A8_UNORM_BLOCK => 16,
        Format::ETC2_R8G8B8A8_SRGB_BLOCK => 16,
    }
}

/// The API format offered for each fourcc; `None` where the library offers
/// no equivalent.
pub open spec fn spec_from_drm_fourcc(f: Fourcc) -> Option<Format> {
    match f {
        Fourcc::Abgr1555 | Fourcc::Xbgr1555 => Some(Format::R5G5B5A1_UNORM_PACK16),
        Fourcc::Abgr2101010 | Fourcc::Xbgr2101010 => Some(Format::A2B10G10R10_UNORM_PACK32),
        Fourcc::Abgr4444 | Fourcc::Xbgr4444 => Some(Format::A4B4G4R4_UNORM_PACK16),
        Fourcc::Abgr8888 | Fourcc::Xbgr8888 => Some(Format::R8G8B8A8_UNORM),
        Fourcc::Argb1555 | Fourcc::Xrgb1555 => Some(Format::A1R5G5B5_UNORM_PACK16),
        Fourcc::Argb2101010 | Fourcc::Xrgb2101010 => Some(Format::A2R10G10B10_UNORM_PACK32),
        Fourcc::Argb4444 | Fourcc::Xrgb4444 => Some(Format::B4G4R4A4_UNORM_PACK16),
        Fourcc::Argb8888 | Fourcc::Xrgb8888 => Some(Format::B8G8R8A8_UNORM),
        Fourcc::Bgr565 => Some(Format::B5G6R5_UNORM_PACK16),
        Fourcc::Bgr888 => Some(Format::B8G8R8_UNORM),
        Fourcc::Bgra4444 | Fourcc::Bgrx4444 => Some(Format::B4G4R4A4_UNORM_PACK16),
        Fourcc::Bgra5551 | Fourcc::Bgrx5551 => Some(Format::B5G5R5A1_UNORM_PACK16),
        Fourcc::Bgra8888 | Fourcc::Bgrx8888 => Some(Format::B8G8R8A8_UNORM),
        Fourcc::R16 => Some(Format::R16_UNORM),
        Fourcc::R8 => Some(Format::R8_UNORM),
        Fourcc::Rg1616 => Some(Format::R16G16_UNORM),
        Fourcc::Rg88 => Some(Format::R8G8_UNORM),
        Fourcc::Rgb565 => Some(Format::R5G6B5_UNORM_PACK16),
        Fourcc::Rgb888 => Some(Format::R8G8B8_UNORM),
        Fourcc::Rgba4444 | Fourcc::Rgbx4444 => Some(Format::R4G4B4A4_UNORM_PACK16),
        Fourcc::Rgba5551 | Fourcc::Rgbx5551 => Some(Format::R5G5B5A1_UNORM_PACK16),
        Fourcc::Rgba8888 | Fourcc::Rgbx8888 => Some(Format::R8G8B8A8_UNORM),
        Fourcc::Abgr16161616f => Some(Format::R16G16B16A16_SFLOAT),
        Fourcc::Bgr888A8 | Fourcc::Rgb888A8 | Fourcc::Nv12 | Fourcc::Yuyv | Fourcc::C8 => None,
    }
}

/// The SRGB-encoded counterpart of a format; `None` where none exists.
pub open spec fn spec_to_srgb(m: Format) -> Option<Format> {
    match m {
        Format::R8_UNORM => Some(Format::R8_SRGB),
        Format::R8G8_UNORM => Some(Format::R8G8_SRGB),
        Format::R8G8B8_UNORM => Some(Format::R8G8B8_SRGB),
        Format::B8G8R8_UNORM => Some(Format::B8G8R8_SRGB),
        Format::R8G8B8A8_UNORM => Some(Format::R8G8B8A8_SRGB),
        Format::B8G8R8A8_UNORM => Some(Format::B8G8R8A8_SRGB),
        Format::A8B8G8R8_UNORM_PACK32 => Some(Format::A8B8G8R8_SRGB_PACK32),
        Format::BC1_RGB_UNORM_BLOCK => Some(Format::BC1_RGB_SRGB_BLOCK),
        Format::BC1_RGBA_UNORM_BLOCK => Some(Format::BC1_RGBA_SRGB_BLOCK),
        Format::BC2_UNORM_BLOCK => Some(Format::BC2_SRGB_BLOCK),
        Format::BC3_UNORM_BLOCK => Some(Format::BC3_SRGB_BLOCK),
        Format::BC7_UNORM_BLOCK => Some(Format::BC7_SRGB_BLOCK),
        Format::ETC2_R8G8B8_UNORM_BLOCK => Some(Format::ETC2_R8G8B8_SRGB_BLOCK),
        Format::ETC2_R8G8B8A1_UNORM_BLOCK => Some(Format::ETC2_R8G8B8A1_SRGB_BLOCK),
        Format::ETC2_R8G8B8A8_UNORM_BLOCK => Some(Format::ETC2_R8G8B8A8_SRGB_BLOCK),
        _ => None,
    }
}

impl Format {
    /// The API format used for a fourcc code, shared with the compositor.
    pub fn from_drm_fourcc(drm_format: Fourcc) -> (r: Option<Format>)
        ensures
            r == spec_from_drm_fourcc(drm_format),
    {
        match drm_format {
            Fourcc::Abgr1555 | Fourcc::Xbgr1555 => Some(Format::R5G5B5A1_UNORM_PACK16),
            Fourcc::Abgr2101010 | Fourcc::Xbgr2101010 => Some(Format::A2B10G10R10_UNORM_PACK32),
            Fourcc::Abgr4444 | Fourcc::Xbgr4444 => Some(Format::A4B4G4R4_UNORM_PACK16),
            Fourcc::Abgr8888 | Fourcc::Xbgr8888 => Some(Format::R8G8B8A8_UNORM),
            Fourcc::Argb1555 | Fourcc::Xrgb1555 => Some(Format::A1R5G5B5_UNORM_PACK16),
            Fourcc::Argb2101010 | Fourcc::Xrgb2101010 => Some(Format::A2R10G10B10_UNORM_PACK32),
            Fourcc::Argb4444 | Fourcc::Xrgb4444 => Some(Format::B4G4R4A4_UNORM_PACK16),
            Fourcc::Argb8888 | Fourcc::Xrgb8888 => Some(Format::B8G8R8A8_UNORM),
            Fourcc::Bgr565 => Some(Format::B5G6R5_UNORM_PACK16),
            Fourcc::Bgr888 => Some(Format::B8G8R8_UNORM),
            Fourcc::Bgra4444 | Fourcc::Bgrx4444 => Some(Format::B4G4R4A4_UNORM_PACK16),
            Fourcc::Bgra5551 | Fourcc::Bgrx5551 => Some(Format::B5G5R5A1_UNORM_PACK16),
            Fourcc::Bgra8888 | Fourcc::Bgrx8888 => Some(Format::B8G8R8A8_UNORM),
            Fourcc::R16 => Some(Format::R16_UNORM),
            Fourcc::R8 => Some(Format::R8_UNORM),
            Fourcc::Rg1616 => Some(Format::R16G16_UNORM),
            Fourcc::Rg88 => Some(Format::R8G8_UNORM),
            Fourcc::Rgb565 => Some(Format::R5G6B5_UNORM_PACK16),
            Fourcc::Rgb888 => Some(Format::R8G8B8_UNORM),
            Fourcc::Rgba4444 | Fourcc::Rgbx4444 => Some(Format::R4G4B4A4_UNORM_PACK16),
            Fourcc::Rgba5551 | Fourcc::Rgbx5551 => Some(Format::R5G5B5A1_UNORM_PACK16),
            Fourcc::Rgba8888 | Fourcc::Rgbx8888 => Some(Format::R8G8B8A8_UNORM),
            Fourcc::Abgr16161616f => Some(Format::R16G16B16A16_SFLOAT),
            Fourcc::Bgr888A8 | Fourcc::Rgb888A8 | Fourcc::Nv12 | Fourcc::Yuyv | Fourcc::C8 =>
                None,
        }
    }

    /// The SRGB-encoded counterpart of this format, where one exists.
    pub fn to_srgb(&self) -> (r: Option<Format>)
        ensures
            r == spec_to_srgb(*self),
    {
        match self {
            Format::R8_UNORM => Some(Format::R8_SRGB),
            Format::R8G8_UNORM => Some(Format::R8G8_SRGB),
            Format::R8G8B8_UNORM => Some(Format::R8G8B8_SRGB),
            Format::B8G8R8_UNORM => Some(Format::B8G8R8_SRGB),
            Format::R8G8B8A8_UNORM => Some(Format::R8G8B8A8_SRGB),
            Format::B8G8R8A8_UNORM => Some(Format::B8G8R8A8_SRGB),
            Format::A8B8G8R8_UNORM_PACK32 => Some(Format::A8B8G8R8_SRGB_PACK32),
            Format::BC1_RGB_UNORM_BLOCK => Some(Format::BC1_RGB_SRGB_BLOCK),
            Format::BC1_RGBA_UNORM_BLOCK => Some(Format::BC1_RGBA_SRGB_BLOCK),
            Format::BC2_UNORM_BLOCK => Some(Format::BC2_SRGB_BLOCK),
            Format::BC3_UNORM_BLOCK => Some(Format::BC3_SRGB_BLOCK),
            Format::BC7_UNORM_BLOCK => Some(Format::BC7_SRGB_BLOCK),
            Format::ETC2_R8G8B8_UNORM_BLOCK => Some(Format::ETC2_R8G8B8_SRGB_BLOCK),
            Format::ETC2_R8G8B8A1_UNORM_BLOCK => Some(Format::ETC2_R8G8B8A1_SRGB_BLOCK),
            Format::ETC2_R8G8B8A8_UNORM_BLOCK => Some(Format::ETC2_R8G8B8A8_SRGB_BLOCK),
            _ => None,
        }
    }

    /// Whether this format's name denotes an SRGB encoding, as read off the
    /// registration message's SRGB flag.
    pub fn is_srgb(&self) -> (r: bool)
        ensures
            r == is_srgb_format(*self),
    {
        match self {
            Format::R8_SRGB => true,
            Format::R8G8_SRGB => true,
            Format::R8G8B8_SRGB => true,
            Format::B8G8R8_SRGB => true,
            Format::R8G8B8A8_SRGB => true,
            Format::B8G8R8A8_SRGB => true,
            Format::A8B8G8R8_SRGB_PACK32 => true,
            Format::BC1_RGB_SRGB_BLOCK => true,
            Format::BC1_RGBA_SRGB_BLOCK => true,
            Format::BC2_SRGB_BLOCK => true,
            Format::BC3_SRGB_BLOCK => true,
            Format::BC7_SRGB_BLOCK => true,
            Format::ETC2_R8G8B8_SRGB_BLOCK => true,
            Format::ETC2_R8G8B8A1_SRGB_BLOCK => true,
            Format::ETC2_R8G8B8A8_SRGB_BLOCK => true,
            _ => false,
        }
    }
}

/// A fourcc code always maps to a linearly encoded format: asking for the
/// SRGB variant afterwards is never redundant.
pub proof fn lemma_from_fourcc_yields_linear(f: Fourcc)
    ensures
        spec_from_drm_fourcc(f) matches Some(m) ==> !is_srgb_format(m),
{
}

/// The SRGB counterpart of a format is SRGB-encoded, comes only from a
/// linearly encoded format, and occupies the same bytes per texel block.
pub proof fn lemma_to_srgb_convention(m: Format)
    ensures
        spec_to_srgb(m) matches Some(s) ==> {
            &&& is_srgb_format(s)
            &&& !is_srgb_format(m)
            &&& block_bytes(s) == block_bytes(m)
        },
{
}

/// One format/modifier combination the compositor supports: a DRM format
/// modifier and the number of memory planes an image tiled with it needs.
#[derive(Clone, Copy, PartialEq, Eq, Structural, Debug)]
pub struct DmatexFormatVariant {
    pub modifier: u64,
    pub planes: u32,
}

/// One entry of the compositor's format enumeration, as raw wire values:
/// a packed fourcc code, whether the SRGB variant is requested, a DRM
/// format modifier and the modifier's plane count.
#[derive(Clone, Copy, PartialEq, Eq, Structural, Debug)]
pub struct RawFormatEntry {
    pub format: u32,
    pub is_srgb: bool,
    pub drm_modifier: u64,
    pub planes: u32,
}

/// The API format an enumeration entry resolves to: its fourcc code must be
/// recognised, map to an API format, and, where the entry asks for SRGB,
/// that format must have an SRGB counterpart.
pub open spec fn resolve_entry(e: RawFormatEntry) -> Option<Format> {
    match fourcc_from_code(e.format) {
        Some(fc) => match spec_from_drm_fourcc(fc) {
            Some(m) => if e.is_srgb {
                spec_to_srgb(m)
            } else {
                Some(m)
            },
            None => None,
        },
        None => None,
    }
}

impl RawFormatEntry {
    /// Resolves this entry to the API format it denotes, or `None` when the
    /// code is unknown, unmapped, or lacks the requested SRGB counterpart.
    pub fn resolve(&self) -> (r: Option<Format>)
        ensures
            r == resolve_entry(*self),
    {
        match Fourcc::from_code(self.format) {
            Some(fc) => match Format::from_drm_fourcc(fc) {
                Some(m) => if self.is_srgb {
                    m.to_srgb()
                } else {
                    Some(m)
                },
                None => None,
            },
            None => None,
        }
    }
}

/// A format the compositor accepts: the API format, the fourcc code it was
/// advertised under, and every supported modifier of that format.
#[derive(Debug, Clone)]
pub struct DmatexFormat {
    pub format: Format,
    pub fourcc: Fourcc,
    pub variants: Vec<DmatexFormatVariant>,
}

impl DmatexFormat {
    /// The graphics-API format of this descriptor.
    pub fn vk_format(&self) -> (r: Format)
        ensures
            r == self.format,
    {
        self.format
    }

    /// The fourcc code this format was advertised under.
    pub fn drm_fourcc(&self) -> (r: Fourcc)
        ensures
            r == self.fourcc,
    {
        self.fourcc
    }

    /// The modifier/plane-count combinations supported for this format.
    pub fn variants(&self) -> (r: &Vec<DmatexFormatVariant>)
        ensures
            r@ == self.variants@,
    {
        &self.variants
    }
}

/// Whether a descriptor lists the given modifier with the given plane count.
pub open spec fn has_variant(d: DmatexFormat, modifier: u64, planes: u32) -> bool {
    exists|k: int|
        0 <= k < d.variants@.len() && d.variants@[k].modifier == modifier && d.variants@[
            k
        ].planes == planes
}

/// Whether an enumeration entry that resolves to some format is represented
/// in the descriptor list: some descriptor carries that format and lists the
/// entry's modifier and plane count.
pub open spec fn entry_covered(out: Seq<DmatexFormat>, e: RawFormatEntry) -> bool {
    resolve_entry(e) matches Some(m) ==> exists|i: int|
        0 <= i < out.len() && out[i].format == m && has_variant(out[i], e.drm_modifier, e.planes)
}

/// Whether a descriptor's variant at index `k` comes from some enumeration
/// entry that resolves to the descriptor's format.
pub open spec fn variant_justified(entries: Seq<RawFormatEntry>, d: DmatexFormat, k: int) -> bool {
    exists|j: int|
        0 <= j < entries.len() && resolve_entry(entries[j]) == Some(d.format) && entries[
            j
        ].drm_modifier == d.variants@[k].modifier && entries[j].planes == d.variants@[k].planes
}

/// Whether everything a descriptor states comes from the enumeration: it has
/// at least one variant, its fourcc was advertised by an entry resolving to
/// its format, and each variant comes from such an entry.
pub open spec fn descriptor_justified(entries: Seq<RawFormatEntry>, d: DmatexFormat) -> bool {
    &&& d.variants@.len() >= 1
    &&& exists|j: int|
        0 <= j < entries.len() && resolve_entry(entries[j]) == Some(d.format) && fourcc_from_code(
            entries[j].format,
        ) == Some(d.fourcc)
    &&& forall|k: int| 0 <= k < d.variants@.len() ==> variant_justified(entries, d, k)
}

/// Whether no two descriptors carry the same API format.
pub open spec fn distinct_formats(out: Seq<DmatexFormat>) -> bool {
    forall|i: int, j: int| 0 <= i < j < out.len() ==> out[i].format != out[j].format
}

/// Whether `new` refines `old`: every old descriptor is still there, in
/// place, with its format and fourcc, and has kept its variants in order.
pub open spec fn descriptors_extend(new: Seq<DmatexFormat>, old: Seq<DmatexFormat>) -> bool {
    &&& new.len() >= old.len()
    &&& forall|i: int|
        0 <= i < old.len() ==> {
            &&& new[i].format == old[i].format
            &&& new[i].fourcc == old[i].fourcc
            &&& old[i].variants@.is_prefix_of(new[i].variants@)
        }
}

/// Coverage of an entry survives refinement of the descriptor list.
proof fn lemma_covered_extends(
    old: Seq<DmatexFormat>,
    new: Seq<DmatexFormat>,
    e: RawFormatEntry,
)
    requires
        descriptors_extend(new, old),
        entry_covered(old, e),
    ensures
        entry_covered(new, e),
{
    if resolve_entry(e) is Some {
        let m = resolve_entry(e)->Some_0;
        let i = choose|i: int|
            0 <= i < old.len() && old[i].format == m && has_variant(
                old[i],
                e.drm_modifier,
                e.planes,
            );
        let k = choose|k: int|
            0 <= k < old[i].variants@.len() && old[i].variants@[k].modifier == e.drm_modifier
                && old[i].variants@[k].planes == e.planes;
        assert(old[i].variants@.is_prefix_of(new[i].variants@));
        assert(new[i].variants@[k] == old[i].variants@[k]);
        assert(has_variant(new[i], e.drm_modifier, e.planes));
    }
}

/// The position of the descriptor carrying a format, if one is listed.
fn find_format_index(out: &Vec<DmatexFormat>, m: Format) -> (r: Option<usize>)
    ensures
        match r {
            Some(i) => i < out@.len() && out@[i as int].format == m,
            None => forall|i: int| 0 <= i < out@.len() ==> out@[i].format != m,
        },
{
    let mut i: usize = 0;
    while i < out.len()
        invariant
            i <= out@.len(),
            forall|i2: int| 0 <= i2 < i ==> out@[i2].format != m,
        decreases out@.len() - i,
    {
        if out[i].format == m {
            return Some(i);
        }
        i = i + 1;
    }
    None
}

impl DmatexFormat {
    /// Merges the compositor's raw format enumeration into one descriptor
    /// per resolved API format. Entries that resolve to the same format are
    /// merged into one descriptor collecting all their modifiers; entries
    /// whose code is unknown, unmapped, or without the requested SRGB
    /// counterpart are dropped.
    #[verifier::rlimit(100)]
    pub fn merge_raw_formats(entries: &Vec<RawFormatEntry>) -> (out: Vec<DmatexFormat>)
        ensures
            distinct_formats(out@),
            forall|j: int| 0 <= j < entries@.len() ==> entry_covered(out@, entries@[j]),
            forall|i: int| 0 <= i < out@.len() ==> descriptor_justified(entries@, out@[i]),
    {
        let mut out: Vec<DmatexFormat> = Vec::new();
        let mut j: usize = 0;
        while j < entries.len()
            invariant
                j <= entries@.len(),
                distinct_formats(out@),
                forall|j2: int| 0 <= j2 < j ==> entry_covered(out@, entries@[j2]),
                forall|i: int| 0 <= i < out@.len() ==> descriptor_justified(entries@, out@[i]),
            decreases entries@.len() - j,
        {
            let e = entries[j];
            if let Some(fc) = Fourcc::from_code(e.format) {
                if let Some(base) = Format::from_drm_fourcc(fc) {
                    let resolved = if e.is_srgb {
                        base.to_srgb()
                    } else {
                        Some(base)
                    };
                    if let Some(m) = resolved {
                        assert(resolve_entry(e) == Some(m));
                        let v = DmatexFormatVariant { modifier: e.drm_modifier, planes: e.planes };
                        let ghost old_out = out@;
                        match find_format_index(&out, m) {
                            Some(i) => {
                                let mut d = out.remove(i);
                                d.variants.push(v);
                                out.insert(i, d);
                                proof {
                                    assert(out@ =~= old_out.update(i as int, d));
                                    assert(descriptors_extend(out@, old_out));
                                    let last_k = out@[i as int].variants@.len() - 1;
                                    assert(out@[i as int].variants@[last_k] == v);
                                    assert(has_variant(out@[i as int], e.drm_modifier, e.planes));
                                    assert forall|i2: int|
                                        0 <= i2 < out@.len() implies descriptor_justified(
                                        entries@,
                                        out@[i2],
                                    ) by {
                                        if i2 == i as int {
                                            let dn = out@[i2];
                                            let dold = old_out[i2];
                                            assert(descriptor_justified(entries@, dold));
                                            let jf = choose|jf: int|
                                                0 <= jf < entries@.len() && resolve_entry(
                                                    entries@[jf],
                                                ) == Some(dold.format) && fourcc_from_code(
                                                    entries@[jf].format,
                                                ) == Some(dold.fourcc);
                                            assert(resolve_entry(entries@[jf]) == Some(dn.format)
                                                && fourcc_from_code(entries@[jf].format) == Some(
                                                dn.fourcc,
                                            ));
                                            assert forall|k: int|
                                                0 <= k < dn.variants@.len() implies
                                                variant_justified(entries@, dn, k) by {
                                                if k < dn.variants@.len() - 1 {
                                                    assert(dn.variants@[k] == dold.variants@[k]);
                                                    assert(variant_justified(entries@, dold, k));
                                                    let jw = choose|jw: int|
                                                        0 <= jw < entries@.len() && resolve_entry(
                                                            entries@[jw],
                                                        ) == Some(dold.format) && entries@[
                                                            jw
                                                        ].drm_modifier == dold.variants@[
                                                            k
                                                        ].modifier && entries@[jw].planes
                                                            == dold.variants@[k].planes;
                                                    assert(resolve_entry(entries@[jw]) == Some(
                                                        dn.format,
                                                    ) && entries@[jw].drm_modifier
                                                        == dn.variants@[k].modifier && entries@[
                                                        jw
                                                    ].planes == dn.variants@[k].planes);
                                                } else {
                                                    assert(dn.variants@[k] == v);
                                                    assert(resolve_entry(entries@[j as int])
                                                        == Some(dn.format));
                                                }
                                            }
                                        } else {
                                            assert(out@[i2] == old_out[i2]);
                                        }
                                    }
                                }
                            },
                            None => {
                                let mut variants: Vec<DmatexFormatVariant> = Vec::new();
                                variants.push(v);
                                out.push(
                                    DmatexFormat { format: m, fourcc: fc, variants },
                                );
                                proof {
                                    assert(descriptors_extend(out@, old_out));
                                    let last = out@.len() - 1;
                                    assert(out@[last].variants@ =~= seq![v]);
                                    assert(out@[last].variants@[0] == v);
                                    assert(has_variant(out@[last], e.drm_modifier, e.planes));
                                    assert forall|i2: int|
                                        0 <= i2 < out@.len() implies descriptor_justified(
                                        entries@,
                                        out@[i2],
                                    ) by {
                                        if i2 == last {
                                            let dn = out@[i2];
                                            assert(resolve_entry(entries@[j as int]) == Some(
                                                dn.format,
                                            ));
                                            assert(fourcc_from_code(entries@[j as int].format)
                                                == Some(dn.fourcc));
                                            assert forall|k: int|
                                                0 <= k < dn.variants@.len() implies
                                                variant_justified(entries@, dn, k) by {
                                                assert(dn.variants@[k] == v);
                                            }
                                        } else {
                                            assert(out@[i2] == old_out[i2]);
                                        }
                                    }
                                }
                            },
                        }
                        proof {
                            assert forall|j2: int| 0 <= j2 < j implies entry_covered(
                                out@,
                                entries@[j2],
                            ) by {
                                lemma_covered_extends(old_out, out@, entries@[j2]);
                            }
                            assert(entry_covered(out@, entries@[j as int]));
                        }
                    }
                }
            }
            j = j + 1;
        }
        out
    }
}

} // verus!
