//! The format registry: a bidirectional mapping between neutral
//! four-character pixel-format codes and the backend's native format codes.
//!
//! Every import, export and bind operation validates its requested format
//! here before touching any backend resource. The mapping is bijective on
//! the supported subset: a format present in one direction is present in
//! the other, which `lemma_format_round_trip` proves once and for all.

use vstd::prelude::*;

verus! {

/// A neutral pixel-format identifier from the DRM four-character-code space.
///
/// The wire value of each code (see [`Fourcc::code`]) matches the externally
/// standardized fourcc space bit for bit.
#[derive(Clone, Copy, Debug, PartialEq, Eq, Structural, Hash)]
pub enum Fourcc {
    Argb8888,
    Xrgb8888,
    C8,
    Rgb332,
    Bgr233,
    Xrgb4444,
    Xbgr4444,
    Argb4444,
    Abgr4444,
    Xrgb1555,
    Xbgr1555,
    Argb1555,
    Abgr1555,
    Rgb565,
    Bgr565,
    Rgb888,
    Bgr888,
    Xbgr8888,
    Rgbx8888,
    Bgrx8888,
    Abgr8888,
    Rgba8888,
    Xrgb2101010,
    Xbgr2101010,
    Argb2101010,
    Abgr2101010,
    R8,
    Gr88,
}

/// A native format code of the reference backend.
///
/// The names follow the backend's channel-order convention (most significant
/// channel first within a little-endian word).
#[derive(Clone, Copy, Debug, PartialEq, Eq, Structural, Hash)]
pub enum NativeFormat {
    A8R8G8B8,
    X8R8G8B8,
    C8,
    R3G3B2,
    B2G3R3,
    X4R4G4B4,
    X4B4G4R4,
    A4R4G4B4,
    A4B4G4R4,
    X1R5G5B5,
    X1B5G5R5,
    A1R5G5B5,
    A1B5G5R5,
    R5G6B5,
    B5G6R5,
    R8G8B8,
    B8G8R8,
    X8B8G8R8,
    R8G8B8X8,
    B8G8R8X8,
    A8B8G8R8,
    R8G8B8A8,
    X2R10G10B10,
    X2B10G10R10,
    A2R10G10B10,
    A2B10G10R10,
}

/// An opaque memory-layout token beyond the base pixel format.
#[derive(Clone, Copy, Debug, PartialEq, Eq, Structural, Hash)]
pub enum Modifier {
    /// Plain row-major memory without tiling or compression.
    Linear,
    /// A layout this contract does not describe.
    Invalid,
}

/// A (format, modifier) pair, the unit in which bind and import
/// capabilities advertise their support.
#[derive(Clone, Copy, Debug, PartialEq, Eq, Structural, Hash)]
pub struct FormatPair {
    pub code: Fourcc,
    pub modifier: Modifier,
}

/// Bytes each pixel of the format occupies in memory.
pub open spec fn spec_bytes_per_pixel(f: Fourcc) -> int {
    match f {
        Fourcc::Argb8888 => 4,
        Fourcc::Xrgb8888 => 4,
        Fourcc::C8 => 1,
        Fourcc::Rgb332 => 1,
        Fourcc::Bgr233 => 1,
        Fourcc::Xrgb4444 => 2,
        Fourcc::Xbgr4444 => 2,
        Fourcc::Argb4444 => 2,
        Fourcc::Abgr4444 => 2,
        Fourcc::Xrgb1555 => 2,
        Fourcc::Xbgr1555 => 2,
        Fourcc::Argb1555 => 2,
        Fourcc::Abgr1555 => 2,
        Fourcc::Rgb565 => 2,
        Fourcc::Bgr565 => 2,
        Fourcc::Rgb888 => 3,
        Fourcc::Bgr888 => 3,
        Fourcc::Xbgr8888 => 4,
        Fourcc::Rgbx8888 => 4,
        Fourcc::Bgrx8888 => 4,
        Fourcc::Abgr8888 => 4,
        Fourcc::Rgba8888 => 4,
        Fourcc::Xrgb2101010 => 4,
        Fourcc::Xbgr2101010 => 4,
        Fourcc::Argb2101010 => 4,
        Fourcc::Abgr2101010 => 4,
        Fourcc::R8 => 1,
        Fourcc::Gr88 => 2,
    }
}

/// Executable counterpart of [`spec_bytes_per_pixel`].
pub fn bytes_per_pixel(format: Fourcc) -> (r: usize)
    ensures
        r == spec_bytes_per_pixel(format),
        1 <= r <= 4,
{
    match format {
        Fourcc::Argb8888 => 4,
        Fourcc::Xrgb8888 => 4,
        Fourcc::C8 => 1,
        Fourcc::Rgb332 => 1,
        Fourcc::Bgr233 => 1,
        Fourcc::Xrgb4444 => 2,
        Fourcc::Xbgr4444 => 2,
        Fourcc::Argb4444 => 2,
        Fourcc::Abgr4444 => 2,
        Fourcc::Xrgb1555 => 2,
        Fourcc::Xbgr1555 => 2,
        Fourcc::Argb1555 => 2,
        Fourcc::Abgr1555 => 2,
        Fourcc::Rgb565 => 2,
        Fourcc::Bgr565 => 2,
        Fourcc::Rgb888 => 3,
        Fourcc::Bgr888 => 3,
        Fourcc::Xbgr8888 => 4,
        Fourcc::Rgbx8888 => 4,
        Fourcc::Bgrx8888 => 4,
        Fourcc::Abgr8888 => 4,
        Fourcc::Rgba8888 => 4,
        Fourcc::Xrgb2101010 => 4,
        Fourcc::Xbgr2101010 => 4,
        Fourcc::Argb2101010 => 4,
        Fourcc::Abgr2101010 => 4,
        Fourcc::R8 => 1,
        Fourcc::Gr88 => 2,
    }
}

/// The four ASCII bytes whose little-endian packing is the standardized
/// wire value of the code.
pub open spec fn spec_fourcc_bytes(f: Fourcc) -> (u8, u8, u8, u8) {
    match f {
        Fourcc::Argb8888 => (65, 82, 50, 52),
        Fourcc::Xrgb8888 => (88, 82, 50, 52),
        Fourcc::C8 => (67, 56, 32, 32),
        Fourcc::Rgb332 => (82, 71, 66, 56),
        Fourcc::Bgr233 => (66, 71, 82, 56),
        Fourcc::Xrgb4444 => (88, 82, 49, 50),
        Fourcc::Xbgr4444 => (88, 66, 49, 50),
        Fourcc::Argb4444 => (65, 82, 49, 50),
        Fourcc::Abgr4444 => (65, 66, 49, 50),
        Fourcc::Xrgb1555 => (88, 82, 49, 53),
        Fourcc::Xbgr1555 => (88, 66, 49, 53),
        Fourcc::Argb1555 => (65, 82, 49, 53),
        Fourcc::Abgr1555 => (65, 66, 49, 53),
        Fourcc::Rgb565 => (82, 71, 49, 54),
        Fourcc::Bgr565 => (66, 71, 49, 54),
        Fourcc::Rgb888 => (82, 71, 50, 52),
        Fourcc::Bgr888 => (66, 71, 50, 52),
        Fourcc::Xbgr8888 => (88, 66, 50, 52),
        Fourcc::Rgbx8888 => (82, 88, 50, 52),
        Fourcc::Bgrx8888 => (66, 88, 50, 52),
        Fourcc::Abgr8888 => (65, 66, 50, 52),
        Fourcc::Rgba8888 => (82, 65, 50, 52),
        Fourcc::Xrgb2101010 => (88, 82, 51, 48),
        Fourcc::Xbgr2101010 => (88, 66, 51, 48),
        Fourcc::Argb2101010 => (65, 82, 51, 48),
        Fourcc::Abgr2101010 => (65, 66, 51, 48),
        Fourcc::R8 => (82, 56, 32, 32),
        Fourcc::Gr88 => (71, 82, 56, 56),
    }
}

/// Little-endian packing of four code bytes into the 32-bit wire value.
pub open spec fn spec_pack_fourcc(a: u8, b: u8, c: u8, d: u8) -> u32 {
    (a as u32) | ((b as u32) << 8) | ((c as u32) << 16) | ((d as u32) << 24)
}

/// The standardized 32-bit wire value of the code.
pub open spec fn spec_fourcc_code(f: Fourcc) -> u32 {
    spec_pack_fourcc(
        spec_fourcc_bytes(f).0,
        spec_fourcc_bytes(f).1,
        spec_fourcc_bytes(f).2,
        spec_fourcc_bytes(f).3,
    )
}

impl Fourcc {
    /// The standardized 32-bit wire value of this code, bit for bit the
    /// value used elsewhere in the display pipeline.
    pub fn code(self) -> (r: u32)
        ensures
            r == spec_fourcc_code(self),
    {
        let (a, b, c, d): (u8, u8, u8, u8) = match self {
            Fourcc::Argb8888 => (65, 82, 50, 52),
            Fourcc::Xrgb8888 => (88, 82, 50, 52),
            Fourcc::C8 => (67, 56, 32, 32),
            Fourcc::Rgb332 => (82, 71, 66, 56),
            Fourcc::Bgr233 => (66, 71, 82, 56),
            Fourcc::Xrgb4444 => (88, 82, 49, 50),
            Fourcc::Xbgr4444 => (88, 66, 49, 50),
            Fourcc::Argb4444 => (65, 82, 49, 50),
            Fourcc::Abgr4444 => (65, 66, 49, 50),
            Fourcc::Xrgb1555 => (88, 82, 49, 53),
            Fourcc::Xbgr1555 => (88, 66, 49, 53),
            Fourcc::Argb1555 => (65, 82, 49, 53),
            Fourcc::Abgr1555 => (65, 66, 49, 53),
            Fourcc::Rgb565 => (82, 71, 49, 54),
            Fourcc::Bgr565 => (66, 71, 49, 54),
            Fourcc::Rgb888 => (82, 71, 50, 52),
            Fourcc::Bgr888 => (66, 71, 50, 52),
            Fourcc::Xbgr8888 => (88, 66, 50, 52),
            Fourcc::Rgbx8888 => (82, 88, 50, 52),
            Fourcc::Bgrx8888 => (66, 88, 50, 52),
            Fourcc::Abgr8888 => (65, 66, 50, 52),
            Fourcc::Rgba8888 => (82, 65, 50, 52),
            Fourcc::Xrgb2101010 => (88, 82, 51, 48),
            Fourcc::Xbgr2101010 => (88, 66, 51, 48),
            Fourcc::Argb2101010 => (65, 82, 51, 48),
            Fourcc::Abgr2101010 => (65, 66, 51, 48),
            Fourcc::R8 => (82, 56, 32, 32),
            Fourcc::Gr88 => (71, 82, 56, 56),
        };
        (a as u32) | ((b as u32) << 8) | ((c as u32) << 16) | ((d as u32) << 24)
    }
}

/// The registry in the neutral-to-native direction.
pub open spec fn spec_to_native(f: Fourcc) -> Option<NativeFormat> {
    match f {
        Fourcc::Argb8888 => Some(NativeFormat::A8R8G8B8),
        Fourcc::Xrgb8888 => Some(NativeFormat::X8R8G8B8),
        Fourcc::C8 => Some(NativeFormat::C8),
        Fourcc::Rgb332 => Some(NativeFormat::R3G3B2),
        Fourcc::Bgr233 => Some(NativeFormat::B2G3R3),
        Fourcc::Xrgb4444 => Some(NativeFormat::X4R4G4B4),
        Fourcc::Xbgr4444 => Some(NativeFormat::X4B4G4R4),
        Fourcc::Argb4444 => Some(NativeFormat::A4R4G4B4),
        Fourcc::Abgr4444 => Some(NativeFormat::A4B4G4R4),
        Fourcc::Xrgb1555 => Some(NativeFormat::X1R5G5B5),
        Fourcc::Xbgr1555 => Some(NativeFormat::X1B5G5R5),
        Fourcc::Argb1555 => Some(NativeFormat::A1R5G5B5),
        Fourcc::Abgr1555 => Some(NativeFormat::A1B5G5R5),
        Fourcc::Rgb565 => Some(NativeFormat::R5G6B5),
        Fourcc::Bgr565 => Some(NativeFormat::B5G6R5),
        Fourcc::Rgb888 => Some(NativeFormat::R8G8B8),
        Fourcc::Bgr888 => Some(NativeFormat::B8G8R8),
        Fourcc::Xbgr8888 => Some(NativeFormat::X8B8G8R8),
        Fourcc::Rgbx8888 => Some(NativeFormat::R8G8B8X8),
        Fourcc::Bgrx8888 => Some(NativeFormat::B8G8R8X8),
        Fourcc::Abgr8888 => Some(NativeFormat::A8B8G8R8),
        Fourcc::Rgba8888 => Some(NativeFormat::R8G8B8A8),
        Fourcc::Xrgb2101010 => Some(NativeFormat::X2R10G10B10),
        Fourcc::Xbgr2101010 => Some(NativeFormat::X2B10G10R10),
        Fourcc::Argb2101010 => Some(NativeFormat::A2R10G10B10),
        Fourcc::Abgr2101010 => Some(NativeFormat::A2B10G10R10),
        Fourcc::R8 => None,
        Fourcc::Gr88 => None,
    }
}

/// The registry in the native-to-neutral direction.
pub open spec fn spec_from_native(c: NativeFormat) -> Option<Fourcc> {
    match c {
        NativeFormat::A8R8G8B8 => Some(Fourcc::Argb8888),
        NativeFormat::X8R8G8B8 => Some(Fourcc::Xrgb8888),
        NativeFormat::C8 => Some(Fourcc::C8),
        NativeFormat::R3G3B2 => Some(Fourcc::Rgb332),
        NativeFormat::B2G3R3 => Some(Fourcc::Bgr233),
        NativeFormat::X4R4G4B4 => Some(Fourcc::Xrgb4444),
        NativeFormat::X4B4G4R4 => Some(Fourcc::Xbgr4444),
        NativeFormat::A4R4G4B4 => Some(Fourcc::Argb4444),
        NativeFormat::A4B4G4R4 => Some(Fourcc::Abgr4444),
        NativeFormat::X1R5G5B5 => Some(Fourcc::Xrgb1555),
        NativeFormat::X1B5G5R5 => Some(Fourcc::Xbgr1555),
        NativeFormat::A1R5G5B5 => Some(Fourcc::Argb1555),
        NativeFormat::A1B5G5R5 => Some(Fourcc::Abgr1555),
        NativeFormat::R5G6B5 => Some(Fourcc::Rgb565),
        NativeFormat::B5G6R5 => Some(Fourcc::Bgr565),
        NativeFormat::R8G8B8 => Some(Fourcc::Rgb888),
        NativeFormat::B8G8R8 => Some(Fourcc::Bgr888),
        NativeFormat::X8B8G8R8 => Some(Fourcc::Xbgr8888),
        NativeFormat::R8G8B8X8 => Some(Fourcc::Rgbx8888),
        NativeFormat::B8G8R8X8 => Some(Fourcc::Bgrx8888),
        NativeFormat::A8B8G8R8 => Some(Fourcc::Abgr8888),
        NativeFormat::R8G8B8A8 => Some(Fourcc::Rgba8888),
        NativeFormat::X2R10G10B10 => Some(Fourcc::Xrgb2101010),
        NativeFormat::X2B10G10R10 => Some(Fourcc::Xbgr2101010),
        NativeFormat::A2R10G10B10 => Some(Fourcc::Argb2101010),
        NativeFormat::A2B10G10R10 => Some(Fourcc::Abgr2101010),
    }
}

/// Convert a neutral four-character code to the backend's native format
/// code; `None` if the backend does not support the format.
pub fn fourcc_to_pixman_format(value: Fourcc) -> (r: Option<NativeFormat>)
    ensures
        r == spec_to_native(value),
{
    match value {
        Fourcc::Argb8888 => Some(NativeFormat::A8R8G8B8),
        Fourcc::Xrgb8888 => Some(NativeFormat::X8R8G8B8),
        Fourcc::C8 => Some(NativeFormat::C8),
        Fourcc::Rgb332 => Some(NativeFormat::R3G3B2),
        Fourcc::Bgr233 => Some(NativeFormat::B2G3R3),
        Fourcc::Xrgb4444 => Some(NativeFormat::X4R4G4B4),
        Fourcc::Xbgr4444 => Some(NativeFormat::X4B4G4R4),
        Fourcc::Argb4444 => Some(NativeFormat::A4R4G4B4),
        Fourcc::Abgr4444 => Some(NativeFormat::A4B4G4R4),
        Fourcc::Xrgb1555 => Some(NativeFormat::X1R5G5B5),
        Fourcc::Xbgr1555 => Some(NativeFormat::X1B5G5R5),
        Fourcc::Argb1555 => Some(NativeFormat::A1R5G5B5),
        Fourcc::Abgr1555 => Some(NativeFormat::A1B5G5R5),
        Fourcc::Rgb565 => Some(NativeFormat::R5G6B5),
        Fourcc::Bgr565 => Some(NativeFormat::B5G6R5),
        Fourcc::Rgb888 => Some(NativeFormat::R8G8B8),
        Fourcc::Bgr888 => Some(NativeFormat::B8G8R8),
        Fourcc::Xbgr8888 => Some(NativeFormat::X8B8G8R8),
        Fourcc::Rgbx8888 => Some(NativeFormat::R8G8B8X8),
        Fourcc::Bgrx8888 => Some(NativeFormat::B8G8R8X8),
        Fourcc::Abgr8888 => Some(NativeFormat::A8B8G8R8),
        Fourcc::Rgba8888 => Some(NativeFormat::R8G8B8A8),
        Fourcc::Xrgb2101010 => Some(NativeFormat::X2R10G10B10),
        Fourcc::Xbgr2101010 => Some(NativeFormat::X2B10G10R10),
        Fourcc::Argb2101010 => Some(NativeFormat::A2R10G10B10),
        Fourcc::Abgr2101010 => Some(NativeFormat::A2B10G10R10),
        Fourcc::R8 => None,
        Fourcc::Gr88 => None,
    }
}

/// Convert a native format code back to its neutral four-character code.
pub fn pixman_format_to_fourcc(value: NativeFormat) -> (r: Option<Fourcc>)
    ensures
        r == spec_from_native(value),
{
    match value {
        NativeFormat::A8R8G8B8 => Some(Fourcc::Argb8888),
        NativeFormat::X8R8G8B8 => Some(Fourcc::Xrgb8888),
        NativeFormat::C8 => Some(Fourcc::C8),
        NativeFormat::R3G3B2 => Some(Fourcc::Rgb332),
        NativeFormat::B2G3R3 => Some(Fourcc::Bgr233),
        NativeFormat::X4R4G4B4 => Some(Fourcc::Xrgb4444),
        NativeFormat::X4B4G4R4 => Some(Fourcc::Xbgr4444),
        NativeFormat::A4R4G4B4 => Some(Fourcc::Argb4444),
        NativeFormat::A4B4G4R4 => Some(Fourcc::Abgr4444),
        NativeFormat::X1R5G5B5 => Some(Fourcc::Xrgb1555),
        NativeFormat::X1B5G5R5 => Some(Fourcc::Xbgr1555),
        NativeFormat::A1R5G5B5 => Some(Fourcc::Argb1555),
        NativeFormat::A1B5G5R5 => Some(Fourcc::Abgr1555),
        NativeFormat::R5G6B5 => Some(Fourcc::Rgb565),
        NativeFormat::B5G6R5 => Some(Fourcc::Bgr565),
        NativeFormat::R8G8B8 => Some(Fourcc::Rgb888),
        NativeFormat::B8G8R8 => Some(Fourcc::Bgr888),
        NativeFormat::X8B8G8R8 => Some(Fourcc::Xbgr8888),
        NativeFormat::R8G8B8X8 => Some(Fourcc::Rgbx8888),
        NativeFormat::B8G8R8X8 => Some(Fourcc::Bgrx8888),
        NativeFormat::A8B8G8R8 => Some(Fourcc::Abgr8888),
        NativeFormat::R8G8B8A8 => Some(Fourcc::Rgba8888),
        NativeFormat::X2R10G10B10 => Some(Fourcc::Xrgb2101010),
        NativeFormat::X2B10G10R10 => Some(Fourcc::Xbgr2101010),
        NativeFormat::A2R10G10B10 => Some(Fourcc::Argb2101010),
        NativeFormat::A2B10G10R10 => Some(Fourcc::Abgr2101010),
    }
}

/// Every format's pixel occupies between one and four bytes.
pub proof fn lemma_bpp_range(f: Fourcc)
    ensures
        1 <= spec_bytes_per_pixel(f) <= 4,
{
}

/// The registry is bijective on the supported subset: every pair present
/// in one direction round-trips losslessly through the other.
pub proof fn lemma_format_round_trip(f: Fourcc, c: NativeFormat)
    ensures
        spec_to_native(f) matches Some(n) ==> spec_from_native(n) == Some(f),
        spec_from_native(c) matches Some(g) ==> spec_to_native(g) == Some(c),
{
}

} // verus!
