use drm_fourcc::DrmFourcc;
use test_renderer::format::{Fourcc, NativeFormat, bytes_per_pixel, fourcc_to_pixman_format, pixman_format_to_fourcc};
use test_renderer::renderer::TestRenderer;

fn all_fourcc() -> Vec<Fourcc> {
    vec![
        Fourcc::Argb8888,
        Fourcc::Xrgb8888,
        Fourcc::C8,
        Fourcc::Rgb332,
        Fourcc::Bgr233,
        Fourcc::Xrgb4444,
        Fourcc::Xbgr4444,
        Fourcc::Argb4444,
        Fourcc::Abgr4444,
        Fourcc::Xrgb1555,
        Fourcc::Xbgr1555,
        Fourcc::Argb1555,
        Fourcc::Abgr1555,
        Fourcc::Rgb565,
        Fourcc::Bgr565,
        Fourcc::Rgb888,
        Fourcc::Bgr888,
        Fourcc::Xbgr8888,
        Fourcc::Rgbx8888,
        Fourcc::Bgrx8888,
        Fourcc::Abgr8888,
        Fourcc::Rgba8888,
        Fourcc::Xrgb2101010,
        Fourcc::Xbgr2101010,
        Fourcc::Argb2101010,
        Fourcc::Abgr2101010,
        Fourcc::R8,
        Fourcc::Gr88,
    ]
}

fn all_native() -> Vec<NativeFormat> {
    vec![
        NativeFormat::A8R8G8B8,
        NativeFormat::X8R8G8B8,
        NativeFormat::C8,
        NativeFormat::R3G3B2,
        NativeFormat::B2G3R3,
        NativeFormat::X4R4G4B4,
        NativeFormat::X4B4G4R4,
        NativeFormat::A4R4G4B4,
        NativeFormat::A4B4G4R4,
        NativeFormat::X1R5G5B5,
        NativeFormat::X1B5G5R5,
        NativeFormat::A1R5G5B5,
        NativeFormat::A1B5G5R5,
        NativeFormat::R5G6B5,
        NativeFormat::B5G6R5,
        NativeFormat::R8G8B8,
        NativeFormat::B8G8R8,
        NativeFormat::X8B8G8R8,
        NativeFormat::R8G8B8X8,
        NativeFormat::B8G8R8X8,
        NativeFormat::A8B8G8R8,
        NativeFormat::R8G8B8A8,
        NativeFormat::X2R10G10B10,
        NativeFormat::X2B10G10R10,
        NativeFormat::A2R10G10B10,
        NativeFormat::A2B10G10R10,
    ]
}

#[test]
fn format_round_trip_forward() {
    for f in all_fourcc() {
        if let Some(n) = fourcc_to_pixman_format(f) {
            assert_eq!(pixman_format_to_fourcc(n), Some(f));
        }
    }
}

#[test]
fn format_round_trip_backward() {
    for n in all_native() {
        let f = pixman_format_to_fourcc(n).expect("every native code maps back");
        assert_eq!(fourcc_to_pixman_format(f), Some(n));
    }
}

#[test]
fn registry_rejects_unmapped_formats() {
    assert_eq!(fourcc_to_pixman_format(Fourcc::R8), None);
    assert_eq!(fourcc_to_pixman_format(Fourcc::Gr88), None);
}

#[test]
fn bytes_per_pixel_values() {
    assert_eq!(bytes_per_pixel(Fourcc::Abgr8888), 4);
    assert_eq!(bytes_per_pixel(Fourcc::Argb8888), 4);
    assert_eq!(bytes_per_pixel(Fourcc::Rgb888), 3);
    assert_eq!(bytes_per_pixel(Fourcc::Rgb565), 2);
    assert_eq!(bytes_per_pixel(Fourcc::C8), 1);
    assert_eq!(bytes_per_pixel(Fourcc::Xrgb2101010), 4);
    assert_eq!(bytes_per_pixel(Fourcc::R8), 1);
    assert_eq!(bytes_per_pixel(Fourcc::Gr88), 2);
}

#[test]
fn wire_codes_match_the_standard_fourcc_space() {
    let pairs: Vec<(Fourcc, DrmFourcc)> = vec![
        (Fourcc::Argb8888, DrmFourcc::Argb8888),
        (Fourcc::Xrgb8888, DrmFourcc::Xrgb8888),
        (Fourcc::C8, DrmFourcc::C8),
        (Fourcc::Rgb332, DrmFourcc::Rgb332),
        (Fourcc::Bgr233, DrmFourcc::Bgr233),
        (Fourcc::Xrgb4444, DrmFourcc::Xrgb4444),
        (Fourcc::Xbgr4444, DrmFourcc::Xbgr4444),
        (Fourcc::Argb4444, DrmFourcc::Argb4444),
        (Fourcc::Abgr4444, DrmFourcc::Abgr4444),
        (Fourcc::Xrgb1555, DrmFourcc::Xrgb1555),
        (Fourcc::Xbgr1555, DrmFourcc::Xbgr1555),
        (Fourcc::Argb1555, DrmFourcc::Argb1555),
        (Fourcc::Abgr1555, DrmFourcc::Abgr1555),
        (Fourcc::Rgb565, DrmFourcc::Rgb565),
        (Fourcc::Bgr565, DrmFourcc::Bgr565),
        (Fourcc::Rgb888, DrmFourcc::Rgb888),
        (Fourcc::Bgr888, DrmFourcc::Bgr888),
        (Fourcc::Xbgr8888, DrmFourcc::Xbgr8888),
        (Fourcc::Rgbx8888, DrmFourcc::Rgbx8888),
        (Fourcc::Bgrx8888, DrmFourcc::Bgrx8888),
        (Fourcc::Abgr8888, DrmFourcc::Abgr8888),
        (Fourcc::Rgba8888, DrmFourcc::Rgba8888),
        (Fourcc::Xrgb2101010, DrmFourcc::Xrgb2101010),
        (Fourcc::Xbgr2101010, DrmFourcc::Xbgr2101010),
        (Fourcc::Argb2101010, DrmFourcc::Argb2101010),
        (Fourcc::Abgr2101010, DrmFourcc::Abgr2101010),
        (Fourcc::R8, DrmFourcc::R8),
        (Fourcc::Gr88, DrmFourcc::Gr88),
    ];
    for (ours, standard) in pairs {
        assert_eq!(ours.code(), standard as u32);
    }
}

#[test]
fn mem_formats_lists_exactly_the_registry() {
    let r = TestRenderer::new();
    let advertised = r.mem_formats();
    for f in all_fourcc() {
        let supported = fourcc_to_pixman_format(f).is_some();
        assert_eq!(advertised.contains(&f), supported);
    }
    assert_eq!(advertised.len(), 26);
}
