use test_renderer::error::{SwapBuffersError, TestRendererError};
use test_renderer::format::{Fourcc, FormatPair, Modifier};
use test_renderer::geometry::{Rect, Size};
use test_renderer::renderer::{DebugFlags, Dmabuf, SyncPoint, TestRenderer, TestTexture, TextureFilter};

#[test]
fn import_memory_creates_texture() {
    let mut r = TestRenderer::new();
    let data = vec![7u8; 2 * 3 * 4];
    let t = r
        .import_memory(&data, Fourcc::Abgr8888, Size::new(2, 3), false)
        .expect("import succeeds");
    assert_eq!(t.width(), 2);
    assert_eq!(t.height(), 3);
    assert_eq!(t.format(), Some(Fourcc::Abgr8888));
    assert_eq!(t.space(&r), 24);
}

#[test]
fn import_memory_one_byte_short_is_a_size_error() {
    let mut r = TestRenderer::new();
    let data = vec![0u8; 4 * 4 * 4 - 1];
    let e = r
        .import_memory(&data, Fourcc::Abgr8888, Size::new(4, 4), false)
        .expect_err("a short buffer is rejected");
    assert_eq!(e, TestRendererError::UnexpectedSize);
}

#[test]
fn import_memory_negative_size_is_a_size_error() {
    let mut r = TestRenderer::new();
    let data = vec![0u8; 64];
    let e = r
        .import_memory(&data, Fourcc::Abgr8888, Size::new(-1, 4), false)
        .expect_err("a negative extent is rejected");
    assert_eq!(e, TestRendererError::UnexpectedSize);
}

#[test]
fn import_memory_unregistered_format_creates_nothing() {
    let mut r = TestRenderer::new();
    let data = vec![0u8; 64];
    let e = r
        .import_memory(&data, Fourcc::R8, Size::new(4, 4), false)
        .expect_err("a format absent from the registry is rejected");
    assert_eq!(e, TestRendererError::UnsupportedPixelFormat(Fourcc::R8));
    // No texture slot was used: the next import takes the first slot.
    let t = r
        .import_memory(&data, Fourcc::Abgr8888, Size::new(4, 4), false)
        .expect("a supported import still works");
    assert_eq!(t.id, 0);
}

#[test]
fn create_buffer_rejects_other_formats() {
    let mut r = TestRenderer::new();
    let e = r
        .create_buffer(Fourcc::Argb8888, Size::new(4, 4))
        .expect_err("only the render format is accepted");
    assert_eq!(e, TestRendererError::UnsupportedPixelLayout);
    let e = r
        .create_buffer(Fourcc::Abgr8888, Size::new(-2, 4))
        .expect_err("a negative extent is rejected");
    assert_eq!(e, TestRendererError::UnexpectedSize);
}

#[test]
fn offscreen_storage_is_lazy_until_bind() {
    let mut r = TestRenderer::new();
    let t = r
        .create_buffer(Fourcc::Abgr8888, Size::new(3, 2))
        .expect("offscreen allocation succeeds");
    assert_eq!(t.space(&r), 0);
    r.bind(t).expect("bind succeeds");
    assert_eq!(t.space(&r), 3 * 2 * 4);
}

#[test]
fn bind_rejects_foreign_formats_and_keeps_the_old_target() {
    let mut r = TestRenderer::new();
    let good = r.create_buffer(Fourcc::Abgr8888, Size::new(2, 2)).unwrap();
    r.bind(good).unwrap();
    let data = vec![0u8; 16];
    let alien = r
        .import_memory(&data, Fourcc::Argb8888, Size::new(2, 2), false)
        .unwrap();
    let e = r.bind(alien).expect_err("only the render format binds");
    assert_eq!(e, TestRendererError::UnsupportedPixelLayout);
    // The previous target is still bound: reading the framebuffer works.
    let m = r
        .copy_framebuffer(Rect::new(0, 0, 2, 2), Fourcc::Abgr8888)
        .expect("the earlier bind target is still active");
    assert_eq!(m.width(), 2);
}

#[test]
fn bind_replaces_the_previous_target() {
    let mut r = TestRenderer::new();
    let a = r.create_buffer(Fourcc::Abgr8888, Size::new(2, 2)).unwrap();
    let b = r.create_buffer(Fourcc::Abgr8888, Size::new(2, 2)).unwrap();
    r.bind(a).unwrap();
    r.bind(b).unwrap();
    // Draw into the active target; only b's storage changes.
    let mut f = r
        .render(Size::new(2, 2), test_renderer::geometry::Transform::Normal)
        .unwrap();
    f.clear(
        &mut r,
        test_renderer::geometry::Color::new(9, 9, 9, 9),
        &[Rect::new(0, 0, 2, 2)],
    )
    .unwrap();
    f.finish(&mut r).unwrap();
    let ma = r.copy_texture(&a, Rect::new(0, 0, 2, 2), Fourcc::Abgr8888).unwrap();
    let mb = r.copy_texture(&b, Rect::new(0, 0, 2, 2), Fourcc::Abgr8888).unwrap();
    assert!(ma.data.iter().all(|&x| x == 0));
    assert!(mb.data.iter().all(|&x| x == 9));
}

#[test]
fn unbind_twice_is_a_documented_no_op() {
    let mut r = TestRenderer::new();
    let t = r.create_buffer(Fourcc::Abgr8888, Size::new(1, 1)).unwrap();
    r.bind(t).unwrap();
    assert_eq!(r.unbind(), Ok(()));
    assert_eq!(r.unbind(), Ok(()));
    let e = r
        .copy_framebuffer(Rect::new(0, 0, 1, 1), Fourcc::Abgr8888)
        .expect_err("nothing is bound after unbind");
    assert_eq!(e, TestRendererError::NothingBound);
}

#[test]
fn supported_format_tables() {
    let r = TestRenderer::new();
    let tex = r.supported_formats().expect("texture binding is applicable");
    assert_eq!(tex, vec![FormatPair { code: Fourcc::Abgr8888, modifier: Modifier::Linear }]);
    let ext = r
        .supported_formats_dmabuf()
        .expect("external binding is applicable");
    assert_eq!(ext, vec![FormatPair { code: Fourcc::Xrgb8888, modifier: Modifier::Linear }]);
}

#[test]
fn dmabuf_bind_checks_format_and_modifier() {
    let mut r = TestRenderer::new();
    let good = Dmabuf { width: 4, height: 4, format: Fourcc::Xrgb8888, modifier: Modifier::Linear };
    assert_eq!(r.bind_dmabuf(&good), Ok(()));
    let bad_format =
        Dmabuf { width: 4, height: 4, format: Fourcc::Argb8888, modifier: Modifier::Linear };
    assert_eq!(r.bind_dmabuf(&bad_format), Err(TestRendererError::UnsupportedPixelLayout));
    let bad_modifier =
        Dmabuf { width: 4, height: 4, format: Fourcc::Xrgb8888, modifier: Modifier::Invalid };
    assert_eq!(r.bind_dmabuf(&bad_modifier), Err(TestRendererError::UnsupportedPixelLayout));
}

#[test]
fn import_dmabuf_reports_the_missing_capability() {
    let mut r = TestRenderer::new();
    let buf = Dmabuf { width: 4, height: 4, format: Fourcc::Xrgb8888, modifier: Modifier::Linear };
    let e = r.import_dmabuf(&buf, None).expect_err("the pathway is unimplemented");
    assert_eq!(e, TestRendererError::UnsupportedOperation);
}

#[test]
fn shm_import_probes_every_pixel() {
    let mut r = TestRenderer::new();
    let contents = vec![0x01u8, 0x02, 0x04, 0x08, 0x10, 0x20];
    // offset 1, width 2, height 2, stride 3 touches bytes 1, 2, 4, 5.
    let (t, probe) = r
        .import_shm_buffer(&contents, 1, 2, 2, 3)
        .expect("the geometry fits the buffer");
    assert_eq!(probe, 0x02 | 0x04 | 0x10 | 0x20);
    assert_eq!(t.width(), 2);
    assert_eq!(t.height(), 2);
    assert_eq!(t.format(), None);
    assert_eq!(t.space(&r), contents.len());
}

#[test]
fn shm_import_rejects_truncated_buffers() {
    let mut r = TestRenderer::new();
    let contents = vec![0u8; 5];
    // The geometry needs byte 5, which a 5-byte buffer does not have.
    let e = r
        .import_shm_buffer(&contents, 1, 2, 2, 3)
        .expect_err("out-of-range geometry is an access error");
    assert_eq!(e, TestRendererError::BufferAccessError);
}

#[test]
fn update_memory_writes_the_region() {
    let mut r = TestRenderer::new();
    let data = vec![0u8; 4 * 4 * 4];
    let t = r
        .import_memory(&data, Fourcc::Abgr8888, Size::new(4, 4), false)
        .unwrap();
    let block = vec![5u8; 2 * 2 * 4];
    r.update_memory(&t, &block, Rect::new(1, 1, 2, 2)).expect("the update fits");
    let m = r.copy_texture(&t, Rect::new(0, 0, 4, 4), Fourcc::Abgr8888).unwrap();
    for py in 0..4usize {
        for px in 0..4usize {
            let inside = (1..3).contains(&px) && (1..3).contains(&py);
            for k in 0..4usize {
                let b = m.data[(py * 4 + px) * 4 + k];
                assert_eq!(b, if inside { 5 } else { 0 });
            }
        }
    }
}

#[test]
fn update_memory_rejects_bad_regions() {
    let mut r = TestRenderer::new();
    let data = vec![0u8; 4 * 4 * 4];
    let t = r
        .import_memory(&data, Fourcc::Abgr8888, Size::new(4, 4), false)
        .unwrap();
    let block = vec![0u8; 64];
    assert_eq!(
        r.update_memory(&t, &block, Rect::new(3, 3, 2, 2)),
        Err(TestRendererError::OutOfBounds)
    );
    let short = vec![0u8; 2 * 2 * 4 - 1];
    assert_eq!(
        r.update_memory(&t, &short, Rect::new(0, 0, 2, 2)),
        Err(TestRendererError::UnexpectedSize)
    );
}

#[test]
fn copy_texture_checks_format_and_bounds() {
    let mut r = TestRenderer::new();
    let data = vec![1u8; 2 * 2 * 4];
    let t = r
        .import_memory(&data, Fourcc::Abgr8888, Size::new(2, 2), false)
        .unwrap();
    assert_eq!(
        r.copy_texture(&t, Rect::new(0, 0, 2, 2), Fourcc::Argb8888).err(),
        Some(TestRendererError::UnsupportedPixelFormat(Fourcc::Argb8888))
    );
    assert_eq!(
        r.copy_texture(&t, Rect::new(1, 1, 2, 2), Fourcc::Abgr8888).err(),
        Some(TestRendererError::OutOfBounds)
    );
    // Reading a texture whose storage is still deferred is out of bounds.
    let lazy = r.create_buffer(Fourcc::Abgr8888, Size::new(2, 2)).unwrap();
    assert_eq!(
        r.copy_texture(&lazy, Rect::new(0, 0, 2, 2), Fourcc::Abgr8888).err(),
        Some(TestRendererError::OutOfBounds)
    );
}

#[test]
fn texture_handles_share_storage() {
    let mut r = TestRenderer::new();
    let data = vec![3u8; 16];
    let t = r
        .import_memory(&data, Fourcc::Abgr8888, Size::new(2, 2), false)
        .unwrap();
    let u: TestTexture = t;
    let block = vec![9u8; 4];
    r.update_memory(&t, &block, Rect::new(0, 0, 1, 1)).unwrap();
    let m = r.copy_texture(&u, Rect::new(0, 0, 1, 1), Fourcc::Abgr8888).unwrap();
    assert_eq!(m.data, vec![9u8; 4]);
}

#[test]
fn filters_and_debug_flags_are_recorded() {
    let mut r = TestRenderer::new();
    assert_eq!(r.upscale_filter(TextureFilter::Nearest), Ok(()));
    assert_eq!(r.downscale_filter(TextureFilter::Nearest), Ok(()));
    assert_eq!(r.debug_flags(), DebugFlags::empty());
    r.set_debug_flags(DebugFlags { tint: true });
    assert_eq!(r.debug_flags(), DebugFlags { tint: true });
    assert_eq!(r.id(), 0);
}

#[test]
fn every_renderer_error_is_transient() {
    let errors = vec![
        TestRendererError::BufferAccessError,
        TestRendererError::UnsupportedPixelLayout,
        TestRendererError::UnsupportedPixelFormat(Fourcc::R8),
        TestRendererError::UnexpectedSize,
        TestRendererError::OutOfBounds,
        TestRendererError::UnsupportedOperation,
        TestRendererError::FrameActive,
        TestRendererError::NothingBound,
    ];
    for e in errors {
        assert_eq!(SwapBuffersError::from(e), SwapBuffersError::TemporaryFailure(e));
    }
}

#[test]
fn sync_points_are_already_complete() {
    let s = SyncPoint::default();
    assert!(s.is_reached());
}

#[test]
fn error_descriptions_are_stable() {
    assert_eq!(
        TestRendererError::UnexpectedSize.describe(),
        "buffer size is too small for the given dimensions"
    );
    assert_eq!(TestRendererError::NothingBound.describe(), "no target is currently bound");
}
