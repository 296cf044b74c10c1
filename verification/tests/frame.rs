use test_renderer::error::TestRendererError;
use test_renderer::format::Fourcc;
use test_renderer::geometry::{Color, Rect, Size, Transform};
use test_renderer::renderer::TestRenderer;

fn full(w: i32, h: i32) -> Vec<Rect> {
    vec![Rect::new(0, 0, w, h)]
}

#[test]
fn a_second_frame_is_rejected_while_one_is_open() {
    let mut r = TestRenderer::new();
    let f = r.render(Size::new(4, 4), Transform::Normal).expect("first frame opens");
    let e = r
        .render(Size::new(4, 4), Transform::Normal)
        .expect_err("a second frame is a state error");
    assert_eq!(e, TestRendererError::FrameActive);
    f.finish(&mut r).expect("finishing succeeds");
    let g = r.render(Size::new(4, 4), Transform::Normal).expect("a new frame opens after finish");
    g.finish(&mut r).unwrap();
}

#[test]
fn frame_metadata() {
    let mut r = TestRenderer::new();
    let f = r.render(Size::new(8, 2), Transform::Rotated90).unwrap();
    assert_eq!(f.transformation(), Transform::Rotated90);
    assert_eq!(f.id(), 0);
    let sync = f.finish(&mut r).unwrap();
    assert!(sync.is_reached());
}

#[test]
fn drawing_needs_a_bound_target() {
    let mut r = TestRenderer::new();
    let mut f = r.render(Size::new(2, 2), Transform::Normal).unwrap();
    let e = f
        .clear(&mut r, Color::new(1, 2, 3, 4), &full(2, 2))
        .expect_err("nothing is bound");
    assert_eq!(e, TestRendererError::NothingBound);
    f.finish(&mut r).unwrap();
}

#[test]
fn import_bind_render_export_round_trip() {
    let mut r = TestRenderer::new();
    let source = vec![0xFFu8; 4 * 4 * 4];
    let tex = r
        .import_memory(&source, Fourcc::Abgr8888, Size::new(4, 4), false)
        .expect("import succeeds");
    let target = r.create_buffer(Fourcc::Abgr8888, Size::new(4, 4)).expect("offscreen allocates");
    r.bind(target).expect("bind succeeds");
    let mut f = r.render(Size::new(4, 4), Transform::Normal).expect("frame opens");
    f.render_texture_from_to(
        &mut r,
        &tex,
        Rect::new(0, 0, 4, 4),
        Rect::new(0, 0, 4, 4),
        &full(4, 4),
        Transform::Normal,
        255,
    )
    .expect("the draw succeeds");
    f.finish(&mut r).expect("finish succeeds");
    let mapping = r
        .copy_framebuffer(Rect::new(0, 0, 4, 4), Fourcc::Abgr8888)
        .expect("export succeeds");
    let bytes = r.map_texture(&mapping).expect("mapping is readable");
    assert_eq!(bytes, &source[..]);
    assert!(!mapping.flipped());
    assert_eq!(mapping.width(), 4);
    assert_eq!(mapping.height(), 4);
    assert_eq!(mapping.format(), Some(Fourcc::Abgr8888));
}

#[test]
fn clear_touches_only_the_damage_union() {
    let mut r = TestRenderer::new();
    let target = r.create_buffer(Fourcc::Abgr8888, Size::new(4, 1)).unwrap();
    r.bind(target).unwrap();
    let mut f = r.render(Size::new(4, 1), Transform::Normal).unwrap();
    f.clear(&mut r, Color::new(8, 8, 8, 8), &[Rect::new(1, 0, 2, 1)]).unwrap();
    f.finish(&mut r).unwrap();
    let m = r.copy_framebuffer(Rect::new(0, 0, 4, 1), Fourcc::Abgr8888).unwrap();
    let expected: Vec<u8> =
        vec![0, 0, 0, 0, 8, 8, 8, 8, 8, 8, 8, 8, 0, 0, 0, 0];
    assert_eq!(m.data, expected);
}

#[test]
fn draw_solid_fills_the_damaged_part_of_dst() {
    let mut r = TestRenderer::new();
    let target = r.create_buffer(Fourcc::Abgr8888, Size::new(3, 1)).unwrap();
    r.bind(target).unwrap();
    let mut f = r.render(Size::new(3, 1), Transform::Normal).unwrap();
    // dst covers pixels 0..2, damage covers pixels 1..3: only pixel 1.
    f.draw_solid(&mut r, Rect::new(0, 0, 2, 1), &[Rect::new(1, 0, 2, 1)], Color::new(7, 6, 5, 4))
        .unwrap();
    f.finish(&mut r).unwrap();
    let m = r.copy_framebuffer(Rect::new(0, 0, 3, 1), Fourcc::Abgr8888).unwrap();
    let expected: Vec<u8> = vec![0, 0, 0, 0, 7, 6, 5, 4, 0, 0, 0, 0];
    assert_eq!(m.data, expected);
}

#[test]
fn textured_draw_honors_the_source_transform() {
    let mut r = TestRenderer::new();
    // A 2 by 1 strip of two distinct pixels.
    let strip: Vec<u8> = vec![1, 2, 3, 4, 5, 6, 7, 8];
    let tex = r
        .import_memory(&strip, Fourcc::Abgr8888, Size::new(2, 1), false)
        .unwrap();
    // Rotating a quarter turn lands the strip in a 1 by 2 target.
    let target = r.create_buffer(Fourcc::Abgr8888, Size::new(1, 2)).unwrap();
    r.bind(target).unwrap();
    let mut f = r.render(Size::new(1, 2), Transform::Normal).unwrap();
    f.render_texture_from_to(
        &mut r,
        &tex,
        Rect::new(0, 0, 2, 1),
        Rect::new(0, 0, 1, 2),
        &full(1, 2),
        Transform::Rotated90,
        255,
    )
    .unwrap();
    f.finish(&mut r).unwrap();
    let m = r.copy_framebuffer(Rect::new(0, 0, 1, 2), Fourcc::Abgr8888).unwrap();
    assert_eq!(m.data, vec![1, 2, 3, 4, 5, 6, 7, 8]);

    // The opposite quarter turn swaps the two pixels.
    let target2 = r.create_buffer(Fourcc::Abgr8888, Size::new(1, 2)).unwrap();
    r.bind(target2).unwrap();
    let mut f = r.render(Size::new(1, 2), Transform::Normal).unwrap();
    f.render_texture_from_to(
        &mut r,
        &tex,
        Rect::new(0, 0, 2, 1),
        Rect::new(0, 0, 1, 2),
        &full(1, 2),
        Transform::Rotated270,
        255,
    )
    .unwrap();
    f.finish(&mut r).unwrap();
    let m = r.copy_framebuffer(Rect::new(0, 0, 1, 2), Fourcc::Abgr8888).unwrap();
    assert_eq!(m.data, vec![5, 6, 7, 8, 1, 2, 3, 4]);
}

#[test]
fn textured_draw_blends_with_straight_alpha() {
    let mut r = TestRenderer::new();
    let src: Vec<u8> = vec![200, 0, 50, 255];
    let tex = r
        .import_memory(&src, Fourcc::Abgr8888, Size::new(1, 1), false)
        .unwrap();
    let target = r.create_buffer(Fourcc::Abgr8888, Size::new(1, 1)).unwrap();
    r.bind(target).unwrap();
    let mut f = r.render(Size::new(1, 1), Transform::Normal).unwrap();
    f.clear(&mut r, Color::new(100, 100, 100, 100), &full(1, 1)).unwrap();
    f.render_texture_from_to(
        &mut r,
        &tex,
        Rect::new(0, 0, 1, 1),
        Rect::new(0, 0, 1, 1),
        &full(1, 1),
        Transform::Normal,
        100,
    )
    .unwrap();
    f.finish(&mut r).unwrap();
    let m = r.copy_framebuffer(Rect::new(0, 0, 1, 1), Fourcc::Abgr8888).unwrap();
    // (source * 100 + destination * 155) / 255, channel by channel.
    assert_eq!(m.data, vec![139, 60, 80, 160]);
}

#[test]
fn flipped_textures_are_sampled_bottom_up() {
    let mut r = TestRenderer::new();
    let two_rows: Vec<u8> = vec![1, 1, 1, 1, 2, 2, 2, 2];
    let tex = r
        .import_memory(&two_rows, Fourcc::Abgr8888, Size::new(1, 2), true)
        .unwrap();
    let target = r.create_buffer(Fourcc::Abgr8888, Size::new(1, 2)).unwrap();
    r.bind(target).unwrap();
    let mut f = r.render(Size::new(1, 2), Transform::Normal).unwrap();
    f.render_texture_from_to(
        &mut r,
        &tex,
        Rect::new(0, 0, 1, 2),
        Rect::new(0, 0, 1, 2),
        &full(1, 2),
        Transform::Normal,
        255,
    )
    .unwrap();
    f.finish(&mut r).unwrap();
    let m = r.copy_framebuffer(Rect::new(0, 0, 1, 2), Fourcc::Abgr8888).unwrap();
    assert_eq!(m.data, vec![2, 2, 2, 2, 1, 1, 1, 1]);
}

#[test]
fn output_transform_rotates_the_whole_target() {
    let mut r = TestRenderer::new();
    // Logical space is the transformed 1-by-2 target: a 2-by-1 strip.
    let target = r.create_buffer(Fourcc::Abgr8888, Size::new(1, 2)).unwrap();
    r.bind(target).unwrap();
    let mut f = r.render(Size::new(2, 1), Transform::Rotated90).unwrap();
    // Fill logical pixel (1, 0) only.
    f.draw_solid(&mut r, Rect::new(1, 0, 1, 1), &full(2, 1), Color::new(3, 3, 3, 3)).unwrap();
    f.finish(&mut r).unwrap();
    let m = r.copy_framebuffer(Rect::new(0, 0, 1, 2), Fourcc::Abgr8888).unwrap();
    // Under a quarter turn, logical (1, 0) is physical (0, 1).
    assert_eq!(m.data, vec![0, 0, 0, 0, 3, 3, 3, 3]);
}

#[test]
fn sampling_the_active_target_is_rejected() {
    let mut r = TestRenderer::new();
    let target = r.create_buffer(Fourcc::Abgr8888, Size::new(2, 2)).unwrap();
    r.bind(target).unwrap();
    let mut f = r.render(Size::new(2, 2), Transform::Normal).unwrap();
    let e = f
        .render_texture_from_to(
            &mut r,
            &target,
            Rect::new(0, 0, 2, 2),
            Rect::new(0, 0, 2, 2),
            &full(2, 2),
            Transform::Normal,
            255,
        )
        .expect_err("self-sampling is unsupported");
    assert_eq!(e, TestRendererError::UnsupportedOperation);
    f.finish(&mut r).unwrap();
}

#[test]
fn textured_draw_checks_the_source_rectangle() {
    let mut r = TestRenderer::new();
    let data = vec![0u8; 2 * 2 * 4];
    let tex = r
        .import_memory(&data, Fourcc::Abgr8888, Size::new(2, 2), false)
        .unwrap();
    let target = r.create_buffer(Fourcc::Abgr8888, Size::new(2, 2)).unwrap();
    r.bind(target).unwrap();
    let mut f = r.render(Size::new(2, 2), Transform::Normal).unwrap();
    let e = f
        .render_texture_from_to(
            &mut r,
            &tex,
            Rect::new(1, 1, 2, 2),
            Rect::new(0, 0, 2, 2),
            &full(2, 2),
            Transform::Normal,
            255,
        )
        .expect_err("the source rectangle leaves the texture");
    assert_eq!(e, TestRendererError::OutOfBounds);
    f.finish(&mut r).unwrap();
}

#[test]
fn export_formats_and_regions_are_checked() {
    let mut r = TestRenderer::new();
    let target = r.create_buffer(Fourcc::Abgr8888, Size::new(2, 2)).unwrap();
    r.bind(target).unwrap();
    assert_eq!(
        r.copy_framebuffer(Rect::new(0, 0, 2, 2), Fourcc::Argb8888).err(),
        Some(TestRendererError::UnsupportedPixelFormat(Fourcc::Argb8888))
    );
    assert_eq!(
        r.copy_framebuffer(Rect::new(1, 1, 2, 2), Fourcc::Abgr8888).err(),
        Some(TestRendererError::OutOfBounds)
    );
}
