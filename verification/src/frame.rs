//! The render session: a frame begun on a renderer, its draw operations,
//! and the synchronization token that ends it.
//!
//! At most one frame may be open per renderer; opening a second one is a
//! state error. Draw operations are damage-scoped: a damage list
//! restricts which logical pixels are touched. The frame's output
//! transform relates logical coordinates to the physical pixels of the
//! bound target; a draw first inverts that transform for each target
//! pixel, then tests the damage list, so composing the source transform
//! (applied while sampling) with the output transform (applied to the
//! whole target) is associative by construction.

use vstd::prelude::*;

verus! {

use crate::error::TestRendererError;
use crate::format::Fourcc;
use crate::geometry::{
    Color,
    Rect,
    Size,
    Transform,
    covered_by,
    map_point,
    spec_covered,
    spec_map_point,
    spec_transformed_size,
    transformed_size,
};
use crate::renderer::{BindTarget, SyncPoint, TestRenderer, TestTexture, swap_entry_data};

/// Byte `k` of pixel `(px, py)` of a `tw`-pixel-wide row-major grid at
/// four bytes per pixel.
pub open spec fn spec_pix(tw: int, px: int, py: int, k: int) -> int {
    (py * tw + px) * 4 + k
}

/// Distinct pixels of one grid occupy distinct cells.
proof fn lemma_pixid_distinct(tw: int, px1: int, py1: int, px2: int, py2: int)
    requires
        0 <= px1 < tw,
        0 <= px2 < tw,
        0 <= py1,
        0 <= py2,
        !(px1 == px2 && py1 == py2),
    ensures
        py1 * tw + px1 != py2 * tw + px2,
{
    if py1 == py2 {
    } else if py1 < py2 {
        assert(py1 * tw + tw <= py2 * tw) by (nonlinear_arith)
            requires
                py1 + 1 <= py2,
                0 <= tw,
        ;
    } else {
        assert(py2 * tw + tw <= py1 * tw) by (nonlinear_arith)
            requires
                py2 + 1 <= py1,
                0 <= tw,
        ;
    }
}

/// Every in-range pixel byte lies inside the grid's byte range.
proof fn lemma_pix_bound(tw: int, th: int, px: int, py: int, k: int)
    requires
        0 <= px < tw,
        0 <= py < th,
        0 <= k < 4,
    ensures
        0 <= spec_pix(tw, px, py, k) < tw * th * 4,
        spec_pix(tw, px, py, 3) < tw * th * 4,
{
    assert(0 <= py * tw + px && py * tw + px < th * tw) by (nonlinear_arith)
        requires
            0 <= px < tw,
            0 <= py < th,
    ;
    assert(th * tw == tw * th) by (nonlinear_arith);
}

/// Write the four bytes of pixel `(px, py)`, leaving every other byte of
/// the buffer unchanged.
fn put_pixel(buf: &mut Vec<u8>, tw: usize, px: usize, py: usize, b0: u8, b1: u8, b2: u8, b3: u8)
    requires
        px < tw,
        spec_pix(tw as int, px as int, py as int, 0) + 4 <= old(buf)@.len(),
        old(buf)@.len() <= usize::MAX as int,
        0 <= spec_pix(tw as int, px as int, py as int, 0),
    ensures
        final(buf)@.len() == old(buf)@.len(),
        final(buf)@[spec_pix(tw as int, px as int, py as int, 0)] == b0,
        final(buf)@[spec_pix(tw as int, px as int, py as int, 1)] == b1,
        final(buf)@[spec_pix(tw as int, px as int, py as int, 2)] == b2,
        final(buf)@[spec_pix(tw as int, px as int, py as int, 3)] == b3,
        forall|j: int|
            0 <= j < old(buf)@.len() && !(spec_pix(tw as int, px as int, py as int, 0) <= j
                <= spec_pix(tw as int, px as int, py as int, 3)) ==> final(buf)@[j] == old(
                buf,
            )@[j],
{
    proof {
        assert(py * tw <= py * tw + px) by (nonlinear_arith)
            requires
                0 <= px,
                0 <= py * tw,
        ;
        assert(0 <= py * tw) by (nonlinear_arith)
            requires
                0 <= py,
                0 <= tw,
        ;
    }
    let base: usize = (py * tw + px) * 4;
    buf.set(base, b0);
    buf.set(base + 1, b1);
    buf.set(base + 2, b2);
    buf.set(base + 3, b3);
}

/// The result of mixing source byte `s` over destination byte `d` with
/// straight alpha `a`, where 255 means fully opaque.
pub open spec fn spec_blend(s: u8, d: u8, a: u8) -> u8 {
    (((s * a) + (d * (255 - a))) / 255) as u8
}

/// Executable counterpart of [`spec_blend`].
pub fn blend(s: u8, d: u8, a: u8) -> (r: u8)
    ensures
        r == spec_blend(s, d, a),
{
    proof {
        assert((s as int) * (a as int) + (d as int) * (255 - a as int) <= 255 * 255 && 0 <= (
        s as int) * (a as int) && 0 <= (d as int) * (255 - a as int)) by (nonlinear_arith)
            requires
                0 <= s as int <= 255,
                0 <= d as int <= 255,
                0 <= a as int <= 255,
        ;
    }
    let num: u32 = (s as u32) * (a as u32) + (d as u32) * (255 - (a as u32));
    proof {
        vstd::arithmetic::div_mod::lemma_multiply_divide_le(num as int, 255, 255);
    }
    (num / 255) as u8
}

/// Fully opaque blending hands the source byte through unchanged.
pub proof fn lemma_blend_opaque(s: u8, d: u8)
    ensures
        spec_blend(s, d, 255) == s,
{
    assert((s as int) * 255 + (d as int) * (255 - 255) == 255 * (s as int)) by (nonlinear_arith);
    vstd::arithmetic::div_mod::lemma_div_multiples_vanish(s as int, 255);
}

/// Fully transparent blending keeps the destination byte unchanged.
pub proof fn lemma_blend_transparent(s: u8, d: u8)
    ensures
        spec_blend(s, d, 0) == d,
{
    assert((s as int) * 0 + (d as int) * (255 - 0) == 255 * (d as int)) by (nonlinear_arith);
    vstd::arithmetic::div_mod::lemma_div_multiples_vanish(d as int, 255);
}

/// Channel `k` of a color in the render target's byte order.
pub open spec fn spec_color_byte(c: Color, k: int) -> u8 {
    if k == 0 {
        c.r
    } else if k == 1 {
        c.g
    } else if k == 2 {
        c.b
    } else {
        c.a
    }
}

/// The logical coordinate that target pixel `(px, py)` shows once the
/// output transform `t` is applied to the whole `tw` by `th` target.
pub open spec fn spec_logical(t: Transform, tw: int, th: int, px: int, py: int) -> (int, int) {
    spec_map_point(t.spec_invert(), tw, th, px, py)
}

/// Whether a draw restricted by `dst` and `damage` touches target pixel
/// `(px, py)`: its logical point must lie in the destination rectangle
/// (where one is given) and in the damage union.
pub open spec fn spec_draw_cond(
    t: Transform,
    tw: int,
    th: int,
    dst: Option<Rect>,
    damage: Seq<Rect>,
    px: int,
    py: int,
) -> bool {
    let (lx, ly) = spec_logical(t, tw, th, px, py);
    &&& (match dst {
        Some(rect) => rect.spec_contains(lx, ly),
        None => true,
    })
    &&& spec_covered(damage, lx, ly)
}

/// `post` is `pre` with every touched pixel set to `color` and every
/// other byte unchanged.
pub open spec fn spec_filled(
    pre: Seq<u8>,
    post: Seq<u8>,
    tw: int,
    th: int,
    t: Transform,
    dst: Option<Rect>,
    damage: Seq<Rect>,
    color: Color,
) -> bool {
    &&& post.len() == pre.len()
    &&& forall|px: int, py: int, k: int|
        0 <= px < tw && 0 <= py < th && 0 <= k < 4 ==> post[#[trigger] spec_pix(tw, px, py, k)] == (
        if spec_draw_cond(t, tw, th, dst, damage, px, py) {
            spec_color_byte(color, k)
        } else {
            pre[spec_pix(tw, px, py, k)]
        })
    &&& forall|j: int| tw * th * 4 <= j < pre.len() ==> post[j] == pre[j]
}

/// Set every touched pixel of a `tw` by `th` target to `color`.
fn fill_pixels(
    buf: &mut Vec<u8>,
    tw: usize,
    th: usize,
    t: Transform,
    dst: Option<Rect>,
    damage: &[Rect],
    color: Color,
)
    requires
        old(buf)@.len() >= tw * th * 4,
        old(buf)@.len() <= usize::MAX as int,
        tw <= u32::MAX,
        th <= u32::MAX,
    ensures
        spec_filled(old(buf)@, final(buf)@, tw as int, th as int, t, dst, damage@, color),
{
    let inv_t = t.invert();
    let mut py: usize = 0;
    while py < th
        invariant
            py <= th,
            buf@.len() == old(buf)@.len(),
            old(buf)@.len() >= tw * th * 4,
            old(buf)@.len() <= usize::MAX as int,
            tw <= u32::MAX,
            th <= u32::MAX,
            inv_t == t.spec_invert(),
            forall|px2: int, py2: int, k: int|
                0 <= px2 < tw && 0 <= py2 < py && 0 <= k < 4 ==> buf@[#[trigger] spec_pix(
                    tw as int,
                    px2,
                    py2,
                    k,
                )] == (if spec_draw_cond(t, tw as int, th as int, dst, damage@, px2, py2) {
                    spec_color_byte(color, k)
                } else {
                    old(buf)@[spec_pix(tw as int, px2, py2, k)]
                }),
            forall|px2: int, py2: int, k: int|
                0 <= px2 < tw && py <= py2 < th && 0 <= k < 4 ==> buf@[#[trigger] spec_pix(
                    tw as int,
                    px2,
                    py2,
                    k,
                )] == old(buf)@[spec_pix(tw as int, px2, py2, k)],
            forall|j: int| tw * th * 4 <= j < buf@.len() ==> buf@[j] == old(buf)@[j],
        decreases th - py,
    {
        let mut px: usize = 0;
        while px < tw
            invariant
                px <= tw,
                py < th,
                buf@.len() == old(buf)@.len(),
                old(buf)@.len() >= tw * th * 4,
                old(buf)@.len() <= usize::MAX as int,
                tw <= u32::MAX,
                th <= u32::MAX,
                inv_t == t.spec_invert(),
                forall|px2: int, py2: int, k: int|
                    0 <= px2 < tw && 0 <= py2 < py && 0 <= k < 4 ==> buf@[#[trigger] spec_pix(
                        tw as int,
                        px2,
                        py2,
                        k,
                    )] == (if spec_draw_cond(t, tw as int, th as int, dst, damage@, px2, py2) {
                        spec_color_byte(color, k)
                    } else {
                        old(buf)@[spec_pix(tw as int, px2, py2, k)]
                    }),
                forall|px2: int, k: int|
                    0 <= px2 < px && 0 <= k < 4 ==> buf@[#[trigger] spec_pix(
                        tw as int,
                        px2,
                        py as int,
                        k,
                    )] == (if spec_draw_cond(
                        t,
                        tw as int,
                        th as int,
                        dst,
                        damage@,
                        px2,
                        py as int,
                    ) {
                        spec_color_byte(color, k)
                    } else {
                        old(buf)@[spec_pix(tw as int, px2, py as int, k)]
                    }),
                forall|px2: int, k: int|
                    px <= px2 < tw && 0 <= k < 4 ==> buf@[#[trigger] spec_pix(
                        tw as int,
                        px2,
                        py as int,
                        k,
                    )] == old(buf)@[spec_pix(tw as int, px2, py as int, k)],
                forall|px2: int, py2: int, k: int|
                    0 <= px2 < tw && py < py2 < th && 0 <= k < 4 ==> buf@[#[trigger] spec_pix(
                        tw as int,
                        px2,
                        py2,
                        k,
                    )] == old(buf)@[spec_pix(tw as int, px2, py2, k)],
                forall|j: int| tw * th * 4 <= j < buf@.len() ==> buf@[j] == old(buf)@[j],
            decreases tw - px,
        {
            let (lx, ly) = map_point(inv_t, tw, th, px, py);
            let in_dst = match dst {
                Some(rect) => rect.contains(lx as i64, ly as i64),
                None => true,
            };
            let cond = in_dst && covered_by(damage, lx as i64, ly as i64);
            proof {
                lemma_pix_bound(tw as int, th as int, px as int, py as int, 0);
            }
            if cond {
                let ghost pre_buf = buf@;
                put_pixel(buf, tw, px, py, color.r, color.g, color.b, color.a);
                proof {
                    restore_fill_invariants(
                        pre_buf,
                        buf@,
                        old(buf)@,
                        tw as int,
                        th as int,
                        px as int,
                        py as int,
                    );
                }
            }
            px = px + 1;
        }
        py = py + 1;
    }
}

/// After the four bytes of pixel `(px, py)` were rewritten, every other
/// pixel's bytes and the tail of the buffer are as they were.
proof fn restore_fill_invariants(
    pre: Seq<u8>,
    post: Seq<u8>,
    orig: Seq<u8>,
    tw: int,
    th: int,
    px: int,
    py: int,
)
    requires
        0 <= px < tw,
        0 <= py < th,
        pre.len() == post.len(),
        pre.len() >= tw * th * 4,
        forall|j: int|
            0 <= j < pre.len() && !(spec_pix(tw, px, py, 0) <= j <= spec_pix(tw, px, py, 3))
                ==> post[j] == pre[j],
    ensures
        forall|px2: int, py2: int, k: int|
            0 <= px2 < tw && 0 <= py2 < th && 0 <= k < 4 && !(px2 == px && py2 == py)
                ==> post[#[trigger] spec_pix(tw, px2, py2, k)] == pre[spec_pix(tw, px2, py2, k)],
        forall|j: int| tw * th * 4 <= j < pre.len() ==> post[j] == pre[j],
{
    assert forall|px2: int, py2: int, k: int|
        0 <= px2 < tw && 0 <= py2 < th && 0 <= k < 4 && !(px2 == px && py2 == py) implies post[
        #[trigger] spec_pix(tw, px2, py2, k)
    ] == pre[spec_pix(tw, px2, py2, k)] by {
        lemma_pixid_distinct(tw, px2, py2, px, py);
        lemma_pix_bound(tw, th, px2, py2, k);
    }
    assert forall|j: int| tw * th * 4 <= j < pre.len() implies post[j] == pre[j] by {
        lemma_pix_bound(tw, th, px, py, 3);
    }
}

/// A frame: a bounded render session on one renderer. It exists between
/// `render` and `finish`, and its drawing is directed at whatever target
/// its renderer has bound.
#[derive(Debug)]
pub struct TestFrame {
    /// The logical output extent the session was opened with.
    pub size: Size,
    /// The output transform applied to the whole target.
    pub transform: Transform,
}

impl TestRenderer {
    /// Begin a render session. At most one frame may be open at a time:
    /// a second `render` before `finish` is rejected as a state error.
    pub fn render(&mut self, size: Size, dst_transform: Transform) -> (r: Result<
        TestFrame,
        TestRendererError,
    >)
        requires
            old(self).wf(),
        ensures
            final(self).wf(),
            old(self).frame_open ==> r == Err::<TestFrame, TestRendererError>(
                TestRendererError::FrameActive,
            ) && *final(self) == *old(self),
            !old(self).frame_open ==> (r matches Ok(f) && f == (TestFrame {
                size,
                transform: dst_transform,
            }) && *final(self) == (TestRenderer { frame_open: true, ..*old(self) })),
    {
        if self.frame_open {
            return Err(TestRendererError::FrameActive);
        }
        self.frame_open = true;
        Ok(TestFrame { size, transform: dst_transform })
    }
}

impl TestFrame {
    /// The identity of the renderer this frame belongs to.
    pub fn id(&self) -> (r: usize)
        ensures
            r == 0,
    {
        0
    }

    /// The output transform the session was opened with.
    pub fn transformation(&self) -> (t: Transform)
        ensures
            t == self.transform,
    {
        self.transform
    }

    /// End the session. The frame is consumed; the returned token is
    /// already complete, since this backend draws synchronously.
    pub fn finish(self, r: &mut TestRenderer) -> (res: Result<SyncPoint, TestRendererError>)
        requires
            old(r).wf(),
        ensures
            final(r).wf(),
            *final(r) == (TestRenderer { frame_open: false, ..*old(r) }),
            res == Ok::<SyncPoint, TestRendererError>(SyncPoint {  }),
    {
        r.frame_open = false;
        Ok(SyncPoint {  })
    }

    /// Set every pixel of the damage union to `color`. With no
    /// CPU-writable target bound there is nothing to draw into.
    pub fn clear(&mut self, r: &mut TestRenderer, color: Color, damage: &[Rect]) -> (res: Result<
        (),
        TestRendererError,
    >)
        requires
            old(r).wf(),
        ensures
            final(r).wf(),
            *final(self) == *old(self),
            match old(r).bound {
                Some(BindTarget::Texture(id)) => {
                    &&& res is Ok
                    &&& spec_target_updated(*old(r), *final(r), id as int)
                    &&& spec_filled(
                        old(r).textures@[id as int].data@,
                        final(r).textures@[id as int].data@,
                        old(r).textures@[id as int].width as int,
                        old(r).textures@[id as int].height as int,
                        old(self).transform,
                        None,
                        damage@,
                        color,
                    )
                },
                _ => res == Err::<(), TestRendererError>(TestRendererError::NothingBound)
                    && *final(r) == *old(r),
            },
    {
        let id = match r.bound {
            Some(BindTarget::Texture(id)) => id,
            _ => {
                return Err(TestRendererError::NothingBound);
            },
        };
        let tw = r.textures[id].width as usize;
        let th = r.textures[id].height as usize;
        let mut buf: Vec<u8> = Vec::new();
        swap_entry_data(&mut r.textures, id, &mut buf);
        let ghost pre = *old(r);
        proof {
            vstd::std_specs::vec::axiom_spec_len(&buf);
        }
        fill_pixels(&mut buf, tw, th, self.transform, None, damage, color);
        swap_entry_data(&mut r.textures, id, &mut buf);
        proof {
            crate::import::lemma_store_update_wf(pre, *r, id as int);
        }
        Ok(())
    }

    /// Fill the part of `dst` that the damage union covers with `color`.
    /// The fill is opaque: the color's bytes are written as they are.
    pub fn draw_solid(
        &mut self,
        r: &mut TestRenderer,
        dst: Rect,
        damage: &[Rect],
        color: Color,
    ) -> (res: Result<(), TestRendererError>)
        requires
            old(r).wf(),
        ensures
            final(r).wf(),
            *final(self) == *old(self),
            match old(r).bound {
                Some(BindTarget::Texture(id)) => {
                    &&& res is Ok
                    &&& spec_target_updated(*old(r), *final(r), id as int)
                    &&& spec_filled(
                        old(r).textures@[id as int].data@,
                        final(r).textures@[id as int].data@,
                        old(r).textures@[id as int].width as int,
                        old(r).textures@[id as int].height as int,
                        old(self).transform,
                        Some(dst),
                        damage@,
                        color,
                    )
                },
                _ => res == Err::<(), TestRendererError>(TestRendererError::NothingBound)
                    && *final(r) == *old(r),
            },
    {
        let id = match r.bound {
            Some(BindTarget::Texture(id)) => id,
            _ => {
                return Err(TestRendererError::NothingBound);
            },
        };
        let tw = r.textures[id].width as usize;
        let th = r.textures[id].height as usize;
        let mut buf: Vec<u8> = Vec::new();
        swap_entry_data(&mut r.textures, id, &mut buf);
        let ghost pre = *old(r);
        proof {
            vstd::std_specs::vec::axiom_spec_len(&buf);
        }
        fill_pixels(&mut buf, tw, th, self.transform, Some(dst), damage, color);
        swap_entry_data(&mut r.textures, id, &mut buf);
        proof {
            crate::import::lemma_store_update_wf(pre, *r, id as int);
        }
        Ok(())
    }
}

/// The byte the textured draw samples from the source texture for
/// logical point `(lx, ly)`: the destination offset is scaled into the
/// source's presented box, the source transform is inverted to find the
/// stored texel (nearest sampling), and a flipped texture is read
/// bottom-up.
pub open spec fn spec_sample(
    tex: Seq<u8>,
    texw: int,
    texh: int,
    flipped: bool,
    src: Rect,
    st: Transform,
    dst: Rect,
    lx: int,
    ly: int,
    k: int,
) -> u8 {
    let ox = lx - dst.x;
    let oy = ly - dst.y;
    let (lsw, lsh) = spec_transformed_size(st, src.w as int, src.h as int);
    let u = ox * lsw / (dst.w as int);
    let v = oy * lsh / (dst.h as int);
    let (bu, bv) = spec_map_point(st.spec_invert(), lsw, lsh, u, v);
    let col = src.x + bu;
    let row0 = src.y + bv;
    let row = if flipped {
        texh - 1 - row0
    } else {
        row0
    };
    tex[spec_pix(texw, col, row, k)]
}

/// The new value of byte `k` of target pixel `(px, py)` after a
/// textured draw: untouched pixels keep their bytes, touched pixels are
/// blended with the sampled source byte.
pub open spec fn spec_blit_byte(
    pre: Seq<u8>,
    tw: int,
    th: int,
    t: Transform,
    tex: Seq<u8>,
    texw: int,
    texh: int,
    flipped: bool,
    src: Rect,
    dst: Rect,
    damage: Seq<Rect>,
    st: Transform,
    alpha: u8,
    px: int,
    py: int,
    k: int,
) -> u8 {
    if spec_draw_cond(t, tw, th, Some(dst), damage, px, py) {
        let (lx, ly) = spec_logical(t, tw, th, px, py);
        spec_blend(
            spec_sample(tex, texw, texh, flipped, src, st, dst, lx, ly, k),
            pre[spec_pix(tw, px, py, k)],
            alpha,
        )
    } else {
        pre[spec_pix(tw, px, py, k)]
    }
}

/// `post` is `pre` with every touched pixel blended with the source
/// texture's sampled byte and every other byte unchanged.
pub open spec fn spec_blitted(
    pre: Seq<u8>,
    post: Seq<u8>,
    tw: int,
    th: int,
    t: Transform,
    tex: Seq<u8>,
    texw: int,
    texh: int,
    flipped: bool,
    src: Rect,
    dst: Rect,
    damage: Seq<Rect>,
    st: Transform,
    alpha: u8,
) -> bool {
    &&& post.len() == pre.len()
    &&& forall|px: int, py: int, k: int|
        0 <= px < tw && 0 <= py < th && 0 <= k < 4 ==> post[#[trigger] spec_pix(tw, px, py, k)]
            == spec_blit_byte(
            pre,
            tw,
            th,
            t,
            tex,
            texw,
            texh,
            flipped,
            src,
            dst,
            damage,
            st,
            alpha,
            px,
            py,
            k,
        )
    &&& forall|j: int| tw * th * 4 <= j < pre.len() ==> post[j] == pre[j]
}

/// Blend the source texture over every touched pixel of a `tw` by `th`
/// target.
#[verifier::rlimit(30)]
fn blit_pixels(
    buf: &mut Vec<u8>,
    tw: usize,
    th: usize,
    t: Transform,
    src_data: &Vec<u8>,
    texw: usize,
    texh: usize,
    tex_flipped: bool,
    src: Rect,
    dst: Rect,
    damage: &[Rect],
    st: Transform,
    alpha: u8,
)
    requires
        old(buf)@.len() >= tw * th * 4,
        old(buf)@.len() <= usize::MAX as int,
        tw <= u32::MAX,
        th <= u32::MAX,
        texw <= u32::MAX,
        texh <= u32::MAX,
        1 <= src.w,
        1 <= src.h,
        0 <= src.x,
        0 <= src.y,
        src.x + src.w <= texw,
        src.y + src.h <= texh,
        src_data@.len() >= texw * texh * 4,
        src_data@.len() <= usize::MAX as int,
    ensures
        spec_blitted(
            old(buf)@,
            final(buf)@,
            tw as int,
            th as int,
            t,
            src_data@,
            texw as int,
            texh as int,
            tex_flipped,
            src,
            dst,
            damage@,
            st,
            alpha,
        ),
{
    let inv_t = t.invert();
    let inv_st = st.invert();
    let mut py: usize = 0;
    while py < th
        invariant
            py <= th,
            buf@.len() == old(buf)@.len(),
            old(buf)@.len() >= tw * th * 4,
            old(buf)@.len() <= usize::MAX as int,
            tw <= u32::MAX,
            th <= u32::MAX,
            texw <= u32::MAX,
            texh <= u32::MAX,
            1 <= src.w,
            1 <= src.h,
            0 <= src.x,
            0 <= src.y,
            src.x + src.w <= texw,
            src.y + src.h <= texh,
            src_data@.len() >= texw * texh * 4,
            src_data@.len() <= usize::MAX as int,
            inv_t == t.spec_invert(),
            inv_st == st.spec_invert(),
            forall|px2: int, py2: int, k: int|
                0 <= px2 < tw && 0 <= py2 < py && 0 <= k < 4 ==> buf@[#[trigger] spec_pix(
                    tw as int,
                    px2,
                    py2,
                    k,
                )] == spec_blit_byte(
                    old(buf)@,
                    tw as int,
                    th as int,
                    t,
                    src_data@,
                    texw as int,
                    texh as int,
                    tex_flipped,
                    src,
                    dst,
                    damage@,
                    st,
                    alpha,
                    px2,
                    py2,
                    k,
                ),
            forall|px2: int, py2: int, k: int|
                0 <= px2 < tw && py <= py2 < th && 0 <= k < 4 ==> buf@[#[trigger] spec_pix(
                    tw as int,
                    px2,
                    py2,
                    k,
                )] == old(buf)@[spec_pix(tw as int, px2, py2, k)],
            forall|j: int| tw * th * 4 <= j < buf@.len() ==> buf@[j] == old(buf)@[j],
        decreases th - py,
    {
        let mut px: usize = 0;
        while px < tw
            invariant
                px <= tw,
                py < th,
                buf@.len() == old(buf)@.len(),
                old(buf)@.len() >= tw * th * 4,
                old(buf)@.len() <= usize::MAX as int,
                tw <= u32::MAX,
                th <= u32::MAX,
                texw <= u32::MAX,
                texh <= u32::MAX,
                1 <= src.w,
                1 <= src.h,
                0 <= src.x,
                0 <= src.y,
                src.x + src.w <= texw,
                src.y + src.h <= texh,
                src_data@.len() >= texw * texh * 4,
                src_data@.len() <= usize::MAX as int,
                inv_t == t.spec_invert(),
                inv_st == st.spec_invert(),
                forall|px2: int, py2: int, k: int|
                    0 <= px2 < tw && 0 <= py2 < py && 0 <= k < 4 ==> buf@[#[trigger] spec_pix(
                        tw as int,
                        px2,
                        py2,
                        k,
                    )] == spec_blit_byte(
                        old(buf)@,
                        tw as int,
                        th as int,
                        t,
                        src_data@,
                        texw as int,
                        texh as int,
                        tex_flipped,
                        src,
                        dst,
                        damage@,
                        st,
                        alpha,
                        px2,
                        py2,
                        k,
                    ),
                forall|px2: int, k: int|
                    0 <= px2 < px && 0 <= k < 4 ==> buf@[#[trigger] spec_pix(
                        tw as int,
                        px2,
                        py as int,
                        k,
                    )] == spec_blit_byte(
                        old(buf)@,
                        tw as int,
                        th as int,
                        t,
                        src_data@,
                        texw as int,
                        texh as int,
                        tex_flipped,
                        src,
                        dst,
                        damage@,
                        st,
                        alpha,
                        px2,
                        py as int,
                        k,
                    ),
                forall|px2: int, k: int|
                    px <= px2 < tw && 0 <= k < 4 ==> buf@[#[trigger] spec_pix(
                        tw as int,
                        px2,
                        py as int,
                        k,
                    )] == old(buf)@[spec_pix(tw as int, px2, py as int, k)],
                forall|px2: int, py2: int, k: int|
                    0 <= px2 < tw && py < py2 < th && 0 <= k < 4 ==> buf@[#[trigger] spec_pix(
                        tw as int,
                        px2,
                        py2,
                        k,
                    )] == old(buf)@[spec_pix(tw as int, px2, py2, k)],
                forall|j: int| tw * th * 4 <= j < buf@.len() ==> buf@[j] == old(buf)@[j],
            decreases tw - px,
        {
            let (lx, ly) = map_point(inv_t, tw, th, px, py);
            let in_dst = dst.contains(lx as i64, ly as i64);
            let cond = in_dst && covered_by(damage, lx as i64, ly as i64);
            proof {
                lemma_pix_bound(tw as int, th as int, px as int, py as int, 0);
                assert(0 <= py * tw) by (nonlinear_arith)
                    requires
                        0 <= py,
                        0 <= tw,
                ;
                assert(py * tw <= py * tw + px) by (nonlinear_arith)
                    requires
                        0 <= px,
                        0 <= py * tw,
                ;
            }
            if cond {
                let base: usize = (py * tw + px) * 4;
                let ox64: i64 = lx as i64 - dst.x as i64;
                let oy64: i64 = ly as i64 - dst.y as i64;
                let (lsw, lsh) = transformed_size(st, src.w as usize, src.h as usize);
                proof {
                    assert((ox64 as int) * (lsw as int) < (dst.w as int) * (lsw as int)
                        && 0 <= (ox64 as int) * (lsw as int) && (dst.w as int) * (lsw as int)
                        <= 0x7fff_ffffi64 * 0x1_0000_0000i64) by (nonlinear_arith)
                        requires
                            0 <= ox64 as int,
                            (ox64 as int) < dst.w as int,
                            1 <= lsw as int,
                            lsw as int <= 0x1_0000_0000i64,
                            dst.w as int <= 0x7fff_ffffi64,
                    ;
                    assert((oy64 as int) * (lsh as int) < (dst.h as int) * (lsh as int)
                        && 0 <= (oy64 as int) * (lsh as int) && (dst.h as int) * (lsh as int)
                        <= 0x7fff_ffffi64 * 0x1_0000_0000i64) by (nonlinear_arith)
                        requires
                            0 <= oy64 as int,
                            (oy64 as int) < dst.h as int,
                            1 <= lsh as int,
                            lsh as int <= 0x1_0000_0000i64,
                            dst.h as int <= 0x7fff_ffffi64,
                    ;
                }
                let un: u64 = (ox64 as u64) * (lsw as u64);
                let vn: u64 = (oy64 as u64) * (lsh as u64);
                let uq: u64 = un / (dst.w as u64);
                let vq: u64 = vn / (dst.h as u64);
                proof {
                    vstd::arithmetic::div_mod::lemma_multiply_divide_lt(
                        un as int,
                        dst.w as int,
                        lsw as int,
                    );
                    vstd::arithmetic::div_mod::lemma_multiply_divide_lt(
                        vn as int,
                        dst.h as int,
                        lsh as int,
                    );
                    vstd::arithmetic::div_mod::lemma_div_pos_is_pos(un as int, dst.w as int);
                    vstd::arithmetic::div_mod::lemma_div_pos_is_pos(vn as int, dst.h as int);
                }
                let u_: usize = uq as usize;
                let v_: usize = vq as usize;
                let (bu, bv) = map_point(inv_st, lsw, lsh, u_, v_);
                proof {
                    crate::geometry::lemma_transform_round_trip(
                        st.spec_invert(),
                        lsw as int,
                        lsh as int,
                        u_ as int,
                        v_ as int,
                    );
                }
                let col: usize = src.x as usize + bu;
                let row0: usize = src.y as usize + bv;
                let row: usize = if tex_flipped {
                    texh - 1 - row0
                } else {
                    row0
                };
                proof {
                    lemma_pix_bound(texw as int, texh as int, col as int, row as int, 0);
                    assert(0 <= row * texw) by (nonlinear_arith)
                        requires
                            0 <= row,
                            0 <= texw,
                    ;
                    assert(row * texw <= row * texw + col) by (nonlinear_arith)
                        requires
                            0 <= col,
                            0 <= row * texw,
                    ;
                }
                let sbase: usize = (row * texw + col) * 4;
                let s0 = src_data[sbase];
                let s1 = src_data[sbase + 1];
                let s2 = src_data[sbase + 2];
                let s3 = src_data[sbase + 3];
                let d0 = buf[base];
                let d1 = buf[base + 1];
                let d2 = buf[base + 2];
                let d3 = buf[base + 3];
                let b0 = blend(s0, d0, alpha);
                let b1 = blend(s1, d1, alpha);
                let b2 = blend(s2, d2, alpha);
                let b3 = blend(s3, d3, alpha);
                let ghost pre_buf = buf@;
                put_pixel(buf, tw, px, py, b0, b1, b2, b3);
                proof {
                    restore_fill_invariants(
                        pre_buf,
                        buf@,
                        old(buf)@,
                        tw as int,
                        th as int,
                        px as int,
                        py as int,
                    );
                    assert(s0 == spec_sample(
                        src_data@,
                        texw as int,
                        texh as int,
                        tex_flipped,
                        src,
                        st,
                        dst,
                        lx as int,
                        ly as int,
                        0,
                    ));
                    assert(s1 == spec_sample(
                        src_data@,
                        texw as int,
                        texh as int,
                        tex_flipped,
                        src,
                        st,
                        dst,
                        lx as int,
                        ly as int,
                        1,
                    ));
                    assert(s2 == spec_sample(
                        src_data@,
                        texw as int,
                        texh as int,
                        tex_flipped,
                        src,
                        st,
                        dst,
                        lx as int,
                        ly as int,
                        2,
                    ));
                    assert(s3 == spec_sample(
                        src_data@,
                        texw as int,
                        texh as int,
                        tex_flipped,
                        src,
                        st,
                        dst,
                        lx as int,
                        ly as int,
                        3,
                    ));
                }
            }
            px = px + 1;
        }
        py = py + 1;
    }
}

/// The source rectangle lies inside the texture's materialized pixel
/// grid and is not empty.
pub open spec fn spec_src_ok(e: crate::renderer::TextureEntry, src: Rect) -> bool {
    &&& 1 <= src.w
    &&& 1 <= src.h
    &&& 0 <= src.x
    &&& 0 <= src.y
    &&& src.x + src.w <= e.width
    &&& src.y + src.h <= e.height
    &&& e.data@.len() != 0
}

impl TestFrame {
    /// Draw `src` of `texture` into `dst` of the bound target, sampling
    /// nearest with `src_transform` applied to the source and blending
    /// with straight `alpha` (255 is opaque). Only pixels of the damage
    /// union are touched. Sampling the active target itself is not
    /// supported by this backend.
    pub fn render_texture_from_to(
        &mut self,
        r: &mut TestRenderer,
        texture: &TestTexture,
        src: Rect,
        dst: Rect,
        damage: &[Rect],
        src_transform: Transform,
        alpha: u8,
    ) -> (res: Result<(), TestRendererError>)
        requires
            old(r).wf(),
            texture.wf(*old(r)),
        ensures
            final(r).wf(),
            *final(self) == *old(self),
            texture.wf(*final(r)),
            match old(r).bound {
                Some(BindTarget::Texture(id)) => {
                    let e = old(r).textures@[texture.id as int];
                    if texture.id == id {
                        res == Err::<(), TestRendererError>(TestRendererError::UnsupportedOperation)
                            && *final(r) == *old(r)
                    } else {
                        match e.format {
                            None => res == Err::<(), TestRendererError>(
                                TestRendererError::UnsupportedPixelLayout,
                            ) && *final(r) == *old(r),
                            Some(f) => {
                                if f != Fourcc::Abgr8888 {
                                    res == Err::<(), TestRendererError>(
                                        TestRendererError::UnsupportedPixelFormat(f),
                                    ) && *final(r) == *old(r)
                                } else if !spec_src_ok(e, src) {
                                    res == Err::<(), TestRendererError>(
                                        TestRendererError::OutOfBounds,
                                    ) && *final(r) == *old(r)
                                } else {
                                    &&& res is Ok
                                    &&& spec_target_updated(*old(r), *final(r), id as int)
                                    &&& spec_blitted(
                                        old(r).textures@[id as int].data@,
                                        final(r).textures@[id as int].data@,
                                        old(r).textures@[id as int].width as int,
                                        old(r).textures@[id as int].height as int,
                                        old(self).transform,
                                        e.data@,
                                        e.width as int,
                                        e.height as int,
                                        e.flipped,
                                        src,
                                        dst,
                                        damage@,
                                        src_transform,
                                        alpha,
                                    )
                                }
                            },
                        }
                    }
                },
                _ => res == Err::<(), TestRendererError>(TestRendererError::NothingBound)
                    && *final(r) == *old(r),
            },
    {
        let id = match r.bound {
            Some(BindTarget::Texture(id)) => id,
            _ => {
                return Err(TestRendererError::NothingBound);
            },
        };
        if texture.id == id {
            return Err(TestRendererError::UnsupportedOperation);
        }
        let f = match r.textures[texture.id].format {
            Some(f) => f,
            None => {
                return Err(TestRendererError::UnsupportedPixelLayout);
            },
        };
        let f_ok = match f {
            Fourcc::Abgr8888 => true,
            _ => false,
        };
        if !f_ok {
            return Err(TestRendererError::UnsupportedPixelFormat(f));
        }
        let texw = r.textures[texture.id].width;
        let texh = r.textures[texture.id].height;
        let stored = r.textures[texture.id].data.len();
        if !(src.w >= 1 && src.h >= 1 && src.x >= 0 && src.y >= 0 && (src.x as i64 + src.w as i64
            <= texw as i64) && (src.y as i64 + src.h as i64 <= texh as i64) && stored != 0) {
            return Err(TestRendererError::OutOfBounds);
        }
        proof {
            assert(old(r).textures@[texture.id as int].wf());
        }
        let tw = r.textures[id].width as usize;
        let th = r.textures[id].height as usize;
        let tex_flipped = r.textures[texture.id].flipped;
        let mut buf: Vec<u8> = Vec::new();
        swap_entry_data(&mut r.textures, id, &mut buf);
        proof {
            vstd::std_specs::vec::axiom_spec_len(&buf);
            vstd::std_specs::vec::axiom_spec_len(&r.textures@[texture.id as int].data);
        }
        blit_pixels(
            &mut buf,
            tw,
            th,
            self.transform,
            &r.textures[texture.id].data,
            texw as usize,
            texh as usize,
            tex_flipped,
            src,
            dst,
            damage,
            src_transform,
            alpha,
        );
        swap_entry_data(&mut r.textures, id, &mut buf);
        proof {
            crate::import::lemma_store_update_wf(*old(r), *r, id as int);
        }
        Ok(())
    }
}

/// The stores of `pre` and `post` differ at most in entry `id`'s bytes;
/// the entry's geometry, the other entries and the session state are the
/// same, and the byte length is kept.
pub open spec fn spec_target_updated(pre: TestRenderer, post: TestRenderer, id: int) -> bool {
    &&& post.textures@.len() == pre.textures@.len()
    &&& (forall|i: int|
        0 <= i < pre.textures@.len() && i != id ==> post.textures@[i] == #[trigger] pre.textures@[i])
    &&& post.textures@[id].width == pre.textures@[id].width
    &&& post.textures@[id].height == pre.textures@[id].height
    &&& post.textures@[id].format == pre.textures@[id].format
    &&& post.textures@[id].flipped == pre.textures@[id].flipped
    &&& post.textures@[id].data@.len() == pre.textures@[id].data@.len()
    &&& pre.same_session(post)
}

} // verus!
