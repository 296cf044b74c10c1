//! The import pathways: raw memory, client shared memory, and externally
//! shared buffers.
//!
//! Each pathway is independently optional for a backend; this backend
//! implements the two CPU-visible ones and reports the third as an
//! unimplemented capability. All offset and stride arithmetic on client
//! buffers is bounds-checked before any read: a truncated or malicious
//! buffer yields an access error, never a read past the end.

use vstd::prelude::*;

verus! {

use crate::error::TestRendererError;
use crate::format::{
    Fourcc,
    bytes_per_pixel,
    fourcc_to_pixman_format,
    spec_bytes_per_pixel,
    spec_to_native,
};
use crate::geometry::{Rect, Size};
use crate::renderer::{TestRenderer, TestTexture, swap_entry_data};

/// The supplied buffer is long enough for a `size` grid of `format`
/// pixels, and the extent is not negative.
pub open spec fn spec_mem_size_ok(len: int, format: Fourcc, size: Size) -> bool {
    &&& 0 <= size.w
    &&& 0 <= size.h
    &&& len >= size.w * size.h * spec_bytes_per_pixel(format)
}

/// The region lies inside a `texw` by `texh` pixel grid.
pub open spec fn spec_region_in(texw: int, texh: int, region: Rect) -> bool {
    &&& 0 <= region.x
    &&& 0 <= region.y
    &&& 0 <= region.w
    &&& 0 <= region.h
    &&& region.x + region.w <= texw
    &&& region.y + region.h <= texh
}

/// Byte `j` lies inside the window that writing a `rw` by `rh` region at
/// `(rx, ry)` of a `width`-pixel-wide, `bpp`-bytes-per-pixel grid touches.
pub open spec fn spec_window_byte(width: int, bpp: int, rx: int, ry: int, row: int, cb: int) -> int {
    ((ry + row) * width + rx) * bpp + cb
}

/// Byte `cb` of row `row` of a packed `rw`-pixel-wide block.
pub open spec fn spec_block_byte(rw: int, bpp: int, row: int, cb: int) -> int {
    row * (rw * bpp) + cb
}

pub open spec fn spec_in_window(
    width: int,
    bpp: int,
    rx: int,
    ry: int,
    rw: int,
    rh: int,
    j: int,
) -> bool {
    exists|row: int, cb: int|
        0 <= row < rh && 0 <= cb < rw * bpp && j == #[trigger] spec_window_byte(
            width,
            bpp,
            rx,
            ry,
            row,
            cb,
        )
}

/// Bytes of distinct rows of a region window never alias: the earlier
/// row's bytes all precede the later row's.
proof fn lemma_window_rows_ordered(
    width: int,
    bpp: int,
    rx: int,
    ry: int,
    rw: int,
    row1: int,
    cb1: int,
    row2: int,
    cb2: int,
)
    requires
        0 <= rx,
        rx + rw <= width,
        1 <= bpp,
        0 <= rw,
        0 <= cb1 < rw * bpp,
        0 <= cb2 < rw * bpp,
        0 <= ry,
        0 <= row1 < row2,
    ensures
        spec_window_byte(width, bpp, rx, ry, row1, cb1) < spec_window_byte(
            width,
            bpp,
            rx,
            ry,
            row2,
            cb2,
        ),
{
    let a = (ry + row1) * width + rx;
    let b = (ry + row2) * width + rx;
    assert(a + rw <= b) by (nonlinear_arith)
        requires
            0 <= rx,
            0 <= rw,
            rx + rw <= width,
            0 <= ry,
            0 <= row1 < row2,
            a == (ry + row1) * width + rx,
            b == (ry + row2) * width + rx,
    ;
    assert(a * bpp + rw * bpp <= b * bpp) by (nonlinear_arith)
        requires
            a + rw <= b,
            1 <= bpp,
    ;
}

/// Every byte of a region window lies inside the target's pixel grid.
proof fn lemma_window_byte_bound(
    width: int,
    bpp: int,
    rx: int,
    ry: int,
    rw: int,
    grid_h: int,
    row: int,
    cb: int,
)
    requires
        0 <= rx,
        0 <= rw,
        rx + rw <= width,
        1 <= bpp,
        0 <= cb < rw * bpp,
        0 <= ry,
        0 <= row,
        ry + row < grid_h,
    ensures
        0 <= spec_window_byte(width, bpp, rx, ry, row, cb) < width * grid_h * bpp,
{
    let a = (ry + row) * width + rx;
    assert(0 <= a && a + rw <= width * grid_h) by (nonlinear_arith)
        requires
            0 <= rx,
            0 <= rw,
            rx + rw <= width,
            0 <= ry,
            0 <= row,
            ry + row < grid_h,
            a == (ry + row) * width + rx,
    ;
    assert(a * bpp + cb < (width * grid_h) * bpp) by (nonlinear_arith)
        requires
            0 <= a,
            a + rw <= width * grid_h,
            1 <= bpp,
            0 <= cb < rw * bpp,
            0 <= rw,
    ;
    assert(0 <= a * bpp + cb) by (nonlinear_arith)
        requires
            0 <= a,
            1 <= bpp,
            0 <= cb,
    ;
}

/// A byte inside the window of `rh1` rows is inside the window of any
/// `rh2 >= rh1` rows.
proof fn lemma_window_mono(width: int, bpp: int, rx: int, ry: int, rw: int, rh1: int, rh2: int, j: int)
    requires
        spec_in_window(width, bpp, rx, ry, rw, rh1, j),
        rh1 <= rh2,
    ensures
        spec_in_window(width, bpp, rx, ry, rw, rh2, j),
{
    let (row, cb) = choose|row: int, cb: int|
        0 <= row < rh1 && 0 <= cb < rw * bpp && j == #[trigger] spec_window_byte(
            width,
            bpp,
            rx,
            ry,
            row,
            cb,
        );
    assert(0 <= row < rh2 && 0 <= cb < rw * bpp && j == spec_window_byte(width, bpp, rx, ry, row, cb));
}

/// The bitwise-or of `n` bytes of a row starting at `base`.
pub open spec fn spec_row_or(data: Seq<u8>, base: int, n: int) -> u8
    decreases n,
{
    if n <= 0 {
        0u8
    } else {
        spec_row_or(data, base, n - 1) | data[base + n - 1]
    }
}

/// The bitwise-or of one byte per pixel over `rows` rows of a client
/// buffer laid out with the given offset and stride.
pub open spec fn spec_grid_or(data: Seq<u8>, offset: int, stride: int, w: int, rows: int) -> u8
    decreases rows,
{
    if rows <= 0 {
        0u8
    } else {
        spec_grid_or(data, offset, stride, w, rows - 1) | spec_row_or(
            data,
            offset + (rows - 1) * stride,
            w,
        )
    }
}

impl TestRenderer {
    /// Import a raw memory buffer as a new texture. The format must be
    /// in the registry, and the buffer must cover the full pixel grid; a
    /// buffer even one byte short is rejected before anything is read,
    /// and no texture is created on any error.
    pub fn import_memory(
        &mut self,
        data: &[u8],
        format: Fourcc,
        size: Size,
        flipped: bool,
    ) -> (r: Result<TestTexture, TestRendererError>)
        requires
            old(self).wf(),
        ensures
            final(self).wf(),
            spec_to_native(format) is None ==> r == Err::<TestTexture, TestRendererError>(
                TestRendererError::UnsupportedPixelFormat(format),
            ) && *final(self) == *old(self),
            spec_to_native(format) is Some && !spec_mem_size_ok(data@.len() as int, format, size)
                ==> r == Err::<TestTexture, TestRendererError>(TestRendererError::UnexpectedSize)
                && *final(self) == *old(self),
            spec_to_native(format) is Some && spec_mem_size_ok(data@.len() as int, format, size)
                ==> (r matches Ok(t) && {
                &&& old(self).appended(*final(self))
                &&& t.wf(*final(self))
                &&& t.id == old(self).textures@.len()
                &&& t.width == size.w as u32
                &&& t.height == size.h as u32
                &&& t.format == Some(format)
                &&& final(self).textures@[t.id as int].data@ == data@
                &&& final(self).textures@[t.id as int].flipped == flipped
            }),
    {
        if fourcc_to_pixman_format(format).is_none() {
            return Err(TestRendererError::UnsupportedPixelFormat(format));
        }
        if size.w < 0 || size.h < 0 {
            return Err(TestRendererError::UnexpectedSize);
        }
        proof {
            vstd::slice::axiom_spec_len(data);
        }
        let w = size.w as usize;
        let h = size.h as usize;
        let bpp = bytes_per_pixel(format);
        let needed = match w.checked_mul(h) {
            Some(p) => match p.checked_mul(bpp) {
                Some(n) => n,
                None => {
                    proof {
                        assert(data@.len() < size.w * size.h * spec_bytes_per_pixel(format))
                            by (nonlinear_arith)
                            requires
                                size.w * size.h >= 0,
                                size.w * size.h * spec_bytes_per_pixel(format) > usize::MAX as int,
                                data@.len() <= usize::MAX as int,
                                size.w as int == w as int,
                                size.h as int == h as int,
                        ;
                    }
                    return Err(TestRendererError::UnexpectedSize);
                },
            },
            None => {
                proof {
                    assert(data@.len() < size.w * size.h * spec_bytes_per_pixel(format))
                        by (nonlinear_arith)
                        requires
                            size.w * size.h > usize::MAX as int,
                            1 <= spec_bytes_per_pixel(format),
                            data@.len() <= usize::MAX as int,
                    ;
                }
                return Err(TestRendererError::UnexpectedSize);
            },
        };
        if data.len() < needed {
            return Err(TestRendererError::UnexpectedSize);
        }
        let buffer = vstd::slice::slice_to_vec(data);
        let t = TestTexture::from(
            self,
            size.w as u32,
            size.h as u32,
            Some(format),
            flipped,
            buffer,
        );
        Ok(t)
    }

    /// The formats accepted by [`TestRenderer::import_memory`]: exactly
    /// the registry's supported subset.
    pub fn mem_formats(&self) -> (r: Vec<Fourcc>)
        ensures
            r@ == spec_mem_format_list(),
    {
        let mut v: Vec<Fourcc> = Vec::new();
        v.push(Fourcc::Argb8888);
        v.push(Fourcc::Xrgb8888);
        v.push(Fourcc::C8);
        v.push(Fourcc::Rgb332);
        v.push(Fourcc::Bgr233);
        v.push(Fourcc::Xrgb4444);
        v.push(Fourcc::Xbgr4444);
        v.push(Fourcc::Argb4444);
        v.push(Fourcc::Abgr4444);
        v.push(Fourcc::Xrgb1555);
        v.push(Fourcc::Xbgr1555);
        v.push(Fourcc::Argb1555);
        v.push(Fourcc::Abgr1555);
        v.push(Fourcc::Rgb565);
        v.push(Fourcc::Bgr565);
        v.push(Fourcc::Rgb888);
        v.push(Fourcc::Bgr888);
        v.push(Fourcc::Xbgr8888);
        v.push(Fourcc::Rgbx8888);
        v.push(Fourcc::Bgrx8888);
        v.push(Fourcc::Abgr8888);
        v.push(Fourcc::Rgba8888);
        v.push(Fourcc::Xrgb2101010);
        v.push(Fourcc::Xbgr2101010);
        v.push(Fourcc::Argb2101010);
        v.push(Fourcc::Abgr2101010);
        proof {
            assert(v@ =~= spec_mem_format_list());
        }
        v
    }

    /// Import a client shared-memory buffer as a new texture. The
    /// buffer's advertised geometry (offset, width, height, stride, one
    /// sampled byte per pixel) is checked against its actual length
    /// before any read; a geometry that reaches outside the buffer is an
    /// access error. On success the returned byte is the bitwise-or of
    /// the sampled bytes, a probe the protocol layer stores as
    /// per-surface scratch state.
    pub fn import_shm_buffer(
        &mut self,
        contents: &[u8],
        offset: u32,
        width: u32,
        height: u32,
        stride: u32,
    ) -> (r: Result<(TestTexture, u8), TestRendererError>)
        requires
            old(self).wf(),
        ensures
            final(self).wf(),
            (width > 0 && height > 0 && offset + (width - 1) + (height - 1) * stride
                >= contents@.len()) ==> r == Err::<(TestTexture, u8), TestRendererError>(
                TestRendererError::BufferAccessError,
            ) && *final(self) == *old(self),
            !(width > 0 && height > 0 && offset + (width - 1) + (height - 1) * stride
                >= contents@.len()) ==> (r matches Ok(p) && {
                &&& p.1 == spec_grid_or(
                    contents@,
                    offset as int,
                    stride as int,
                    width as int,
                    height as int,
                )
                &&& old(self).appended(*final(self))
                &&& p.0.wf(*final(self))
                &&& p.0.id == old(self).textures@.len()
                &&& p.0.width == width
                &&& p.0.height == height
                &&& p.0.format is None
                &&& final(self).textures@[p.0.id as int].data@ == contents@
                &&& final(self).textures@[p.0.id as int].flipped == false
            }),
    {
        let len = contents.len();
        proof {
            vstd::slice::axiom_spec_len(contents);
            assert((height as int - 1) * (stride as int) <= 0xffff_fffeu64 * 0xffff_ffffu64)
                by (nonlinear_arith)
                requires
                    height as int - 1 <= 0xffff_fffeu64,
                    0 <= stride as int <= 0xffff_ffffu64,
            ;
        }
        let mut probe: u8 = 0;
        if width > 0 && height > 0 {
            let max_idx: u64 = offset as u64 + (width as u64 - 1) + (height as u64 - 1)
                * (stride as u64);
            if max_idx >= len as u64 {
                return Err(TestRendererError::BufferAccessError);
            }
        }
        if height > 0 {
            let mut y: usize = 0;
            while y < height as usize
                invariant
                    y <= height as usize,
                    height > 0,
                    probe == spec_grid_or(
                        contents@,
                        offset as int,
                        stride as int,
                        width as int,
                        y as int,
                    ),
                    width > 0 ==> offset + (width - 1) + (height - 1) * stride < contents@.len(),
                    contents@.len() <= usize::MAX as int,
                    (height as int - 1) * (stride as int) <= 0xffff_fffeu64 * 0xffff_ffffu64,
                decreases height as usize - y,
            {
                proof {
                    assert((y as int) * (stride as int) <= (height as int - 1) * (stride as int))
                        by (nonlinear_arith)
                        requires
                            0 <= y as int <= height as int - 1,
                            0 <= stride as int,
                    ;
                }
                let row_base: u64 = offset as u64 + (y as u64) * (stride as u64);
                let mut x: usize = 0;
                let mut rowacc: u8 = 0;
                while x < width as usize
                    invariant
                        x <= width as usize,
                        rowacc == spec_row_or(contents@, offset + (y as int) * stride, x as int),
                        y < height as usize,
                        height > 0,
                        row_base == offset + (y as int) * stride,
                        width > 0 ==> offset + (width - 1) + (height - 1) * stride
                            < contents@.len(),
                        contents@.len() <= usize::MAX as int,
                        (y as int) * (stride as int) <= (height as int - 1) * (stride as int),
                    decreases width as usize - x,
                {
                    let idx: u64 = row_base + x as u64;
                    proof {
                        assert(idx < contents@.len());
                    }
                    let b = contents[idx as usize];
                    rowacc = rowacc | b;
                    x = x + 1;
                }
                probe = probe | rowacc;
                y = y + 1;
            }
        }
        let buffer = vstd::slice::slice_to_vec(contents);
        let t = TestTexture::from(self, width, height, None, false, buffer);
        Ok((t, probe))
    }

    /// Direct import of an externally shared buffer is not implemented
    /// by this backend; the distinct error lets the caller fall back to
    /// a memory-path copy instead of retrying.
    pub fn import_dmabuf(
        &mut self,
        _dmabuf: &crate::renderer::Dmabuf,
        _damage: Option<&[Rect]>,
    ) -> (r: Result<TestTexture, TestRendererError>)
        ensures
            *final(self) == *old(self),
            r == Err::<TestTexture, TestRendererError>(TestRendererError::UnsupportedOperation),
    {
        Err(TestRendererError::UnsupportedOperation)
    }

    /// Write a packed `region.w` by `region.h` block of pixels into the
    /// given region of the texture's storage. The region must lie inside
    /// the texture, the texture's storage must be materialized if any
    /// pixel is written, and `data` must cover the block.
    pub fn update_memory(
        &mut self,
        texture: &TestTexture,
        data: &[u8],
        region: Rect,
    ) -> (res: Result<(), TestRendererError>)
        requires
            old(self).wf(),
            texture.wf(*old(self)),
        ensures
            final(self).wf(),
            texture.wf(*final(self)),
            ({
                let e = old(self).textures@[texture.id as int];
                match e.format {
                    None => res == Err::<(), TestRendererError>(
                        TestRendererError::UnsupportedPixelLayout,
                    ) && *final(self) == *old(self),
                    Some(f) => {
                        let bpp = spec_bytes_per_pixel(f);
                        if !spec_region_in(e.width as int, e.height as int, region) {
                            res == Err::<(), TestRendererError>(TestRendererError::OutOfBounds)
                                && *final(self) == *old(self)
                        } else if region.w * region.h > 0 && e.data@.len() == 0 {
                            res == Err::<(), TestRendererError>(TestRendererError::UnexpectedSize)
                                && *final(self) == *old(self)
                        } else if data@.len() < region.w * region.h * bpp {
                            res == Err::<(), TestRendererError>(TestRendererError::UnexpectedSize)
                                && *final(self) == *old(self)
                        } else {
                            let e1 = final(self).textures@[texture.id as int];
                            &&& res is Ok
                            &&& final(self).textures@.len() == old(self).textures@.len()
                            &&& (forall|i: int|
                                0 <= i < old(self).textures@.len() && i != texture.id
                                    ==> final(self).textures@[i] == #[trigger] old(
                                    self,
                                ).textures@[i])
                            &&& old(self).same_session(*final(self))
                            &&& e1.width == e.width
                            &&& e1.height == e.height
                            &&& e1.format == e.format
                            &&& e1.flipped == e.flipped
                            &&& e1.data@.len() == e.data@.len()
                            &&& (forall|row: int, cb: int|
                                0 <= row < region.h && 0 <= cb < region.w * bpp
                                    ==> e1.data@[#[trigger] spec_window_byte(
                                    e.width as int,
                                    bpp,
                                    region.x as int,
                                    region.y as int,
                                    row,
                                    cb,
                                )] == data@[spec_block_byte(region.w as int, bpp, row, cb)])
                            &&& (forall|j: int|
                                0 <= j < e.data@.len() && !spec_in_window(
                                    e.width as int,
                                    bpp,
                                    region.x as int,
                                    region.y as int,
                                    region.w as int,
                                    region.h as int,
                                    j,
                                ) ==> e1.data@[j] == e.data@[j])
                        }
                    },
                }
            }),
    {
        let fmt = match self.textures[texture.id].format {
            Some(f) => f,
            None => {
                return Err(TestRendererError::UnsupportedPixelLayout);
            },
        };
        let bpp = bytes_per_pixel(fmt);
        let texw = self.textures[texture.id].width;
        let texh = self.textures[texture.id].height;
        if !(region.x >= 0 && region.y >= 0 && region.w >= 0 && region.h >= 0 && (region.x as i64
            + region.w as i64 <= texw as i64) && (region.y as i64 + region.h as i64
            <= texh as i64)) {
            return Err(TestRendererError::OutOfBounds);
        }
        proof {
            vstd::slice::axiom_spec_len(data);
            assert((region.w * region.h > 0) <==> (region.w > 0 && region.h > 0))
                by (nonlinear_arith)
                requires
                    region.w >= 0,
                    region.h >= 0,
            ;
        }
        let stored = self.textures[texture.id].data.len();
        if region.w > 0 && region.h > 0 && stored == 0 {
            return Err(TestRendererError::UnexpectedSize);
        }
        let rw = region.w as usize;
        let rh = region.h as usize;
        let needed = match rw.checked_mul(rh) {
            Some(p) => match p.checked_mul(bpp) {
                Some(n) => n,
                None => {
                    proof {
                        assert(data@.len() < region.w * region.h * spec_bytes_per_pixel(fmt))
                            by (nonlinear_arith)
                            requires
                                region.w * region.h >= 0,
                                region.w * region.h * spec_bytes_per_pixel(fmt)
                                    > usize::MAX as int,
                                data@.len() <= usize::MAX as int,
                                region.w as int == rw as int,
                                region.h as int == rh as int,
                        ;
                    }
                    return Err(TestRendererError::UnexpectedSize);
                },
            },
            None => {
                proof {
                    assert(data@.len() < region.w * region.h * spec_bytes_per_pixel(fmt))
                        by (nonlinear_arith)
                        requires
                            region.w * region.h > usize::MAX as int,
                            1 <= spec_bytes_per_pixel(fmt),
                            data@.len() <= usize::MAX as int,
                            region.w as int == rw as int,
                            region.h as int == rh as int,
                    ;
                }
                return Err(TestRendererError::UnexpectedSize);
            },
        };
        if data.len() < needed {
            return Err(TestRendererError::UnexpectedSize);
        }
        if rw == 0 || rh == 0 {
            return Ok(());
        }
        // The grid invariant of a materialized entry bounds every write.
        proof {
            let e = old(self).textures@[texture.id as int];
            assert(e.wf());
            assert(e.data@.len() >= e.width * e.height * spec_bytes_per_pixel(fmt));
        }
        let mut buf: Vec<u8> = Vec::new();
        swap_entry_data(&mut self.textures, texture.id, &mut buf);
        proof {
            assert(rw * bpp <= rw * rh * bpp) by (nonlinear_arith)
                requires
                    rh >= 1,
                    rw >= 0,
                    bpp >= 0,
            ;
        }
        let rwb = rw * bpp;
        let mut row: usize = 0;
        while row < rh
            invariant
                row <= rh,
                buf@.len() == old(self).textures@[texture.id as int].data@.len(),
                rwb == rw * bpp,
                rw == region.w as int,
                rh == region.h as int,
                1 <= bpp == spec_bytes_per_pixel(fmt) <= 4,
                0 <= region.x,
                0 <= region.y,
                region.x + region.w <= texw,
                region.y + region.h <= texh,
                texw == old(self).textures@[texture.id as int].width,
                texh == old(self).textures@[texture.id as int].height,
                buf@.len() >= texw * texh * bpp,
                data@.len() >= rw * rh * bpp,
                buf@.len() <= usize::MAX as int,
                data@.len() <= usize::MAX as int,
                rw >= 1,
                rh >= 1,
                forall|r2: int, cb2: int|
                    0 <= r2 < row && 0 <= cb2 < rw * bpp ==> buf@[#[trigger] spec_window_byte(
                        texw as int,
                        bpp as int,
                        region.x as int,
                        region.y as int,
                        r2,
                        cb2,
                    )] == data@[spec_block_byte(rw as int, bpp as int, r2, cb2)],
                forall|j: int|
                    0 <= j < buf@.len() && !spec_in_window(
                        texw as int,
                        bpp as int,
                        region.x as int,
                        region.y as int,
                        rw as int,
                        row as int,
                        j,
                    ) ==> buf@[j] == old(self).textures@[texture.id as int].data@[j],
            decreases rh - row,
        {
            let trow: usize = region.y as usize + row;
            proof {
                assert((trow * texw + region.x) * bpp + rw * bpp <= texw * texh * bpp)
                    by (nonlinear_arith)
                    requires
                        0 <= region.x,
                        region.x + rw <= texw as int,
                        trow == region.y + row,
                        0 <= region.y,
                        trow < texh as int,
                        1 <= bpp,
                        0 <= rw,
                        0 <= texw,
                ;
                assert(row * (rw * bpp) + rw * bpp <= rh * (rw * bpp)) by (nonlinear_arith)
                    requires
                        0 <= row < rh as int,
                        0 <= rw * bpp,
                ;
                assert(rh * (rw * bpp) == rw * rh * bpp) by (nonlinear_arith);
            }
            let tbase: usize = (trow * texw as usize + region.x as usize) * bpp;
            let sbase: usize = row * rwb;
            let mut cb: usize = 0;
            while cb < rwb
                invariant
                    cb <= rwb,
                    buf@.len() == old(self).textures@[texture.id as int].data@.len(),
                    rwb == rw * bpp,
                    rw == region.w as int,
                    rh == region.h as int,
                    1 <= bpp == spec_bytes_per_pixel(fmt) <= 4,
                    0 <= region.x,
                    0 <= region.y,
                    region.x + region.w <= texw,
                    region.y + region.h <= texh,
                    texw == old(self).textures@[texture.id as int].width,
                    texh == old(self).textures@[texture.id as int].height,
                    buf@.len() >= texw * texh * bpp,
                    data@.len() >= rw * rh * bpp,
                    buf@.len() <= usize::MAX as int,
                    data@.len() <= usize::MAX as int,
                    rw >= 1,
                    rh >= 1,
                    row < rh,
                    trow == region.y + row,
                    tbase == ((region.y + row) * texw + region.x) * bpp,
                    sbase == row * (rw * bpp),
                    tbase + rw * bpp <= texw * texh * bpp,
                    sbase + rw * bpp <= rw * rh * bpp,
                    forall|r2: int, cb2: int|
                        0 <= r2 < row && 0 <= cb2 < rw * bpp ==> buf@[#[trigger] spec_window_byte(
                            texw as int,
                            bpp as int,
                            region.x as int,
                            region.y as int,
                            r2,
                            cb2,
                        )] == data@[spec_block_byte(rw as int, bpp as int, r2, cb2)],
                    forall|cb2: int|
                        0 <= cb2 < cb ==> buf@[#[trigger] spec_window_byte(
                            texw as int,
                            bpp as int,
                            region.x as int,
                            region.y as int,
                            row as int,
                            cb2,
                        )] == data@[spec_block_byte(rw as int, bpp as int, row as int, cb2)],
                    forall|j: int|
                        0 <= j < buf@.len() && !spec_in_window(
                            texw as int,
                            bpp as int,
                            region.x as int,
                            region.y as int,
                            rw as int,
                            row as int,
                            j,
                        ) && !(tbase <= j < tbase + cb) ==> buf@[j] == old(
                            self,
                        ).textures@[texture.id as int].data@[j],
                decreases rwb - cb,
            {
                let b = data[sbase + cb];
                let ghost pre_buf = buf@;
                buf.set(tbase + cb, b);
                proof {
                    assert(buf@ == pre_buf.update((tbase + cb) as int, b));
                    assert forall|r2: int, cb2: int|
                        0 <= r2 < row && 0 <= cb2 < rw * bpp implies spec_window_byte(
                        texw as int,
                        bpp as int,
                        region.x as int,
                        region.y as int,
                        r2,
                        cb2,
                    ) != tbase + cb by {
                        lemma_window_rows_ordered(
                            texw as int,
                            bpp as int,
                            region.x as int,
                            region.y as int,
                            rw as int,
                            r2,
                            cb2,
                            row as int,
                            cb as int,
                        );
                        assert(tbase + cb == spec_window_byte(
                            texw as int,
                            bpp as int,
                            region.x as int,
                            region.y as int,
                            row as int,
                            cb as int,
                        ));
                    }
                    assert forall|r2: int, cb2: int|
                        0 <= r2 < row && 0 <= cb2 < rw * bpp implies buf@[#[trigger] spec_window_byte(
                        texw as int,
                        bpp as int,
                        region.x as int,
                        region.y as int,
                        r2,
                        cb2,
                    )] == data@[spec_block_byte(rw as int, bpp as int, r2, cb2)] by {
                        let wbv = spec_window_byte(
                            texw as int,
                            bpp as int,
                            region.x as int,
                            region.y as int,
                            r2,
                            cb2,
                        );
                        assert(wbv != tbase + cb);
                        lemma_window_byte_bound(
                            texw as int,
                            bpp as int,
                            region.x as int,
                            region.y as int,
                            rw as int,
                            texh as int,
                            r2,
                            cb2,
                        );
                        assert(buf@[wbv] == pre_buf[wbv]);
                        assert(pre_buf[wbv] == data@[spec_block_byte(rw as int, bpp as int, r2, cb2)]);
                    }
                }
                cb = cb + 1;
            }
            proof {
                let old_data = old(self).textures@[texture.id as int].data@;
                assert forall|j: int|
                    0 <= j < buf@.len() && !spec_in_window(
                        texw as int,
                        bpp as int,
                        region.x as int,
                        region.y as int,
                        rw as int,
                        row as int + 1,
                        j,
                    ) implies buf@[j] == old_data[j] by {
                    assert(!(tbase <= j < tbase + rwb)) by {
                        if tbase <= j < tbase + rwb {
                            assert(spec_in_window(
                                texw as int,
                                bpp as int,
                                region.x as int,
                                region.y as int,
                                rw as int,
                                row as int + 1,
                                j,
                            )) by {
                                let cbw = j - tbase;
                                assert(0 <= cbw < rw * bpp);
                                assert(j == spec_window_byte(
                                    texw as int,
                                    bpp as int,
                                    region.x as int,
                                    region.y as int,
                                    row as int,
                                    cbw,
                                ));
                            }
                        }
                    }
                    assert(!spec_in_window(
                        texw as int,
                        bpp as int,
                        region.x as int,
                        region.y as int,
                        rw as int,
                        row as int,
                        j,
                    )) by {
                        if spec_in_window(
                            texw as int,
                            bpp as int,
                            region.x as int,
                            region.y as int,
                            rw as int,
                            row as int,
                            j,
                        ) {
                            lemma_window_mono(
                                texw as int,
                                bpp as int,
                                region.x as int,
                                region.y as int,
                                rw as int,
                                row as int,
                                row as int + 1,
                                j,
                            );
                        }
                    }
                }
            }
            row = row + 1;
        }
        let mut back = buf;
        swap_entry_data(&mut self.textures, texture.id, &mut back);
        proof {
            lemma_store_update_wf(*old(self), *self, texture.id as int);
        }
        Ok(())
    }
}

/// The formats the memory-import pathway advertises, in registry order.
pub open spec fn spec_mem_format_list() -> Seq<Fourcc> {
    seq![
        Fourcc::Argb8888,
        Fourcc::Xrgb8888,
        Fourcc::C8,
        Fourcc::Rgb332,
        Fourcc::Bgr233,
        Fourcc::Xrgb4444,
        Fourcc::Xbgr4444,
        Fourcc::Argb4444,
        Fourcc::Abgr4444,
        Fourcc::Xrgb1555,
        Fourcc::Xbgr1555,
        Fourcc::Argb1555,
        Fourcc::Abgr1555,
        Fourcc::Rgb565,
        Fourcc::Bgr565,
        Fourcc::Rgb888,
        Fourcc::Bgr888,
        Fourcc::Xbgr8888,
        Fourcc::Rgbx8888,
        Fourcc::Bgrx8888,
        Fourcc::Abgr8888,
        Fourcc::Rgba8888,
        Fourcc::Xrgb2101010,
        Fourcc::Xbgr2101010,
        Fourcc::Argb2101010,
        Fourcc::Abgr2101010,
    ]
}

/// The advertised memory-import formats are exactly the formats the
/// registry supports.
pub proof fn lemma_mem_formats_exact(f: Fourcc)
    ensures
        spec_mem_format_list().contains(f) <==> spec_to_native(f) is Some,
{
    let l = spec_mem_format_list();
    if spec_to_native(f) is Some {
        match f {
            Fourcc::Argb8888 => assert(l[0] == f),
            Fourcc::Xrgb8888 => assert(l[1] == f),
            Fourcc::C8 => assert(l[2] == f),
            Fourcc::Rgb332 => assert(l[3] == f),
            Fourcc::Bgr233 => assert(l[4] == f),
            Fourcc::Xrgb4444 => assert(l[5] == f),
            Fourcc::Xbgr4444 => assert(l[6] == f),
            Fourcc::Argb4444 => assert(l[7] == f),
            Fourcc::Abgr4444 => assert(l[8] == f),
            Fourcc::Xrgb1555 => assert(l[9] == f),
            Fourcc::Xbgr1555 => assert(l[10] == f),
            Fourcc::Argb1555 => assert(l[11] == f),
            Fourcc::Abgr1555 => assert(l[12] == f),
            Fourcc::Rgb565 => assert(l[13] == f),
            Fourcc::Bgr565 => assert(l[14] == f),
            Fourcc::Rgb888 => assert(l[15] == f),
            Fourcc::Bgr888 => assert(l[16] == f),
            Fourcc::Xbgr8888 => assert(l[17] == f),
            Fourcc::Rgbx8888 => assert(l[18] == f),
            Fourcc::Bgrx8888 => assert(l[19] == f),
            Fourcc::Abgr8888 => assert(l[20] == f),
            Fourcc::Rgba8888 => assert(l[21] == f),
            Fourcc::Xrgb2101010 => assert(l[22] == f),
            Fourcc::Xbgr2101010 => assert(l[23] == f),
            Fourcc::Argb2101010 => assert(l[24] == f),
            Fourcc::Abgr2101010 => assert(l[25] == f),
            _ => assert(false),
        }
    }
    if l.contains(f) {
        let i = choose|i: int| 0 <= i < l.len() && l[i] == f;
        assert(spec_to_native(l[i]) is Some);
    }
}

/// A store whose only change is inside one entry's materialized bytes,
/// with the entry's geometry and length kept, stays well formed.
pub(crate) proof fn lemma_store_update_wf(pre: TestRenderer, post: TestRenderer, id: int)
    requires
        pre.wf(),
        0 <= id < pre.textures@.len(),
        post.textures@.len() == pre.textures@.len(),
        forall|i: int|
            0 <= i < pre.textures@.len() && i != id ==> post.textures@[i] == #[trigger] pre.textures@[i],
        post.textures@[id].width == pre.textures@[id].width,
        post.textures@[id].height == pre.textures@[id].height,
        post.textures@[id].format == pre.textures@[id].format,
        post.textures@[id].flipped == pre.textures@[id].flipped,
        post.textures@[id].data@.len() == pre.textures@[id].data@.len(),
        pre.same_session(post),
    ensures
        post.wf(),
{
    assert forall|i: int| 0 <= i < post.textures@.len() implies (#[trigger] post.textures@[i]).wf()
        by {
        if i != id {
            assert(post.textures@[i] == pre.textures@[i]);
        } else {
            assert(pre.textures@[id].wf());
        }
    }
    assert(post.bound_wf());
}

} // verus!
