//! The export pathway: copying framebuffer or texture contents into a
//! CPU-addressable mapping.
//!
//! Export is synchronous: by the time a mapping is returned its bytes are
//! readable. A mapping belongs to the one export call that made it and is
//! not refreshed when the renderer later mutates the same source.

use vstd::prelude::*;

verus! {

use crate::error::TestRendererError;
use crate::format::{Fourcc, spec_bytes_per_pixel};
use crate::geometry::Rect;
use crate::import::{spec_block_byte, spec_region_in, spec_window_byte};
use crate::renderer::{BindTarget, TestRenderer, TestTexture};

/// A read-only CPU view of exported pixel data, tied to the export call
/// that produced it.
#[derive(Debug)]
pub struct TestTextureMapping {
    pub width: u32,
    pub height: u32,
    pub format: Fourcc,
    /// Whether the mapping's rows run bottom-to-top relative to the
    /// export's coordinate origin. This backend copies rows in origin
    /// order, so its mappings are never flipped.
    pub flipped: bool,
    /// The pixels, row-major and tightly packed.
    pub data: Vec<u8>,
}

impl TestTextureMapping {
    /// The mapping's width in pixels.
    pub fn width(&self) -> (r: u32)
        ensures
            r == self.width,
    {
        self.width
    }

    /// The mapping's height in pixels.
    pub fn height(&self) -> (r: u32)
        ensures
            r == self.height,
    {
        self.height
    }

    /// The pixel format of the mapping's bytes.
    pub fn format(&self) -> (r: Option<Fourcc>)
        ensures
            r == Some(self.format),
    {
        Some(self.format)
    }

    /// Whether the rows run bottom-to-top; always false on this backend.
    pub fn flipped(&self) -> (r: bool)
        ensures
            r == self.flipped,
    {
        self.flipped
    }
}

/// Bytes of a packed block stay inside the block's row range.
proof fn lemma_block_byte_bound(rw: int, bpp: int, rows: int, row: int, cb: int)
    requires
        0 <= row < rows,
        0 <= cb < rw * bpp,
        0 <= rw,
        1 <= bpp,
    ensures
        0 <= spec_block_byte(rw, bpp, row, cb) < rows * (rw * bpp),
        spec_block_byte(rw, bpp, row, cb) < rw * rows * bpp,
{
    assert(0 <= row * (rw * bpp) + cb < rows * (rw * bpp)) by (nonlinear_arith)
        requires
            0 <= row < rows,
            0 <= cb < rw * bpp,
    ;
    assert(rows * (rw * bpp) == rw * rows * bpp) by (nonlinear_arith);
}

/// Copy a `rw` by `rh` pixel region at `(rx, ry)` out of a row-major
/// buffer that is `width` pixels wide at `bpp` bytes per pixel, into a
/// packed block.
fn extract_region(
    data: &Vec<u8>,
    width: usize,
    bpp: usize,
    rx: usize,
    ry: usize,
    rw: usize,
    rh: usize,
) -> (out: Vec<u8>)
    requires
        1 <= bpp <= 4,
        rx + rw <= width,
        (ry + rh) * width * bpp <= data@.len(),
        data@.len() <= usize::MAX as int,
    ensures
        out@.len() == rw * rh * bpp,
        forall|row: int, cb: int|
            0 <= row < rh && 0 <= cb < rw * bpp ==> out@[spec_block_byte(
                rw as int,
                bpp as int,
                row,
                cb,
            )] == data@[#[trigger] spec_window_byte(
                width as int,
                bpp as int,
                rx as int,
                ry as int,
                row,
                cb,
            )],
{
    proof {
        assert(rw * bpp <= width * bpp && width * bpp <= (ry + rh) * width * bpp || rh == 0)
            by (nonlinear_arith)
            requires
                rx + rw <= width,
                0 <= rx,
                0 <= ry,
                1 <= bpp,
                0 <= rh,
        ;
    }
    let mut out: Vec<u8> = Vec::new();
    if rh == 0 || rw == 0 {
        proof {
            assert(rw * rh * bpp == 0) by (nonlinear_arith)
                requires
                    rw == 0 || rh == 0,
            ;
        }
        return out;
    }
    let rwb = rw * bpp;
    let mut row: usize = 0;
    while row < rh
        invariant
            row <= rh,
            rwb == rw * bpp,
            1 <= bpp <= 4,
            1 <= rw,
            1 <= rh,
            rx + rw <= width,
            (ry + rh) * width * bpp <= data@.len(),
            data@.len() <= usize::MAX as int,
            out@.len() == row * (rw * bpp),
            forall|r2: int, cb2: int|
                0 <= r2 < row && 0 <= cb2 < rw * bpp ==> out@[spec_block_byte(
                    rw as int,
                    bpp as int,
                    r2,
                    cb2,
                )] == data@[#[trigger] spec_window_byte(
                    width as int,
                    bpp as int,
                    rx as int,
                    ry as int,
                    r2,
                    cb2,
                )],
        decreases rh - row,
    {
        proof {
            assert(((ry + row) * width + rx) * bpp + rw * bpp <= (ry + rh) * width * bpp)
                by (nonlinear_arith)
                requires
                    0 <= rx,
                    rx + rw <= width,
                    0 <= ry,
                    0 <= row < rh,
                    1 <= bpp,
                    0 <= width,
            ;
            assert(row * (rw * bpp) + rw * bpp <= rh * (rw * bpp)) by (nonlinear_arith)
                requires
                    0 <= row < rh,
                    0 <= rw * bpp,
            ;
            assert(rh * (rw * bpp) <= (ry + rh) * width * bpp) by (nonlinear_arith)
                requires
                    0 <= ry,
                    0 <= rh,
                    0 <= rw,
                    1 <= bpp,
                    rw <= width,
            ;
            assert(ry + row <= (ry + row) * width) by (nonlinear_arith)
                requires
                    1 <= width,
                    0 <= ry + row,
            ;
            assert((ry + row) * width <= ((ry + row) * width + rx) * bpp) by (nonlinear_arith)
                requires
                    0 <= rx,
                    1 <= bpp,
                    0 <= (ry + row) * width,
            ;
            assert((ry + row) * width + rx <= ((ry + row) * width + rx) * bpp)
                by (nonlinear_arith)
                requires
                    1 <= bpp,
                    0 <= (ry + row) * width + rx,
            ;
        }
        let trow: usize = ry + row;
        let tbase: usize = (trow * width + rx) * bpp;
        let mut cb: usize = 0;
        while cb < rwb
            invariant
                cb <= rwb,
                rwb == rw * bpp,
                1 <= bpp <= 4,
                1 <= rw,
                1 <= rh,
                rx + rw <= width,
                (ry + rh) * width * bpp <= data@.len(),
                data@.len() <= usize::MAX as int,
                row < rh,
                trow == ry + row,
                tbase == ((ry + row) * width + rx) * bpp,
                tbase + rw * bpp <= (ry + rh) * width * bpp,
                out@.len() == row * (rw * bpp) + cb,
                forall|r2: int, cb2: int|
                    0 <= r2 < row && 0 <= cb2 < rw * bpp ==> out@[spec_block_byte(
                        rw as int,
                        bpp as int,
                        r2,
                        cb2,
                    )] == data@[#[trigger] spec_window_byte(
                        width as int,
                        bpp as int,
                        rx as int,
                        ry as int,
                        r2,
                        cb2,
                    )],
                forall|cb2: int|
                    0 <= cb2 < cb ==> out@[spec_block_byte(rw as int, bpp as int, row as int, cb2)]
                        == data@[#[trigger] spec_window_byte(
                        width as int,
                        bpp as int,
                        rx as int,
                        ry as int,
                        row as int,
                        cb2,
                    )],
            decreases rwb - cb,
        {
            let b = data[tbase + cb];
            out.push(b);
            proof {
                assert forall|r2: int, cb2: int|
                    0 <= r2 < row && 0 <= cb2 < rw * bpp implies out@[spec_block_byte(
                    rw as int,
                    bpp as int,
                    r2,
                    cb2,
                )] == data@[#[trigger] spec_window_byte(
                    width as int,
                    bpp as int,
                    rx as int,
                    ry as int,
                    r2,
                    cb2,
                )] by {
                    lemma_block_byte_bound(rw as int, bpp as int, row as int, r2, cb2);
                }
                assert(out@[spec_block_byte(rw as int, bpp as int, row as int, cb as int)] == data@[
                    spec_window_byte(
                        width as int,
                        bpp as int,
                        rx as int,
                        ry as int,
                        row as int,
                        cb as int,
                    )
                ]);
            }
            cb = cb + 1;
        }
        proof {
            assert((row + 1) * (rw * bpp) == row * (rw * bpp) + rw * bpp) by (nonlinear_arith);
        }
        row = row + 1;
    }
    proof {
        assert(rh * (rw * bpp) == rw * rh * bpp) by (nonlinear_arith);
    }
    out
}

impl TestRenderer {
    /// Copy a region of a texture's pixels into a fresh CPU mapping.
    /// The requested format must be the texture's own (this backend does
    /// no conversion), and the region must lie inside the texture's
    /// materialized storage.
    pub fn copy_texture(
        &mut self,
        texture: &TestTexture,
        region: Rect,
        format: Fourcc,
    ) -> (r: Result<TestTextureMapping, TestRendererError>)
        requires
            old(self).wf(),
            texture.wf(*old(self)),
        ensures
            *final(self) == *old(self),
            ({
                let e = old(self).textures@[texture.id as int];
                match e.format {
                    None => r == Err::<TestTextureMapping, TestRendererError>(
                        TestRendererError::UnsupportedPixelLayout,
                    ),
                    Some(f) => {
                        let bpp = spec_bytes_per_pixel(f);
                        if format != f {
                            r == Err::<TestTextureMapping, TestRendererError>(
                                TestRendererError::UnsupportedPixelFormat(format),
                            )
                        } else if !spec_region_in(e.width as int, e.height as int, region) {
                            r == Err::<TestTextureMapping, TestRendererError>(
                                TestRendererError::OutOfBounds,
                            )
                        } else if region.w * region.h > 0 && e.data@.len() == 0 {
                            r == Err::<TestTextureMapping, TestRendererError>(
                                TestRendererError::OutOfBounds,
                            )
                        } else {
                            r matches Ok(m) && spec_mapping_of(m, e.data@, e.width as int, f, region)
                        }
                    },
                }
            }),
    {
        let fmt = match self.textures[texture.id].format {
            Some(f) => f,
            None => {
                return Err(TestRendererError::UnsupportedPixelLayout);
            },
        };
        if format != fmt {
            return Err(TestRendererError::UnsupportedPixelFormat(format));
        }
        let texw = self.textures[texture.id].width;
        let texh = self.textures[texture.id].height;
        if !(region.x >= 0 && region.y >= 0 && region.w >= 0 && region.h >= 0 && (region.x as i64
            + region.w as i64 <= texw as i64) && (region.y as i64 + region.h as i64
            <= texh as i64)) {
            return Err(TestRendererError::OutOfBounds);
        }
        proof {
            assert((region.w * region.h > 0) <==> (region.w > 0 && region.h > 0))
                by (nonlinear_arith)
                requires
                    region.w >= 0,
                    region.h >= 0,
            ;
        }
        let stored = self.textures[texture.id].data.len();
        if region.w > 0 && region.h > 0 && stored == 0 {
            return Err(TestRendererError::OutOfBounds);
        }
        let out = self.extract_entry_region(texture.id, region, fmt);
        Ok(
            TestTextureMapping {
                width: region.w as u32,
                height: region.h as u32,
                format: fmt,
                flipped: false,
                data: out,
            },
        )
    }

    /// Copy a region of the bound target into a fresh CPU mapping. With
    /// no CPU-writable target bound there is nothing to read back.
    pub fn copy_framebuffer(&mut self, region: Rect, format: Fourcc) -> (r: Result<
        TestTextureMapping,
        TestRendererError,
    >)
        requires
            old(self).wf(),
        ensures
            *final(self) == *old(self),
            ({
                match old(self).bound {
                    Some(BindTarget::Texture(id)) => {
                        let e = old(self).textures@[id as int];
                        if format != Fourcc::Abgr8888 {
                            r == Err::<TestTextureMapping, TestRendererError>(
                                TestRendererError::UnsupportedPixelFormat(format),
                            )
                        } else if !spec_region_in(e.width as int, e.height as int, region) {
                            r == Err::<TestTextureMapping, TestRendererError>(
                                TestRendererError::OutOfBounds,
                            )
                        } else {
                            r matches Ok(m) && spec_mapping_of(
                                m,
                                e.data@,
                                e.width as int,
                                Fourcc::Abgr8888,
                                region,
                            )
                        }
                    },
                    _ => r == Err::<TestTextureMapping, TestRendererError>(
                        TestRendererError::NothingBound,
                    ),
                }
            }),
    {
        let id = match self.bound {
            Some(BindTarget::Texture(id)) => id,
            _ => {
                return Err(TestRendererError::NothingBound);
            },
        };
        let format_ok = match format {
            Fourcc::Abgr8888 => true,
            _ => false,
        };
        if !format_ok {
            return Err(TestRendererError::UnsupportedPixelFormat(format));
        }
        let texw = self.textures[id].width;
        let texh = self.textures[id].height;
        if !(region.x >= 0 && region.y >= 0 && region.w >= 0 && region.h >= 0 && (region.x as i64
            + region.w as i64 <= texw as i64) && (region.y as i64 + region.h as i64
            <= texh as i64)) {
            return Err(TestRendererError::OutOfBounds);
        }
        proof {
            let e = self.textures@[id as int];
            assert((region.w * region.h > 0) <==> (region.w > 0 && region.h > 0))
                by (nonlinear_arith)
                requires
                    region.w >= 0,
                    region.h >= 0,
            ;
            if region.w > 0 && region.h > 0 {
                assert(e.width * e.height * 4 >= 1) by (nonlinear_arith)
                    requires
                        e.width as int >= region.w as int,
                        e.height as int >= region.h as int,
                        region.w > 0,
                        region.h > 0,
                ;
            }
        }
        let out = self.extract_entry_region(id, region, Fourcc::Abgr8888);
        Ok(
            TestTextureMapping {
                width: region.w as u32,
                height: region.h as u32,
                format: Fourcc::Abgr8888,
                flipped: false,
                data: out,
            },
        )
    }

    /// Copy a validated region out of entry `id`'s storage.
    fn extract_entry_region(&self, id: usize, region: Rect, fmt: Fourcc) -> (out: Vec<u8>)
        requires
            self.wf(),
            id < self.textures@.len(),
            self.textures@[id as int].format == Some(fmt),
            spec_region_in(
                self.textures@[id as int].width as int,
                self.textures@[id as int].height as int,
                region,
            ),
            region.w * region.h > 0 ==> self.textures@[id as int].data@.len() > 0,
        ensures
            out@.len() == region.w * region.h * spec_bytes_per_pixel(fmt),
            forall|row: int, cb: int|
                0 <= row < region.h && 0 <= cb < region.w * spec_bytes_per_pixel(fmt)
                    ==> out@[spec_block_byte(
                    region.w as int,
                    spec_bytes_per_pixel(fmt),
                    row,
                    cb,
                )] == self.textures@[id as int].data@[#[trigger] spec_window_byte(
                    self.textures@[id as int].width as int,
                    spec_bytes_per_pixel(fmt),
                    region.x as int,
                    region.y as int,
                    row,
                    cb,
                )],
    {
        let bpp = crate::format::bytes_per_pixel(fmt);
        let entry = &self.textures[id];
        let stored = entry.data.len();
        if region.w == 0 || region.h == 0 {
            let out: Vec<u8> = Vec::new();
            proof {
                assert(region.w * region.h * spec_bytes_per_pixel(fmt) == 0) by (nonlinear_arith)
                    requires
                        region.w == 0 || region.h == 0,
                ;
            }
            return out;
        }
        proof {
            assert(self.textures@[id as int].wf());
            let e = self.textures@[id as int];
            assert(region.w * region.h > 0) by (nonlinear_arith)
                requires
                    region.w > 0,
                    region.h > 0,
            ;
            assert(e.data@.len() >= e.width * e.height * spec_bytes_per_pixel(fmt));
            assert((region.y + region.h) * e.width * spec_bytes_per_pixel(fmt) <= e.width
                * e.height * spec_bytes_per_pixel(fmt)) by (nonlinear_arith)
                requires
                    region.y + region.h <= e.height as int,
                    0 <= region.y,
                    0 <= e.width,
                    1 <= spec_bytes_per_pixel(fmt),
            ;
        }
        extract_region(
            &entry.data,
            entry.width as usize,
            bpp,
            region.x as usize,
            region.y as usize,
            region.w as usize,
            region.h as usize,
        )
    }

    /// Borrow the bytes of an exported mapping. The view lives only as
    /// long as the mapping that owns it.
    pub fn map_texture<'a>(&mut self, texture_mapping: &'a TestTextureMapping) -> (r: Result<
        &'a [u8],
        TestRendererError,
    >)
        ensures
            *final(self) == *old(self),
            r matches Ok(s) && s@ == texture_mapping.data@,
    {
        Ok(texture_mapping.data.as_slice())
    }
}

/// The mapping `m` holds exactly the bytes of `region` of a `width`-wide
/// row-major buffer `data` of format `f`, packed row by row, in origin
/// order.
pub open spec fn spec_mapping_of(
    m: TestTextureMapping,
    data: Seq<u8>,
    width: int,
    f: Fourcc,
    region: Rect,
) -> bool {
    let bpp = spec_bytes_per_pixel(f);
    &&& m.width == region.w as u32
    &&& m.height == region.h as u32
    &&& m.format == f
    &&& m.flipped == false
    &&& m.data@.len() == region.w * region.h * bpp
    &&& forall|row: int, cb: int|
        0 <= row < region.h && 0 <= cb < region.w * bpp ==> m.data@[spec_block_byte(
            region.w as int,
            bpp,
            row,
            cb,
        )] == data[#[trigger] spec_window_byte(width, bpp, region.x as int, region.y as int, row, cb)]
}

} // verus!
