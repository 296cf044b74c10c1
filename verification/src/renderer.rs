//! The renderer core: the texture store, the bind/unbind protocol and
//! offscreen allocation.
//!
//! Texture storage is owned centrally by the renderer; a [`TestTexture`]
//! is a small copyable handle into that store, so cloning a handle shares
//! the storage and never duplicates it. Storage is released once, when
//! the renderer that owns the store is dropped. A texture created for
//! offscreen rendering defers its backing allocation until it is first
//! bound; before that point it reports zero-length storage.

use vstd::prelude::*;

verus! {

use crate::error::TestRendererError;
use crate::format::{Fourcc, FormatPair, Modifier, spec_bytes_per_pixel};

/// Sampling quality for magnified or minified texture draws.
#[derive(Clone, Copy, Debug, PartialEq, Eq, Structural, Hash)]
pub enum TextureFilter {
    /// Interpolate between the nearest samples.
    Linear,
    /// Take the single nearest sample.
    Nearest,
}

/// Diagnostic rendering toggles. Purely observational: no flag changes
/// what a finished frame contains.
#[derive(Clone, Copy, Debug, PartialEq, Eq, Structural, Hash)]
pub struct DebugFlags {
    /// Tint rendered damage for inspection.
    pub tint: bool,
}

impl DebugFlags {
    /// No diagnostic flag set.
    pub fn empty() -> (r: DebugFlags)
        ensures
            r == (DebugFlags { tint: false }),
    {
        DebugFlags { tint: false }
    }
}

impl Default for DebugFlags {
    fn default() -> (r: DebugFlags)
        ensures
            r == (DebugFlags { tint: false }),
    {
        DebugFlags { tint: false }
    }
}

/// A completion token returned by finishing a frame. This backend works
/// synchronously, so every token it hands out is already complete, which
/// is also what the default token means.
#[derive(Clone, Copy, Debug, PartialEq, Eq, Structural, Hash)]
pub struct SyncPoint {}

impl SyncPoint {
    /// Whether the commands the token stands for have completed.
    pub fn is_reached(&self) -> (r: bool)
        ensures
            r,
    {
        true
    }
}

impl Default for SyncPoint {
    fn default() -> (r: SyncPoint)
        ensures
            r == (SyncPoint {  }),
    {
        SyncPoint {  }
    }
}

/// The active destination for draw operations: exactly one per renderer,
/// or none.
#[derive(Clone, Copy, Debug, PartialEq, Eq, Structural, Hash)]
pub enum BindTarget {
    /// A texture of this renderer's store, by its slot.
    Texture(usize),
    /// An externally shared buffer. This backend accepts the bind but
    /// owns no CPU view of the memory, so draws to it are rejected.
    External,
}

/// A descriptor of an externally shared buffer: the properties this
/// contract reads of it. The memory itself stays with its exporter.
#[derive(Clone, Copy, Debug, PartialEq, Eq, Structural, Hash)]
pub struct Dmabuf {
    pub width: u32,
    pub height: u32,
    pub format: Fourcc,
    pub modifier: Modifier,
}

/// Backing storage of one texture slot.
pub struct TextureEntry {
    pub width: u32,
    pub height: u32,
    /// The pixel format, where it is known. A texture imported from a
    /// client buffer carries none until the contract learns it.
    pub format: Option<Fourcc>,
    /// Whether the stored rows run bottom-to-top relative to the
    /// presented orientation.
    pub flipped: bool,
    /// The pixels, row-major; empty while allocation is still deferred.
    pub data: Vec<u8>,
}

impl TextureEntry {
    /// Entry invariant: storage still deferred must be allocatable, and
    /// materialized storage of a known format covers its pixel grid.
    pub open spec fn wf(self) -> bool {
        &&& (self.data@.len() == 0 ==> self.width * self.height * 4 <= usize::MAX as int)
        &&& (match self.format {
            Some(f) => self.data@.len() == 0 || self.data@.len() >= self.width * self.height
                * spec_bytes_per_pixel(f),
            None => true,
        })
    }

    /// Whether the entry's storage is materialized for its full grid at
    /// four bytes per pixel.
    pub open spec fn materialized_4bpp(self) -> bool {
        self.data@.len() >= self.width * self.height * 4
    }
}

/// A renderer that draws with the CPU into its own texture store.
///
/// One renderer instance is driven by one logical thread; operations on
/// it are not internally locked.
pub struct TestRenderer {
    /// The texture store; handles index into it.
    pub textures: Vec<TextureEntry>,
    /// The active bind target.
    pub bound: Option<BindTarget>,
    /// Whether a render session is open.
    pub frame_open: bool,
    /// Sampling filter for magnification.
    pub upscale: TextureFilter,
    /// Sampling filter for minification.
    pub downscale: TextureFilter,
    /// Diagnostic toggles.
    pub debug: DebugFlags,
}

impl TestRenderer {
    /// All texture entries satisfy their invariant.
    pub open spec fn entries_wf(self) -> bool {
        forall|i: int|
            0 <= i < self.textures@.len() ==> (#[trigger] self.textures@[i]).wf()
    }

    /// A bound texture target is a valid slot with materialized storage
    /// in the one format this backend renders to.
    pub open spec fn bound_wf(self) -> bool {
        match self.bound {
            Some(BindTarget::Texture(id)) => {
                &&& id < self.textures@.len()
                &&& self.textures@[id as int].format == Some(Fourcc::Abgr8888)
                &&& self.textures@[id as int].materialized_4bpp()
            },
            _ => true,
        }
    }

    /// The renderer invariant, established by [`TestRenderer::new`] and
    /// preserved by every operation.
    pub open spec fn wf(self) -> bool {
        self.entries_wf() && self.bound_wf()
    }

    /// The session state (everything but the texture store) is the same
    /// in `self` and `other`.
    pub open spec fn same_session(self, other: TestRenderer) -> bool {
        &&& self.bound == other.bound
        &&& self.frame_open == other.frame_open
        &&& self.upscale == other.upscale
        &&& self.downscale == other.downscale
        &&& self.debug == other.debug
    }

    /// `other` is `self` with exactly one texture entry appended.
    pub open spec fn appended(self, other: TestRenderer) -> bool {
        &&& other.textures@.len() == self.textures@.len() + 1
        &&& forall|i: int|
            0 <= i < self.textures@.len() ==> other.textures@[i] == #[trigger] self.textures@[i]
        &&& self.same_session(other)
    }

    /// Create a renderer with an empty texture store, nothing bound and
    /// no open frame.
    pub fn new() -> (r: TestRenderer)
        ensures
            r.wf(),
            r.textures@.len() == 0,
            r.bound is None,
            !r.frame_open,
            r.upscale == TextureFilter::Linear,
            r.downscale == TextureFilter::Linear,
            r.debug == (DebugFlags { tint: false }),
    {
        TestRenderer {
            textures: Vec::new(),
            bound: None,
            frame_open: false,
            upscale: TextureFilter::Linear,
            downscale: TextureFilter::Linear,
            debug: DebugFlags::empty(),
        }
    }

    /// The renderer's identity. A single-instance model: compositions of
    /// several renderers inject their own identifier allocation instead
    /// of relying on hidden global state.
    pub fn id(&self) -> (r: usize)
        ensures
            r == 0,
    {
        0
    }

    /// Record the preferred sampling filter for magnifying texture
    /// draws; it affects subsequently issued draws only, never a frame
    /// already in flight. This backend samples nearest regardless.
    pub fn upscale_filter(&mut self, filter: TextureFilter) -> (r: Result<(), TestRendererError>)
        ensures
            *final(self) == (TestRenderer { upscale: filter, ..*old(self) }),
            r is Ok,
    {
        self.upscale = filter;
        Ok(())
    }

    /// Record the preferred sampling filter for minifying texture
    /// draws; it affects subsequently issued draws only. This backend
    /// samples nearest regardless.
    pub fn downscale_filter(&mut self, filter: TextureFilter) -> (r: Result<(), TestRendererError>)
        ensures
            *final(self) == (TestRenderer { downscale: filter, ..*old(self) }),
            r is Ok,
    {
        self.downscale = filter;
        Ok(())
    }

    /// Set the diagnostic toggles.
    pub fn set_debug_flags(&mut self, flags: DebugFlags)
        ensures
            *final(self) == (TestRenderer { debug: flags, ..*old(self) }),
    {
        self.debug = flags;
    }

    /// Read the diagnostic toggles.
    pub fn debug_flags(&self) -> (r: DebugFlags)
        ensures
            r == self.debug,
    {
        self.debug
    }

    /// Clear the active bind target. Unbinding with nothing bound is a
    /// no-op that reports success; this backend documents that policy
    /// rather than treating the call as an error.
    pub fn unbind(&mut self) -> (r: Result<(), TestRendererError>)
        requires
            old(self).wf(),
        ensures
            final(self).wf(),
            r is Ok,
            *final(self) == (TestRenderer { bound: None, ..*old(self) }),
    {
        self.bound = None;
        Ok(())
    }

    /// Make `target` the active bind target, implicitly and atomically
    /// replacing any previous one. Binding a texture whose storage is
    /// still deferred materializes it here: storage is never empty after
    /// a successful bind. A failed bind leaves the previous target
    /// bound, so no partially bound state is ever observable.
    pub fn bind(&mut self, target: TestTexture) -> (r: Result<(), TestRendererError>)
        requires
            old(self).wf(),
            target.wf(*old(self)),
        ensures
            final(self).wf(),
            target.wf(*final(self)),
            if target.format == Some(Fourcc::Abgr8888) {
                &&& r is Ok
                &&& spec_bind_post(*old(self), target, *final(self))
            } else {
                &&& r == Err::<(), TestRendererError>(TestRendererError::UnsupportedPixelLayout)
                &&& *final(self) == *old(self)
            },
    {
        match target.format {
            Some(Fourcc::Abgr8888) => {},
            _ => {
                return Err(TestRendererError::UnsupportedPixelLayout);
            },
        }
        if target.space(self) == 0 {
            target.allocate(self);
        }
        self.bound = Some(BindTarget::Texture(target.id));
        Ok(())
    }

    /// The (format, modifier) pairs usable for texture bind targets and
    /// offscreen allocation on this backend.
    pub fn supported_formats(&self) -> (r: Option<Vec<FormatPair>>)
        ensures
            r matches Some(v) && v@.len() == 1 && v@[0] == (FormatPair {
                code: Fourcc::Abgr8888,
                modifier: Modifier::Linear,
            }),
    {
        let mut v: Vec<FormatPair> = Vec::new();
        v.push(FormatPair { code: Fourcc::Abgr8888, modifier: Modifier::Linear });
        Some(v)
    }

    /// Bind an externally shared buffer as the draw target, implicitly
    /// replacing any previous target. The backend accepts the bind for
    /// the advertised (format, modifier) pairs but owns no CPU view of
    /// the memory, so later draws to it report `NothingBound`.
    pub fn bind_dmabuf(&mut self, buf: &Dmabuf) -> (r: Result<(), TestRendererError>)
        requires
            old(self).wf(),
        ensures
            final(self).wf(),
            if buf.format == Fourcc::Xrgb8888 && buf.modifier == Modifier::Linear {
                &&& r is Ok
                &&& *final(self) == (TestRenderer {
                    bound: Some(BindTarget::External),
                    ..*old(self)
                })
            } else {
                &&& r == Err::<(), TestRendererError>(TestRendererError::UnsupportedPixelLayout)
                &&& *final(self) == *old(self)
            },
    {
        let format_ok = match buf.format {
            Fourcc::Xrgb8888 => true,
            _ => false,
        };
        let modifier_ok = match buf.modifier {
            Modifier::Linear => true,
            _ => false,
        };
        if !(format_ok && modifier_ok) {
            return Err(TestRendererError::UnsupportedPixelLayout);
        }
        self.bound = Some(BindTarget::External);
        Ok(())
    }

    /// The (format, modifier) pairs accepted when binding externally
    /// shared buffers.
    pub fn supported_formats_dmabuf(&self) -> (r: Option<Vec<FormatPair>>)
        ensures
            r matches Some(v) && v@.len() == 1 && v@[0] == (FormatPair {
                code: Fourcc::Xrgb8888,
                modifier: Modifier::Linear,
            }),
    {
        let mut v: Vec<FormatPair> = Vec::new();
        v.push(FormatPair { code: Fourcc::Xrgb8888, modifier: Modifier::Linear });
        Some(v)
    }

    /// Allocate a new offscreen render target. The backing storage is
    /// deferred: the texture reports zero-length storage until it is
    /// first bound. Only the backend's render format is accepted.
    pub fn create_buffer(&mut self, format: Fourcc, size: crate::geometry::Size) -> (r: Result<
        TestTexture,
        TestRendererError,
    >)
        requires
            old(self).wf(),
        ensures
            final(self).wf(),
            !(format == Fourcc::Abgr8888) ==> r == Err::<TestTexture, TestRendererError>(
                TestRendererError::UnsupportedPixelLayout,
            ) && *final(self) == *old(self),
            format == Fourcc::Abgr8888 && !(0 <= size.w && 0 <= size.h && size.w * size.h * 4
                <= usize::MAX as int) ==> r == Err::<TestTexture, TestRendererError>(
                TestRendererError::UnexpectedSize,
            ) && *final(self) == *old(self),
            format == Fourcc::Abgr8888 && (0 <= size.w && 0 <= size.h && size.w * size.h * 4
                <= usize::MAX as int) ==> (r matches Ok(t) && {
                &&& old(self).appended(*final(self))
                &&& t.wf(*final(self))
                &&& t.id == old(self).textures@.len()
                &&& t.width == size.w as u32
                &&& t.height == size.h as u32
                &&& t.format == Some(Fourcc::Abgr8888)
                &&& final(self).textures@[t.id as int].data@.len() == 0
                &&& final(self).textures@[t.id as int].flipped == false
            }),
    {
        match format {
            Fourcc::Abgr8888 => {},
            _ => {
                return Err(TestRendererError::UnsupportedPixelLayout);
            },
        }
        if size.w < 0 || size.h < 0 {
            return Err(TestRendererError::UnexpectedSize);
        }
        let w = size.w as usize;
        let h = size.h as usize;
        let px = match w.checked_mul(h) {
            Some(p) => p,
            None => {
                proof {
                    assert(size.w * size.h * 4 > usize::MAX as int) by (nonlinear_arith)
                        requires
                            size.w * size.h > usize::MAX as int,
                            size.w >= 0,
                            size.h >= 0,
                    ;
                }
                return Err(TestRendererError::UnexpectedSize);
            },
        };
        if px.checked_mul(4).is_none() {
            return Err(TestRendererError::UnexpectedSize);
        }
        Ok(TestTexture::new(self, size.w as u32, size.h as u32))
    }
}

impl Default for TestRenderer {
    fn default() -> (r: TestRenderer)
        ensures
            r.wf(),
            r.textures@.len() == 0,
            r.bound is None,
            !r.frame_open,
    {
        TestRenderer::new()
    }
}

/// An opaque handle to backend-owned pixel storage. Handles are small
/// and copyable; copying one shares the storage, it never duplicates the
/// pixels. The handle's metadata (width, height, format) is stable for
/// the texture's lifetime.
#[derive(Clone, Copy, Debug, PartialEq, Eq, Structural, Hash)]
pub struct TestTexture {
    /// The slot of the backing storage in the owning renderer.
    pub id: usize,
    pub width: u32,
    pub height: u32,
    pub format: Option<Fourcc>,
}

impl TestTexture {
    /// The handle denotes a live slot of `r`'s store and agrees with it.
    pub open spec fn wf(self, r: TestRenderer) -> bool {
        &&& self.id < r.textures@.len()
        &&& r.textures@[self.id as int].width == self.width
        &&& r.textures@[self.id as int].height == self.height
        &&& r.textures@[self.id as int].format == self.format
    }

    /// Create a texture for offscreen rendering in `r`'s store. Backing
    /// storage is allocated lazily: the new texture's storage is empty
    /// until it is first bound.
    pub fn new(r: &mut TestRenderer, width: u32, height: u32) -> (t: TestTexture)
        requires
            old(r).wf(),
            width * height * 4 <= usize::MAX as int,
        ensures
            final(r).wf(),
            old(r).appended(*final(r)),
            t.wf(*final(r)),
            t.id == old(r).textures@.len(),
            t.width == width,
            t.height == height,
            t.format == Some(Fourcc::Abgr8888),
            final(r).textures@[t.id as int].data@.len() == 0,
            final(r).textures@[t.id as int].flipped == false,
    {
        let id = r.textures.len();
        r.textures.push(
            TextureEntry {
                width,
                height,
                format: Some(Fourcc::Abgr8888),
                flipped: false,
                data: Vec::new(),
            },
        );
        TestTexture { id, width, height, format: Some(Fourcc::Abgr8888) }
    }

    /// Wrap an existing pixel buffer as a texture in `r`'s store. The
    /// buffer must cover the grid of any claimed format; an empty buffer
    /// stands for storage that is still deferred.
    pub fn from(
        r: &mut TestRenderer,
        width: u32,
        height: u32,
        format: Option<Fourcc>,
        flipped: bool,
        buffer: Vec<u8>,
    ) -> (t: TestTexture)
        requires
            old(r).wf(),
            buffer@.len() == 0 ==> width * height * 4 <= usize::MAX as int,
            format matches Some(f) ==> buffer@.len() == 0 || buffer@.len() >= width * height
                * spec_bytes_per_pixel(f),
        ensures
            final(r).wf(),
            old(r).appended(*final(r)),
            t.wf(*final(r)),
            t.id == old(r).textures@.len(),
            t.width == width,
            t.height == height,
            t.format == format,
            final(r).textures@[t.id as int].data@ == buffer@,
            final(r).textures@[t.id as int].flipped == flipped,
    {
        let id = r.textures.len();
        r.textures.push(TextureEntry { width, height, format, flipped, data: buffer });
        TestTexture { id, width, height, format }
    }

    /// The length in bytes of the texture's backing storage; zero while
    /// allocation is still deferred.
    pub fn space(&self, r: &TestRenderer) -> (n: usize)
        requires
            self.wf(*r),
        ensures
            n == r.textures@[self.id as int].data@.len(),
    {
        r.textures[self.id].data.len()
    }

    /// Materialize the backing storage: the full pixel grid at four
    /// bytes per pixel, zero-filled. Replaces any previous contents.
    pub fn allocate(&self, r: &mut TestRenderer)
        requires
            old(r).wf(),
            self.wf(*old(r)),
            self.width * self.height * 4 <= usize::MAX as int,
        ensures
            final(r).wf(),
            self.wf(*final(r)),
            final(r).textures@.len() == old(r).textures@.len(),
            forall|i: int|
                0 <= i < old(r).textures@.len() && i != self.id ==> final(r).textures@[i]
                    == #[trigger] old(r).textures@[i],
            old(r).same_session(*final(r)),
            final(r).textures@[self.id as int].width == self.width,
            final(r).textures@[self.id as int].height == self.height,
            final(r).textures@[self.id as int].format == self.format,
            final(r).textures@[self.id as int].flipped == old(r).textures@[self.id as int].flipped,
            final(r).textures@[self.id as int].data@.len() == self.width * self.height * 4,
            forall|j: int|
                0 <= j < final(r).textures@[self.id as int].data@.len()
                    ==> final(r).textures@[self.id as int].data@[j] == 0,
    {
        proof {
            assert(self.width * self.height <= self.width * self.height * 4) by (nonlinear_arith)
                requires
                    self.width >= 0,
                    self.height >= 0,
            ;
        }
        let n = (self.width as usize) * (self.height as usize) * 4;
        let mut fresh: Vec<u8> = alloc_zeroed(n);
        swap_entry_data(&mut r.textures, self.id, &mut fresh);
        proof {
            let e = r.textures@[self.id as int];
            match e.format {
                Some(f) => {
                    crate::format::lemma_bpp_range(f);
                    assert(e.width * e.height * spec_bytes_per_pixel(f) <= e.width * e.height
                        * 4) by (nonlinear_arith)
                        requires
                            e.width >= 0,
                            e.height >= 0,
                            1 <= spec_bytes_per_pixel(f) <= 4,
                    ;
                },
                None => {},
            }
            assert(e.wf());
            assert forall|i: int| 0 <= i < r.textures@.len() implies (#[trigger] r.textures@[i]).wf() by {
                if i != self.id as int {
                    assert(r.textures@[i] == old(r).textures@[i]);
                }
            }
            assert(r.bound_wf());
        }
    }

    /// The texture's width in pixels.
    pub fn width(&self) -> (r: u32)
        ensures
            r == self.width,
    {
        self.width
    }

    /// The texture's height in pixels.
    pub fn height(&self) -> (r: u32)
        ensures
            r == self.height,
    {
        self.height
    }

    /// The texture's pixel format, where it is known.
    pub fn format(&self) -> (r: Option<Fourcc>)
        ensures
            r == self.format,
    {
        self.format
    }
}

/// What a successful bind of `target` leaves behind: `target`'s slot is
/// the active bind target, its storage is materialized (zero-filled if
/// it was still deferred, untouched otherwise), and everything else —
/// other entries, the open-frame flag, filters and debug toggles — is as
/// it was.
pub open spec fn spec_bind_post(pre: TestRenderer, target: TestTexture, post: TestRenderer) -> bool {
    &&& post.bound == Some(BindTarget::Texture(target.id))
    &&& post.textures@.len() == pre.textures@.len()
    &&& (forall|i: int|
        0 <= i < pre.textures@.len() && i != target.id ==> post.textures@[i]
            == #[trigger] pre.textures@[i])
    &&& post.frame_open == pre.frame_open
    &&& post.upscale == pre.upscale
    &&& post.downscale == pre.downscale
    &&& post.debug == pre.debug
    &&& post.textures@[target.id as int].width == target.width
    &&& post.textures@[target.id as int].height == target.height
    &&& post.textures@[target.id as int].format == target.format
    &&& post.textures@[target.id as int].flipped == pre.textures@[target.id as int].flipped
    &&& if pre.textures@[target.id as int].data@.len() == 0 {
        &&& post.textures@[target.id as int].data@.len() == target.width * target.height * 4
        &&& forall|j: int|
            0 <= j < post.textures@[target.id as int].data@.len()
                ==> post.textures@[target.id as int].data@[j] == 0
    } else {
        post.textures@[target.id as int].data@ == pre.textures@[target.id as int].data@
    }
}

/// Law: binding is replacement, never accumulation. After binding `a`
/// and then `b`, the active target is exactly `b`'s slot — whatever was
/// bound before — and a subsequent unbind leaves no active target at
/// all.
pub proof fn lemma_bind_replaces(
    r0: TestRenderer,
    r1: TestRenderer,
    r2: TestRenderer,
    r3: TestRenderer,
    a: TestTexture,
    b: TestTexture,
)
    requires
        spec_bind_post(r0, a, r1),
        spec_bind_post(r1, b, r2),
        r3 == (TestRenderer { bound: None, ..r2 }),
    ensures
        r2.bound == Some(BindTarget::Texture(b.id)),
        forall|i: usize| r2.bound == Some(BindTarget::Texture(i)) ==> i == b.id,
        a.id != b.id ==> r2.bound != Some(BindTarget::Texture(a.id)),
        r3.bound is None,
{
}

/// Law: offscreen allocation is lazy. A texture whose storage is still
/// empty when it is first bound reports, immediately after the bind,
/// storage of exactly its full pixel grid at four bytes per pixel.
pub proof fn lemma_lazy_allocation(r1: TestRenderer, r2: TestRenderer, t: TestTexture)
    requires
        t.wf(r1),
        r1.textures@[t.id as int].data@.len() == 0,
        spec_bind_post(r1, t, r2),
    ensures
        r2.textures@[t.id as int].data@.len() == t.width * t.height * 4,
{
}

/// A zero-filled byte vector of the given length.
fn alloc_zeroed(n: usize) -> (v: Vec<u8>)
    ensures
        v@.len() == n,
        forall|j: int| 0 <= j < n ==> v@[j] == 0,
{
    let mut v: Vec<u8> = Vec::new();
    let mut i: usize = 0;
    while i < n
        invariant
            i <= n,
            v@.len() == i,
            forall|j: int| 0 <= j < i ==> v@[j] == 0,
        decreases n - i,
    {
        v.push(0);
        i = i + 1;
    }
    v
}

/// Exchange the backing bytes of slot `i` with `data`, leaving every
/// other field and slot unchanged.
pub(crate) fn swap_entry_data(v: &mut Vec<TextureEntry>, i: usize, data: &mut Vec<u8>)
    requires
        i < old(v)@.len(),
    ensures
        final(v)@.len() == old(v)@.len(),
        forall|j: int|
            0 <= j < old(v)@.len() && j != i ==> final(v)@[j] == #[trigger] old(v)@[j],
        final(v)@[i as int].width == old(v)@[i as int].width,
        final(v)@[i as int].height == old(v)@[i as int].height,
        final(v)@[i as int].format == old(v)@[i as int].format,
        final(v)@[i as int].flipped == old(v)@[i as int].flipped,
        final(v)@[i as int].data@ == old(data)@,
        final(data)@ == old(v)@[i as int].data@,
{
    let e = &mut v[i];
    core::mem::swap(&mut e.data, data);
}

} // verus!
