//! The error taxonomy of the renderer contract.
//!
//! Every failure is returned to the immediate caller; nothing is silently
//! swallowed and no operation panics on malformed external input. The
//! variants fall into five groups: format errors, size and bounds errors,
//! access errors, unimplemented capabilities, and state errors.

use vstd::prelude::*;

verus! {

use crate::format::Fourcc;

/// An error returned by a renderer, frame or texture operation.
#[derive(Clone, Copy, Debug, PartialEq, Eq, Structural, Hash)]
pub enum TestRendererError {
    /// A client buffer's advertised geometry reaches outside its memory
    /// region; detected by bounds checks, never by an unchecked read.
    BufferAccessError,
    /// The format or modifier is not usable for the requested kind of
    /// target.
    UnsupportedPixelLayout,
    /// The pixel format is not supported by the pathway that was asked.
    UnsupportedPixelFormat(Fourcc),
    /// The provided buffer's size does not match the requested dimensions.
    UnexpectedSize,
    /// The requested region reaches outside its source or target.
    OutOfBounds,
    /// The optional capability is not implemented by this backend;
    /// distinct from a runtime failure so that callers fall back rather
    /// than retry.
    UnsupportedOperation,
    /// A render session is already open on this renderer.
    FrameActive,
    /// No CPU-writable target is bound, so there is nothing to draw into
    /// or read back from.
    NothingBound,
}

impl TestRendererError {
    /// A short description of the error.
    pub fn describe(&self) -> &'static str {
        match self {
            TestRendererError::BufferAccessError => "error accessing the client buffer",
            TestRendererError::UnsupportedPixelLayout => "unsupported pixel layout",
            TestRendererError::UnsupportedPixelFormat(_) => "unsupported pixel format",
            TestRendererError::UnexpectedSize => "buffer size is too small for the given dimensions",
            TestRendererError::OutOfBounds => "region is out of bounds",
            TestRendererError::UnsupportedOperation => "operation is not supported by this renderer",
            TestRendererError::FrameActive => "a frame is already being rendered",
            TestRendererError::NothingBound => "no target is currently bound",
        }
    }
}

/// Classification of a renderer error for the compositor's top-level
/// failure handling: transient failures may be retried on a later frame,
/// a lost context is fatal.
#[derive(Clone, Copy, Debug, PartialEq, Eq, Structural, Hash)]
pub enum SwapBuffersError {
    /// The rendering context is gone; the backend must be recreated.
    ContextLost,
    /// A failure tied to this frame alone; retrying later may succeed.
    TemporaryFailure(TestRendererError),
}

impl From<TestRendererError> for SwapBuffersError {
    /// Every error of this backend is transient: nothing it reports
    /// implies the loss of the rendering context.
    fn from(value: TestRendererError) -> (r: SwapBuffersError)
        ensures
            r == SwapBuffersError::TemporaryFailure(value),
    {
        match value {
            TestRendererError::BufferAccessError => SwapBuffersError::TemporaryFailure(value),
            TestRendererError::UnsupportedPixelLayout => SwapBuffersError::TemporaryFailure(value),
            TestRendererError::UnsupportedPixelFormat(_) => SwapBuffersError::TemporaryFailure(
                value,
            ),
            TestRendererError::UnexpectedSize => SwapBuffersError::TemporaryFailure(value),
            TestRendererError::OutOfBounds => SwapBuffersError::TemporaryFailure(value),
            TestRendererError::UnsupportedOperation => SwapBuffersError::TemporaryFailure(value),
            TestRendererError::FrameActive => SwapBuffersError::TemporaryFailure(value),
            TestRendererError::NothingBound => SwapBuffersError::TemporaryFailure(value),
        }
    }
}

impl vstd::std_specs::convert::FromSpecImpl<TestRendererError> for SwapBuffersError {
    open spec fn obeys_from_spec() -> bool {
        true
    }

    open spec fn from_spec(v: TestRendererError) -> SwapBuffersError {
        SwapBuffersError::TemporaryFailure(v)
    }
}

} // verus!
