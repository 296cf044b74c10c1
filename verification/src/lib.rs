//! A backend-agnostic renderer capability contract with a reference backend.
//!
//! The crate models the bookkeeping any rendering backend must get right:
//! a bijective pixel-format registry, textures with lazily allocated
//! backing storage, a single active bind target, bounded import and export
//! of raw pixel data, and a one-frame-at-a-time render session protocol.

pub mod error;
pub mod export;
pub mod format;
pub mod frame;
pub mod geometry;
pub mod import;
pub mod renderer;
