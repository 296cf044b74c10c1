//! Sizes, rectangles, colors and the eight axis-aligned transforms.
//!
//! Damage regions and draw destinations are rectangles in the frame's
//! logical coordinate space; a [`Transform`] relates that space to the
//! physical pixels of the bound target, and likewise a source transform
//! relates a texture's stored rows to its presented orientation.

use vstd::prelude::*;

verus! {

/// A two-dimensional extent in pixels. Negative extents are rejected by
/// the operations that receive them, never silently clamped.
#[derive(Clone, Copy, Debug, PartialEq, Eq, Structural, Hash)]
pub struct Size {
    pub w: i32,
    pub h: i32,
}

impl Size {
    pub fn new(w: i32, h: i32) -> (r: Size)
        ensures
            r.w == w,
            r.h == h,
    {
        Size { w, h }
    }
}

/// An axis-aligned rectangle: origin plus extent, in pixels.
#[derive(Clone, Copy, Debug, PartialEq, Eq, Structural, Hash)]
pub struct Rect {
    pub x: i32,
    pub y: i32,
    pub w: i32,
    pub h: i32,
}

impl Rect {
    pub fn new(x: i32, y: i32, w: i32, h: i32) -> (r: Rect)
        ensures
            r == (Rect { x, y, w, h }),
    {
        Rect { x, y, w, h }
    }

    /// Whether the point lies inside the rectangle. A rectangle with a
    /// non-positive extent contains no point.
    pub open spec fn spec_contains(self, px: int, py: int) -> bool {
        &&& self.x <= px < self.x + self.w
        &&& self.y <= py < self.y + self.h
    }

    /// Executable counterpart of [`Rect::spec_contains`].
    pub fn contains(&self, px: i64, py: i64) -> (b: bool)
        ensures
            b == self.spec_contains(px as int, py as int),
    {
        let x = self.x as i64;
        let y = self.y as i64;
        (x <= px) && (px < x + self.w as i64) && (y <= py) && (py < y + self.h as i64)
    }
}

/// Whether some rectangle of the list contains the point: the union of a
/// damage list is the set of points one of its rectangles covers.
pub open spec fn spec_covered(damage: Seq<Rect>, px: int, py: int) -> bool {
    exists|i: int| 0 <= i < damage.len() && damage[i].spec_contains(px, py)
}

/// Executable counterpart of [`spec_covered`].
pub fn covered_by(damage: &[Rect], px: i64, py: i64) -> (b: bool)
    ensures
        b == spec_covered(damage@, px as int, py as int),
{
    let mut i: usize = 0;
    while i < damage.len()
        invariant
            0 <= i <= damage@.len(),
            forall|j: int| 0 <= j < i ==> !damage@[j].spec_contains(px as int, py as int),
        decreases damage@.len() - i,
    {
        if damage[i].contains(px, py) {
            return true;
        }
        i = i + 1;
    }
    false
}

/// A color with 8-bit channels; `a == 255` is fully opaque.
#[derive(Clone, Copy, Debug, PartialEq, Eq, Structural, Hash)]
pub struct Color {
    pub r: u8,
    pub g: u8,
    pub b: u8,
    pub a: u8,
}

impl Color {
    pub fn new(r: u8, g: u8, b: u8, a: u8) -> (c: Color)
        ensures
            c == (Color { r, g, b, a }),
    {
        Color { r, g, b, a }
    }
}

/// One of the eight axis-aligned orientations of a pixel box: the four
/// quarter rotations, each optionally preceded by a horizontal flip.
#[derive(Clone, Copy, Debug, PartialEq, Eq, Structural, Hash)]
pub enum Transform {
    Normal,
    Rotated90,
    Rotated180,
    Rotated270,
    Flipped,
    Flipped90,
    Flipped180,
    Flipped270,
}

impl Transform {
    /// Whether the transform exchanges the two axes of the box.
    pub open spec fn spec_swaps_axes(self) -> bool {
        match self {
            Transform::Rotated90 => true,
            Transform::Rotated270 => true,
            Transform::Flipped90 => true,
            Transform::Flipped270 => true,
            _ => false,
        }
    }

    /// Executable counterpart of [`Transform::spec_swaps_axes`].
    pub fn swaps_axes(self) -> (b: bool)
        ensures
            b == self.spec_swaps_axes(),
    {
        match self {
            Transform::Rotated90 => true,
            Transform::Rotated270 => true,
            Transform::Flipped90 => true,
            Transform::Flipped270 => true,
            _ => false,
        }
    }

    /// The transform that undoes this one. Reflections are their own
    /// inverse; the quarter rotations invert to each other.
    pub open spec fn spec_invert(self) -> Transform {
        match self {
            Transform::Rotated90 => Transform::Rotated270,
            Transform::Rotated270 => Transform::Rotated90,
            other => other,
        }
    }

    /// Executable counterpart of [`Transform::spec_invert`].
    pub fn invert(self) -> (r: Transform)
        ensures
            r == self.spec_invert(),
    {
        match self {
            Transform::Rotated90 => Transform::Rotated270,
            Transform::Rotated270 => Transform::Rotated90,
            other => other,
        }
    }
}

/// The extent of a `w` by `h` box after the transform.
pub open spec fn spec_transformed_size(t: Transform, w: int, h: int) -> (int, int) {
    if t.spec_swaps_axes() {
        (h, w)
    } else {
        (w, h)
    }
}

/// Executable counterpart of [`spec_transformed_size`].
pub fn transformed_size(t: Transform, w: usize, h: usize) -> (r: (usize, usize))
    ensures
        (r.0 as int, r.1 as int) == spec_transformed_size(t, w as int, h as int),
{
    if t.swaps_axes() {
        (h, w)
    } else {
        (w, h)
    }
}

/// Where pixel `(x, y)` of a `w` by `h` box lands after the transform.
/// The result lies in the transformed box of [`spec_transformed_size`].
pub open spec fn spec_map_point(t: Transform, w: int, h: int, x: int, y: int) -> (int, int) {
    match t {
        Transform::Normal => (x, y),
        Transform::Rotated90 => (h - 1 - y, x),
        Transform::Rotated180 => (w - 1 - x, h - 1 - y),
        Transform::Rotated270 => (y, w - 1 - x),
        Transform::Flipped => (w - 1 - x, y),
        Transform::Flipped90 => (h - 1 - y, w - 1 - x),
        Transform::Flipped180 => (x, h - 1 - y),
        Transform::Flipped270 => (y, x),
    }
}

/// Executable counterpart of [`spec_map_point`].
pub fn map_point(t: Transform, w: usize, h: usize, x: usize, y: usize) -> (r: (usize, usize))
    requires
        x < w,
        y < h,
    ensures
        (r.0 as int, r.1 as int) == spec_map_point(t, w as int, h as int, x as int, y as int),
{
    match t {
        Transform::Normal => (x, y),
        Transform::Rotated90 => (h - 1 - y, x),
        Transform::Rotated180 => (w - 1 - x, h - 1 - y),
        Transform::Rotated270 => (y, w - 1 - x),
        Transform::Flipped => (w - 1 - x, y),
        Transform::Flipped90 => (h - 1 - y, w - 1 - x),
        Transform::Flipped180 => (x, h - 1 - y),
        Transform::Flipped270 => (y, x),
    }
}

/// Each transform is a bijection of the pixel box: the mapped point lies
/// in the transformed box, and the inverse transform, applied to the
/// transformed box, brings it back.
pub proof fn lemma_transform_round_trip(t: Transform, w: int, h: int, x: int, y: int)
    requires
        0 <= x < w,
        0 <= y < h,
    ensures
        ({
            let (tw, th) = spec_transformed_size(t, w, h);
            let (mx, my) = spec_map_point(t, w, h, x, y);
            &&& 0 <= mx < tw
            &&& 0 <= my < th
            &&& spec_map_point(t.spec_invert(), tw, th, mx, my) == (x, y)
        }),
{
}

} // verus!
