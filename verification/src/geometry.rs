//! Axis-aligned rectangles in the host's render-surface coordinate space.
//!
//! All geometry is integer-valued: the engine consumes positions the host
//! already rounded to surface pixels.  Coordinates are kept within
//! [`COORD_LIMIT`] so that every difference and size computed here fits
//! comfortably in an `i64`.

use vstd::prelude::*;

verus! {

/// Largest magnitude a rectangle coordinate may have.
///
/// Render surfaces are addressed in pixels; a billion pixels is far beyond
/// any real surface, and the bound keeps all rectangle arithmetic free of
/// overflow.
pub const COORD_LIMIT: i64 = 0x4000_0000;

/// An axis-aligned rectangle given by its two corners, with
/// `min_x <= max_x` and `min_y <= max_y` for well-formed values.
#[derive(Clone, Copy, Debug, PartialEq, Eq, Structural)]
pub struct Rect {
    pub min_x: i64,
    pub min_y: i64,
    pub max_x: i64,
    pub max_y: i64,
}

impl Rect {
    /// A well-formed rectangle: corners ordered and within [`COORD_LIMIT`].
    pub open spec fn wf(self) -> bool {
        &&& -COORD_LIMIT <= self.min_x <= self.max_x <= COORD_LIMIT
        &&& -COORD_LIMIT <= self.min_y <= self.max_y <= COORD_LIMIT
    }

    /// The relaxed bound relative rectangles satisfy: shifting one
    /// well-formed rectangle by another's corner can double the magnitude,
    /// but no more.
    pub open spec fn rel_wf(self) -> bool {
        &&& -0x8000_0000 <= self.min_x <= self.max_x <= 0x8000_0000
        &&& -0x8000_0000 <= self.min_y <= self.max_y <= 0x8000_0000
    }

    /// Whether two rectangles overlap, borders included.
    pub open spec fn spec_intersects(self, other: Rect) -> bool {
        &&& self.min_x <= other.max_x
        &&& other.min_x <= self.max_x
        &&& self.min_y <= other.max_y
        &&& other.min_y <= self.max_y
    }

    /// The rectangle with all four coordinates zero.
    pub open spec fn spec_zero() -> Rect {
        Rect { min_x: 0, min_y: 0, max_x: 0, max_y: 0 }
    }

    /// Builds a rectangle from a position and a size.
    pub fn new(x: i64, y: i64, width: i64, height: i64) -> (r: Rect)
        requires
            -COORD_LIMIT <= x,
            -COORD_LIMIT <= y,
            0 <= width,
            0 <= height,
            x + width <= COORD_LIMIT,
            y + height <= COORD_LIMIT,
        ensures
            r == (Rect { min_x: x, min_y: y, max_x: (x + width) as i64, max_y: (y + height) as i64 }),
            r.wf(),
    {
        Rect { min_x: x, min_y: y, max_x: x + width, max_y: y + height }
    }

    /// The all-zero rectangle, the placeholder the engine uses before a
    /// widget has reported real geometry.
    pub fn zero() -> (r: Rect)
        ensures
            r == Rect::spec_zero(),
            r.wf(),
    {
        Rect { min_x: 0, min_y: 0, max_x: 0, max_y: 0 }
    }

    /// The rectangle's width.
    pub fn width(&self) -> (w: i64)
        requires
            self.wf(),
        ensures
            w == self.max_x - self.min_x,
    {
        self.max_x - self.min_x
    }

    /// The rectangle's height.
    pub fn height(&self) -> (h: i64)
        requires
            self.wf(),
        ensures
            h == self.max_y - self.min_y,
    {
        self.max_y - self.min_y
    }

    /// Whether two rectangles overlap, borders included.
    pub fn intersects(&self, other: &Rect) -> (r: bool)
        requires
            self.wf(),
            other.wf(),
        ensures
            r == self.spec_intersects(*other),
    {
        self.min_x <= other.max_x && other.min_x <= self.max_x && self.min_y <= other.max_y
            && other.min_y <= self.max_y
    }
}

/// The value `rect_to_relative` returns: `rect` shifted so that `parent`'s
/// top-left corner becomes the origin.
pub open spec fn spec_rect_to_relative(rect: Rect, parent: Rect) -> Rect {
    Rect {
        min_x: (rect.min_x - parent.min_x) as i64,
        min_y: (rect.min_y - parent.min_y) as i64,
        max_x: (rect.max_x - parent.min_x) as i64,
        max_y: (rect.max_y - parent.min_y) as i64,
    }
}

/// Maps `rect` into `parent`'s local coordinate space.
///
/// Every masking strategy expresses occluder holes relative to the masked
/// area's own rectangle; this is the shared conversion.
pub fn rect_to_relative(rect: Rect, parent: Rect) -> (r: Rect)
    requires
        rect.wf(),
        parent.wf(),
    ensures
        r == spec_rect_to_relative(rect, parent),
        r.rel_wf(),
{
    Rect {
        min_x: rect.min_x - parent.min_x,
        min_y: rect.min_y - parent.min_y,
        max_x: rect.max_x - parent.min_x,
        max_y: rect.max_y - parent.min_y,
    }
}

} // verus!
