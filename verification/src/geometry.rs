//! Geometry primitives: axis-aligned rectangles and displacement vectors.
//!
//! Pure value types. All collision arithmetic in this crate works on values
//! whose magnitudes stay below [`COORD_LIMIT`], so every intermediate product
//! fits comfortably in an `i64`.

use vstd::prelude::*;

verus! {

/// Largest coordinate, size or displacement magnitude the collision routines
/// accept. Cross-multiplied entry/exit distances stay below
/// `4 * COORD_LIMIT * COORD_LIMIT`, far inside the `i64` range.
pub const COORD_LIMIT: i64 = 8_000_000;

/// An axis-aligned rectangle: top-left corner `(x, y)`, extent `(w, h)`.
/// The y axis grows downward, as on the screen.
#[derive(Clone, Copy, PartialEq, Eq, Structural, Debug)]
pub struct Rect {
    pub x: i64,
    pub y: i64,
    pub w: i64,
    pub h: i64,
}

/// A per-frame displacement (velocity in pixels per tick).
#[derive(Clone, Copy, PartialEq, Eq, Structural, Debug)]
pub struct Vec2 {
    pub x: i64,
    pub y: i64,
}

impl Rect {
    /// Positive extent, all edges within the coordinate limit.
    pub open spec fn wf(self) -> bool {
        &&& -COORD_LIMIT <= self.x <= COORD_LIMIT
        &&& -COORD_LIMIT <= self.y <= COORD_LIMIT
        &&& 0 < self.w <= COORD_LIMIT
        &&& 0 < self.h <= COORD_LIMIT
    }

    /// The rectangles share interior area (touching edges do not count).
    pub open spec fn overlaps_spec(self, other: Rect) -> bool {
        &&& self.x < other.x + other.w
        &&& other.x < self.x + self.w
        &&& self.y < other.y + other.h
        &&& other.y < self.y + self.h
    }

    /// Overlap query over both axes.
    pub fn overlaps(&self, other: &Rect) -> (r: bool)
        requires
            self.wf(),
            other.wf(),
        ensures
            r == self.overlaps_spec(*other),
    {
        self.x < other.x + other.w && other.x < self.x + self.w && self.y < other.y + other.h
            && other.y < self.y + self.h
    }

    /// The point `(px, py)` lies inside the rectangle (left/top edges
    /// inclusive, right/bottom edges exclusive).
    pub open spec fn contains_spec(self, px: int, py: int) -> bool {
        &&& self.x <= px < self.x + self.w
        &&& self.y <= py < self.y + self.h
    }

    /// Containment query.
    pub fn contains(&self, px: i64, py: i64) -> (r: bool)
        requires
            self.wf(),
        ensures
            r == self.contains_spec(px as int, py as int),
    {
        self.x <= px && px < self.x + self.w && self.y <= py && py < self.y + self.h
    }
}

impl Vec2 {
    /// Both components within the coordinate limit.
    pub open spec fn wf(self) -> bool {
        &&& -COORD_LIMIT <= self.x <= COORD_LIMIT
        &&& -COORD_LIMIT <= self.y <= COORD_LIMIT
    }
}

} // verus!
