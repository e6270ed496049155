//! Axis-aligned boxes and the overlap test shared by entities and weapons.
//!
//! All coordinates are integer simulation units.  The bounds below leave
//! enough headroom that every sum or difference a frame computes stays far
//! inside `i64`.

use vstd::prelude::*;

verus! {

/// Largest magnitude a position may reach in the middle of a frame
/// (an in-arena position plus one frame of travel).
pub const COORD_LIMIT: i64 = 3_000_000_000_000_000;

/// Largest edge length of any bounding box.
pub const SIZE_LIMIT: i64 = 1_000_000_000;

/// An axis-aligned box: `x`, `y` is the top-left corner, `w`, `h` its extent.
#[derive(Clone, Copy, Debug, PartialEq, Eq, Structural)]
pub struct Rect {
    pub x: i64,
    pub y: i64,
    pub w: i64,
    pub h: i64,
}

/// Bounds under which box arithmetic cannot overflow.
pub open spec fn rect_in_bounds(r: Rect) -> bool {
    &&& -COORD_LIMIT <= r.x <= COORD_LIMIT
    &&& -COORD_LIMIT <= r.y <= COORD_LIMIT
    &&& 0 <= r.w <= SIZE_LIMIT
    &&& 0 <= r.h <= SIZE_LIMIT
}

/// Two boxes overlap when they share positive width and positive height.
/// Boxes that merely touch along an edge do not overlap.
pub open spec fn spec_overlaps(a: Rect, b: Rect) -> bool {
    &&& a.x < b.x + b.w
    &&& b.x < a.x + a.w
    &&& a.y < b.y + b.h
    &&& b.y < a.y + a.h
}

/// Width of the intersection of the two horizontal spans (negative or zero
/// when the spans are apart).
pub open spec fn spec_overlap_x(a: Rect, b: Rect) -> int {
    vstd::math::min(a.x + a.w, b.x + b.w) - vstd::math::max(a.x as int, b.x as int)
}

/// Height of the intersection of the two vertical spans.
pub open spec fn spec_overlap_y(a: Rect, b: Rect) -> int {
    vstd::math::min(a.y + a.h, b.y + b.h) - vstd::math::max(a.y as int, b.y as int)
}

impl Rect {
    /// The overlap test used for every collision in the arena.
    pub fn overlaps(&self, other: &Rect) -> (r: bool)
        requires
            rect_in_bounds(*self),
            rect_in_bounds(*other),
        ensures
            r == spec_overlaps(*self, *other),
    {
        self.x < other.x + other.w && other.x < self.x + self.w
            && self.y < other.y + other.h && other.y < self.y + self.h
    }
}

/// Law: the overlap test does not depend on the order of its arguments.
pub proof fn lemma_overlaps_symmetric(a: Rect, b: Rect)
    ensures
        spec_overlaps(a, b) == spec_overlaps(b, a),
{
}

/// For boxes of positive extent, overlap holds exactly when both axis
/// intersections are positive.  This is why gating the collision resolver
/// on the overlap test agrees with the resolver's own no-op branch, which
/// inspects the two intersection widths.
pub proof fn lemma_overlaps_iff_positive_overlap(a: Rect, b: Rect)
    requires
        a.w > 0,
        a.h > 0,
        b.w > 0,
        b.h > 0,
    ensures
        spec_overlaps(a, b) <==> (spec_overlap_x(a, b) > 0 && spec_overlap_y(a, b) > 0),
{
}

/// What clamping into `[lo, hi]` returns.
pub open spec fn spec_clamp(v: int, lo: int, hi: int) -> int {
    if v < lo {
        lo
    } else if v > hi {
        hi
    } else {
        v
    }
}

/// Clamp a coordinate into the closed interval `[lo, hi]`.
pub fn clamp_i64(v: i64, lo: i64, hi: i64) -> (r: i64)
    requires
        lo <= hi,
    ensures
        r == spec_clamp(v as int, lo as int, hi as int),
        lo <= r <= hi,
{
    if v < lo {
        lo
    } else if v > hi {
        hi
    } else {
        v
    }
}

} // verus!
