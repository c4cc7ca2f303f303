//! Fixed-point world geometry: points, axis-aligned boxes and the overlap test.
//!
//! Every length and coordinate is a whole number of steps; `UNIT` steps make one
//! world unit. A box is held by its half extents, so its edges always lie on
//! whole steps and resting one box on another needs no rounding.

use vstd::prelude::*;

verus! {

/// Steps in one world unit.
pub const UNIT: i64 = 1_000_000;

/// A position in the world, in steps.
#[derive(Clone, Copy, Debug, PartialEq, Eq, Structural)]
pub struct Point {
    pub x: i64,
    pub y: i64,
}

/// An axis-aligned bounding box, centred on the position of its owner.
/// Its full width is twice `half_width`, its full height twice `half_height`.
#[derive(Clone, Copy, Debug, PartialEq, Eq, Structural)]
pub struct HitBox {
    pub half_width: u64,
    pub half_height: u64,
}

impl HitBox {
    /// Full width, in steps.
    pub open spec fn width(self) -> int {
        2 * self.half_width
    }

    /// Full height, in steps.
    pub open spec fn height(self) -> int {
        2 * self.half_height
    }

    /// Left edge of the box when centred at `at`.
    pub open spec fn left(self, at: Point) -> int {
        at.x - self.half_width
    }

    /// Right edge of the box when centred at `at`.
    pub open spec fn right(self, at: Point) -> int {
        at.x + self.half_width
    }

    /// Lower edge of the box when centred at `at`.
    pub open spec fn bottom(self, at: Point) -> int {
        at.y - self.half_height
    }

    /// Upper edge of the box when centred at `at`.
    pub open spec fn top(self, at: Point) -> int {
        at.y + self.half_height
    }
}

/// Two boxes overlap when their interiors meet on both axes. Boxes whose
/// edges only touch do not overlap.
pub open spec fn overlaps(a: HitBox, pa: Point, b: HitBox, pb: Point) -> bool {
    &&& a.right(pa) > b.left(pb)
    &&& a.left(pa) < b.right(pb)
    &&& a.top(pa) > b.bottom(pb)
    &&& a.bottom(pa) < b.top(pb)
}

/// The coordinate nearest to `v` that an `i64` can hold.
pub open spec fn saturate(v: int) -> int {
    if v < i64::MIN {
        i64::MIN as int
    } else if v > i64::MAX {
        i64::MAX as int
    } else {
        v
    }
}

/// Brings a wide intermediate value back into the coordinate range.
pub fn saturate_coord(v: i128) -> (r: i64)
    ensures
        r == saturate(v as int),
{
    if v < i64::MIN as i128 {
        i64::MIN
    } else if v > i64::MAX as i128 {
        i64::MAX
    } else {
        v as i64
    }
}

/// The overlap test used by every resolver. It reads a candidate position and
/// changes nothing.
pub fn check_hit(hitbox: HitBox, offset: Point, other_hitbox: HitBox, other_offset: Point) -> (hit:
    bool)
    ensures
        hit == overlaps(hitbox, offset, other_hitbox, other_offset),
{
    let dx: i128 = offset.x as i128 - other_offset.x as i128;
    let dy: i128 = offset.y as i128 - other_offset.y as i128;
    let reach_x: i128 = hitbox.half_width as i128 + other_hitbox.half_width as i128;
    let reach_y: i128 = hitbox.half_height as i128 + other_hitbox.half_height as i128;
    dx + reach_x > 0 && dx - reach_x < 0 && dy + reach_y > 0 && dy - reach_y < 0
}

/// The overlap test does not depend on the order of its two boxes.
pub proof fn lemma_overlaps_symmetric(a: HitBox, pa: Point, b: HitBox, pb: Point)
    ensures
        overlaps(a, pa, b, pb) == overlaps(b, pb, a, pa),
{
}

/// Boxes that meet exactly at an edge, on either axis, do not overlap.
pub proof fn lemma_touching_edges_do_not_overlap(a: HitBox, pa: Point, b: HitBox, pb: Point)
    requires
        a.right(pa) == b.left(pb) || a.left(pa) == b.right(pb) || a.top(pa) == b.bottom(pb)
            || a.bottom(pa) == b.top(pb),
    ensures
        !overlaps(a, pa, b, pb),
{
}

/// Two boxes overlap exactly when, on each axis, their centres are closer
/// than the sum of their half extents.
pub proof fn lemma_overlaps_by_distance(a: HitBox, pa: Point, b: HitBox, pb: Point)
    ensures
        overlaps(a, pa, b, pb) <==> {
            &&& -(a.half_width + b.half_width) < pa.x - pb.x < a.half_width + b.half_width
            &&& -(a.half_height + b.half_height) < pa.y - pb.y < a.half_height + b.half_height
        },
{
}

} // verus!
