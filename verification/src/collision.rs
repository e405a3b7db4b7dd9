//! Spatial queries: axis-aligned bounding boxes, bounding circles, and the
//! overlap tests the combat resolver and spawn director are built on.

use vstd::prelude::*;

verus! {

/// An axis-aligned bounding box given by its center and half-extents.
#[derive(Clone, Copy, PartialEq, Eq, Structural, Debug)]
pub struct Aabb {
    pub cx: i32,
    pub cy: i32,
    pub hw: u32,
    pub hh: u32,
}

/// A bounding circle given by its center and radius.
#[derive(Clone, Copy, PartialEq, Eq, Structural, Debug)]
pub struct Circle {
    pub cx: i32,
    pub cy: i32,
    pub radius: u32,
}

/// Absolute value of a mathematical integer.
pub open spec fn abs_val(x: int) -> int {
    if x < 0 {
        -x
    } else {
        x
    }
}

/// A difference clamped below at zero: the separation left once two
/// extents have been subtracted.
pub open spec fn gap(x: int) -> int {
    if x < 0 {
        0
    } else {
        x
    }
}

/// Two boxes overlap when they meet or intersect on both axes.
pub open spec fn aabbs_overlap(a: Aabb, b: Aabb) -> bool {
    &&& abs_val(a.cx - b.cx) <= a.hw + b.hw
    &&& abs_val(a.cy - b.cy) <= a.hh + b.hh
}

/// A circle overlaps a box when the point of the box closest to the
/// circle's center lies within the radius.
pub open spec fn circle_overlaps_aabb(c: Circle, b: Aabb) -> bool {
    let gx = gap(abs_val(c.cx - b.cx) - b.hw);
    let gy = gap(abs_val(c.cy - b.cy) - b.hh);
    gx * gx + gy * gy <= c.radius * c.radius
}

/// Decides box/box overlap.
pub fn aabb_intersects(a: &Aabb, b: &Aabb) -> (r: bool)
    ensures
        r == aabbs_overlap(*a, *b),
{
    let dx: i64 = (a.cx as i64) - (b.cx as i64);
    let adx: i64 = if dx < 0 {
        -dx
    } else {
        dx
    };
    let dy: i64 = (a.cy as i64) - (b.cy as i64);
    let ady: i64 = if dy < 0 {
        -dy
    } else {
        dy
    };
    adx <= (a.hw as i64) + (b.hw as i64) && ady <= (a.hh as i64) + (b.hh as i64)
}

/// Decides circle/box overlap.
pub fn circle_intersects_aabb(c: &Circle, b: &Aabb) -> (r: bool)
    ensures
        r == circle_overlaps_aabb(*c, *b),
{
    let dx: i64 = (c.cx as i64) - (b.cx as i64);
    let adx: i64 = if dx < 0 {
        -dx
    } else {
        dx
    };
    let dy: i64 = (c.cy as i64) - (b.cy as i64);
    let ady: i64 = if dy < 0 {
        -dy
    } else {
        dy
    };
    let gx0: i64 = adx - (b.hw as i64);
    let gx: i64 = if gx0 < 0 {
        0
    } else {
        gx0
    };
    let gy0: i64 = ady - (b.hh as i64);
    let gy: i64 = if gy0 < 0 {
        0
    } else {
        gy0
    };
    proof {
        assert(0 <= gx <= 0x1_0000_0000i64);
        assert(0 <= gy <= 0x1_0000_0000i64);
        assert((gx as i128) * (gx as i128) <= 0x1_0000_0000_0000_0000i128) by (nonlinear_arith)
            requires
                0 <= gx <= 0x1_0000_0000i64,
        ;
        assert((gy as i128) * (gy as i128) <= 0x1_0000_0000_0000_0000i128) by (nonlinear_arith)
            requires
                0 <= gy <= 0x1_0000_0000i64,
        ;
        assert((c.radius as i128) * (c.radius as i128) <= 0x1_0000_0000_0000_0000i128)
            by (nonlinear_arith)
            requires
                0 <= (c.radius as i128) <= 0x1_0000_0000i128,
        ;
    }
    let gx2: i128 = (gx as i128) * (gx as i128);
    let gy2: i128 = (gy as i128) * (gy as i128);
    let rr: i128 = (c.radius as i128) * (c.radius as i128);
    gx2 + gy2 <= rr
}

} // verus!
