//! Hit tests: axis-aligned bounding boxes (the square targets and the menu
//! buttons) and circles (the round prototype target).

use vstd::prelude::*;

verus! {

/// True iff the point (px, py) lies inside the axis-aligned box centered at
/// (cx, cy) with the given half-extents, boundary included.
pub open spec fn in_box(cx: int, cy: int, half_w: int, half_h: int, px: int, py: int) -> bool {
    cx - half_w <= px <= cx + half_w && cy - half_h <= py <= cy + half_h
}

/// True iff the point (px, py) lies strictly inside the circle centered at
/// (cx, cy) with the given radius.
pub open spec fn in_circle(cx: int, cy: int, radius: int, px: int, py: int) -> bool {
    (px - cx) * (px - cx) + (py - cy) * (py - cy) < radius * radius
}

/// Axis-aligned bounding-box containment test, boundary included.
pub fn point_in_rect(cx: i32, cy: i32, half_w: i32, half_h: i32, px: i32, py: i32) -> (r: bool)
    ensures
        r == in_box(cx as int, cy as int, half_w as int, half_h as int, px as int, py as int),
{
    let cx = cx as i64;
    let cy = cy as i64;
    let half_w = half_w as i64;
    let half_h = half_h as i64;
    let px = px as i64;
    let py = py as i64;
    cx - half_w <= px && px <= cx + half_w && cy - half_h <= py && py <= cy + half_h
}

/// Circle containment test, boundary excluded, as the round prototype
/// target uses: the squared distance from the center is compared against
/// the squared radius, which avoids any square root.
pub fn point_in_circle(cx: i32, cy: i32, radius: i32, px: i32, py: i32) -> (r: bool)
    ensures
        r == in_circle(cx as int, cy as int, radius as int, px as int, py as int),
{
    let dx = (px as i128) - (cx as i128);
    let dy = (py as i128) - (cy as i128);
    proof {
        assert(0 <= dx * dx <= 0x1_0000_0000_0000_0000) by (nonlinear_arith)
            requires
                -0x1_0000_0000 <= dx <= 0x1_0000_0000,
        ;
        assert(0 <= dy * dy <= 0x1_0000_0000_0000_0000) by (nonlinear_arith)
            requires
                -0x1_0000_0000 <= dy <= 0x1_0000_0000,
        ;
        assert(0 <= (radius as i128) * (radius as i128) <= 0x1_0000_0000_0000_0000) by (
        nonlinear_arith)
            requires
                -0x1_0000_0000 <= radius as i128 <= 0x1_0000_0000,
        ;
    }
    let rr = (radius as i128) * (radius as i128);
    dx * dx + dy * dy < rr
}

} // verus!
