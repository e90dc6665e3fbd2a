//! Axis-aligned boxes, their overlap test with the side that was hit, and
//! the reflection of a velocity off that side.
use vstd::prelude::*;
use crate::arena::MAX_HALF_EXTENT;

verus! {

/// A point or a vector in the plane.
#[derive(Clone, Copy, Debug, PartialEq, Eq, Structural)]
pub struct Point {
    pub x: i64,
    pub y: i64,
}

/// An axis-aligned box, given by its centre and its half-extents.
#[derive(Clone, Copy, Debug, PartialEq, Eq, Structural)]
pub struct Aabb {
    pub center: Point,
    pub half: Point,
}

/// The side of a collider that a moving box has struck.
///
/// `Left` means the moving box lies left of the collider, `Bottom` that it
/// lies below it.
#[derive(Clone, Copy, Debug, PartialEq, Eq, Structural)]
pub enum Collision {
    Left,
    Right,
    Top,
    Bottom,
}

pub open spec fn abs(v: int) -> int {
    if v < 0 { -v } else { v }
}

impl Aabb {
    /// Half-extents are positive and within the range that collision tests take.
    pub open spec fn wf(&self) -> bool {
        &&& 0 < self.half.x <= MAX_HALF_EXTENT
        &&& 0 < self.half.y <= MAX_HALF_EXTENT
    }
}

/// The two boxes' interiors intersect.
pub open spec fn overlaps(a: Aabb, b: Aabb) -> bool {
    &&& abs(a.center.x - b.center.x) < a.half.x + b.half.x
    &&& abs(a.center.y - b.center.y) < a.half.y + b.half.y
}

/// The contact is classified by its horizontal side: the centres lie farther
/// apart horizontally than vertically, each distance taken relative to the
/// boxes' combined half-extent on its axis. On a tie the axis with the
/// smaller translation out of the overlap wins, and the horizontal axis
/// where these are equal too.
pub open spec fn horizontal_contact(a: Aabb, b: Aabb) -> bool {
    let dx = abs(a.center.x - b.center.x);
    let dy = abs(a.center.y - b.center.y);
    let wx = a.half.x + b.half.x;
    let wy = a.half.y + b.half.y;
    dx * wy > dy * wx || (dx * wy == dy * wx && wx - dx <= wy - dy)
}

/// Which side of `b` the box `a` has struck, if the two overlap.
///
/// A box centred exactly on the collider's centre line counts as `Right`
/// (horizontally) or `Top` (vertically).
pub open spec fn collision_of(a: Aabb, b: Aabb) -> Option<Collision> {
    if !overlaps(a, b) {
        None
    } else if horizontal_contact(a, b) {
        if a.center.x < b.center.x { Some(Collision::Left) } else { Some(Collision::Right) }
    } else {
        if a.center.y < b.center.y { Some(Collision::Bottom) } else { Some(Collision::Top) }
    }
}

/// The velocity after a contact on side `c`: the component across that side
/// is negated, but only while it still points into the collider.
pub open spec fn reflected(v: Point, c: Collision) -> Point {
    match c {
        Collision::Left => if v.x > 0 { Point { x: (-v.x) as i64, y: v.y } } else { v },
        Collision::Right => if v.x < 0 { Point { x: (-v.x) as i64, y: v.y } } else { v },
        Collision::Top => if v.y < 0 { Point { x: v.x, y: (-v.y) as i64 } } else { v },
        Collision::Bottom => if v.y > 0 { Point { x: v.x, y: (-v.y) as i64 } } else { v },
    }
}

/// A velocity that already points away from the struck side is kept: a box
/// that is leaving a collider is not turned back into it.
pub proof fn lemma_receding_velocity_kept(v: Point)
    ensures
        v.x <= 0 ==> reflected(v, Collision::Left) == v,
        v.x >= 0 ==> reflected(v, Collision::Right) == v,
        v.y >= 0 ==> reflected(v, Collision::Top) == v,
        v.y <= 0 ==> reflected(v, Collision::Bottom) == v,
{
}

/// The squared length of a vector.
pub open spec fn speed_sq(v: Point) -> int {
    v.x * v.x + v.y * v.y
}

fn abs_diff(a: i64, b: i64) -> (r: i128)
    ensures
        r == abs(a - b),
{
    let d: i128 = a as i128 - b as i128;
    if d < 0 { -d } else { d }
}

/// Tests `a` against `b` and says which side of `b` was struck.
pub fn collide(a: &Aabb, b: &Aabb) -> (r: Option<Collision>)
    requires
        a.wf(),
        b.wf(),
    ensures
        r == collision_of(*a, *b),
{
    let dx = abs_diff(a.center.x, b.center.x);
    let dy = abs_diff(a.center.y, b.center.y);
    let wx: i128 = a.half.x as i128 + b.half.x as i128;
    let wy: i128 = a.half.y as i128 + b.half.y as i128;
    if !(dx < wx && dy < wy) {
        return None;
    }
    assert(dx * wy < wx * wy) by (nonlinear_arith)
        requires dx < wx, 0 <= dx, 0 < wy;
    assert(dy * wx < wy * wx) by (nonlinear_arith)
        requires dy < wy, 0 <= dy, 0 < wx;
    assert(wx * wy <= 2 * MAX_HALF_EXTENT * (2 * MAX_HALF_EXTENT)) by (nonlinear_arith)
        requires 0 < wx <= 2 * MAX_HALF_EXTENT, 0 < wy <= 2 * MAX_HALF_EXTENT;
    let px = dx * wy;
    let py = dy * wx;
    if px > py || (px == py && wx - dx <= wy - dy) {
        if a.center.x < b.center.x { Some(Collision::Left) } else { Some(Collision::Right) }
    } else {
        if a.center.y < b.center.y { Some(Collision::Bottom) } else { Some(Collision::Top) }
    }
}

/// Reflects velocity `v` off side `c` of a collider.
pub fn reflect(v: Point, c: Collision) -> (r: Point)
    requires
        v.x != i64::MIN,
        v.y != i64::MIN,
    ensures
        r == reflected(v, c),
        abs(r.x as int) == abs(v.x as int),
        abs(r.y as int) == abs(v.y as int),
        speed_sq(r) == speed_sq(v),
{
    assert((-v.x) * (-v.x) == v.x * v.x) by (nonlinear_arith);
    assert((-v.y) * (-v.y) == v.y * v.y) by (nonlinear_arith);
    match c {
        Collision::Left => if v.x > 0 { Point { x: -v.x, y: v.y } } else { v },
        Collision::Right => if v.x < 0 { Point { x: -v.x, y: v.y } } else { v },
        Collision::Top => if v.y < 0 { Point { x: v.x, y: -v.y } } else { v },
        Collision::Bottom => if v.y > 0 { Point { x: v.x, y: -v.y } } else { v },
    }
}

} // verus!
