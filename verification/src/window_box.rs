//! The rectangular simulation boundary and its wall-reflection physics: a
//! moving point whose projected travel segment crosses a boundary edge is
//! bounced in place, with the matching component of its direction vector
//! negated.
//!
//! Segment crossing is decided exactly: the 2x2 linear system for the two
//! segment parameters is solved over the rationals, with the membership
//! tests `r, s in [0, 1]` carried out by sign and magnitude comparison of
//! numerators against the common denominator, so no division is needed.

use crate::limits::{lemma_mul_bounds, COORD_MAX, DIR_MAX, DIST_MAX};
use crate::vec2::Vec2;
use vstd::prelude::*;

verus! {

/// Coordinate range accepted by the segment-crossing routine: wide enough
/// for any in-range position moved by any in-range travel vector.
pub const SEG_MAX: i64 = 0x2000_0000_0000_0000;

/// What a reflection step returns: the position and direction to adopt.
#[derive(Clone, Copy, PartialEq, Eq, Structural, Debug)]
pub struct CollisionResult {
    pub direction: Vec2,
    pub position: Vec2,
}

/// The boundary rectangle `[0, width] x [0, height]`, kept as its four
/// corner points; immutable after construction.
#[derive(Clone, Copy, PartialEq, Eq, Structural, Debug)]
pub struct WindowBox {
    pub top_left: Vec2,
    pub top_right: Vec2,
    pub bottom_left: Vec2,
    pub bottom_right: Vec2,
}

/// Denominator of the segment-parameter system for segments
/// `p1->p2` and `p3->p4`.
pub open spec fn seg_den(p1: Vec2, p2: Vec2, p3: Vec2, p4: Vec2) -> int {
    (p4.y - p3.y) * (p2.x - p1.x) - (p4.x - p3.x) * (p2.y - p1.y)
}

/// Numerator of the parameter `r` along `p1->p2`.
pub open spec fn seg_num_r(p1: Vec2, p2: Vec2, p3: Vec2, p4: Vec2) -> int {
    (p4.x - p3.x) * (p1.y - p3.y) - (p4.y - p3.y) * (p1.x - p3.x)
}

/// Numerator of the parameter `s` along `p3->p4`.
pub open spec fn seg_num_s(p1: Vec2, p2: Vec2, p3: Vec2, p4: Vec2) -> int {
    (p2.x - p1.x) * (p1.y - p3.y) - (p2.y - p1.y) * (p1.x - p3.x)
}

/// The rational `n / d` lies in `[0, 1]`: `n` and `d` carry the same sign
/// and `n` is no larger than `d` in magnitude.
pub open spec fn in_unit_ratio(n: int, d: int) -> bool {
    if d > 0 {
        0 <= n <= d
    } else {
        d <= n <= 0
    }
}

/// The travel segment `p3->p4` crosses the edge segment `p1->p2`: both
/// segment parameters lie in `[0, 1]`, or the system is degenerate with
/// both numerators zero (collinear overlap, treated as touching at the
/// segment's own start point).
pub open spec fn spec_line_collision(p1: Vec2, p2: Vec2, p3: Vec2, p4: Vec2) -> bool {
    let d = seg_den(p1, p2, p3, p4);
    if d == 0 {
        seg_num_r(p1, p2, p3, p4) == 0 && seg_num_s(p1, p2, p3, p4) == 0
    } else {
        in_unit_ratio(seg_num_r(p1, p2, p3, p4), d) && in_unit_ratio(
            seg_num_s(p1, p2, p3, p4),
            d,
        )
    }
}

/// Direction with the vertical component negated (horizontal wall).
pub open spec fn flip_y(dir: Vec2) -> Vec2 {
    Vec2 { x: dir.x, y: (-dir.y) as i64 }
}

/// Direction with the horizontal component negated (vertical wall).
pub open spec fn flip_x(dir: Vec2) -> Vec2 {
    Vec2 { x: (-dir.x) as i64, y: dir.y }
}

pub open spec fn spec_bounce(position: Vec2, direction: Vec2) -> CollisionResult {
    CollisionResult { direction, position }
}

/// The top-edge test: a crossing bounces in place with the vertical
/// direction component negated.
pub open spec fn spec_top_collided(b: WindowBox, current: Vec2, projected: Vec2, dir: Vec2)
    -> Option<CollisionResult> {
    if spec_line_collision(b.top_left, b.top_right, current, projected) {
        Some(spec_bounce(current, flip_y(dir)))
    } else {
        None
    }
}

/// The bottom-edge test, negating the vertical component on a crossing.
pub open spec fn spec_bottom_collided(b: WindowBox, current: Vec2, projected: Vec2, dir: Vec2)
    -> Option<CollisionResult> {
    if spec_line_collision(b.bottom_left, b.bottom_right, current, projected) {
        Some(spec_bounce(current, flip_y(dir)))
    } else {
        None
    }
}

/// The left-edge test, negating the horizontal component on a crossing.
pub open spec fn spec_left_collided(b: WindowBox, current: Vec2, projected: Vec2, dir: Vec2)
    -> Option<CollisionResult> {
    if spec_line_collision(b.top_left, b.bottom_left, current, projected) {
        Some(spec_bounce(current, flip_x(dir)))
    } else {
        None
    }
}

/// The right-edge test, negating the horizontal component on a crossing.
pub open spec fn spec_right_collided(b: WindowBox, current: Vec2, projected: Vec2, dir: Vec2)
    -> Option<CollisionResult> {
    if spec_line_collision(b.top_right, b.bottom_right, current, projected) {
        Some(spec_bounce(current, flip_x(dir)))
    } else {
        None
    }
}

/// `v` clamped into `[lo, hi]`.
pub open spec fn spec_clamp(v: i64, lo: i64, hi: i64) -> i64 {
    if v < lo {
        lo
    } else if v > hi {
        hi
    } else {
        v
    }
}

/// `p` lies in the closed boundary rectangle.
pub open spec fn in_box(b: WindowBox, p: Vec2) -> bool {
    0 <= p.x <= b.top_right.x && 0 <= p.y <= b.top_right.y
}

/// The reflection policy, given the already-projected end point: the four
/// edges are tested in the fixed order top, bottom, left, right; the first
/// crossing wins. A crossing with a horizontal edge negates the vertical
/// direction component and holds the position at its pre-move value, and
/// symmetrically for a vertical edge; with no crossing the move is taken
/// in full, clamped into the boundary rectangle as a defensive measure
/// against positions that were already out of range.
pub open spec fn spec_collided_velocity(b: WindowBox, pos: Vec2, proj: Vec2, dir: Vec2)
    -> CollisionResult {
    if spec_line_collision(b.top_left, b.top_right, pos, proj) {
        spec_bounce(pos, flip_y(dir))
    } else if spec_line_collision(b.bottom_left, b.bottom_right, pos, proj) {
        spec_bounce(pos, flip_y(dir))
    } else if spec_line_collision(b.top_left, b.bottom_left, pos, proj) {
        spec_bounce(pos, flip_x(dir))
    } else if spec_line_collision(b.top_right, b.bottom_right, pos, proj) {
        spec_bounce(pos, flip_x(dir))
    } else {
        spec_bounce(
            Vec2 {
                x: spec_clamp(proj.x, 0, b.top_right.x),
                y: spec_clamp(proj.y, 0, b.top_right.y),
            },
            dir,
        )
    }
}

/// The projected end point of a travel of `distance` along `dir` from
/// `pos`, as stored in a machine integer.
pub open spec fn spec_projected(pos: Vec2, distance: i64, dir: Vec2) -> Vec2 {
    Vec2 {
        x: (pos.x + distance * dir.x) as i64,
        y: (pos.y + distance * dir.y) as i64,
    }
}

pub open spec fn seg_bounded(p: Vec2) -> bool {
    -SEG_MAX <= p.x <= SEG_MAX && -SEG_MAX <= p.y <= SEG_MAX
}

/// Arithmetic for the top edge `(0, h)->(w, h)`: closed forms of the
/// denominator and the `s` numerator, and why the `s` parameter falls
/// outside `[0, 1]` when both travel endpoints lie strictly below the
/// edge.
proof fn lemma_top_edge(
    p1x: int, p1y: int, p2x: int, p2y: int,
    x3: int, y3: int, x4: int, y4: int,
    w: int, h: int,
) by (nonlinear_arith)
    requires
        p1x == 0,
        p1y == h,
        p2x == w,
        p2y == h,
        1 <= w,
        y3 < h,
        y4 < h,
    ensures
        (y4 - y3) * (p2x - p1x) - (x4 - x3) * (p2y - p1y) == (y4 - y3) * w,
        (p2x - p1x) * (p1y - y3) - (p2y - p1y) * (p1x - x3) == w * (h - y3),
        w * (h - y3) > 0,
        (y4 - y3) * w > 0 ==> w * (h - y3) > (y4 - y3) * w,
{
}

/// The same for the bottom edge `(0, 0)->(w, 0)`, with both travel
/// endpoints strictly above it.
proof fn lemma_bottom_edge(
    p1x: int, p1y: int, p2x: int, p2y: int,
    x3: int, y3: int, x4: int, y4: int,
    w: int,
) by (nonlinear_arith)
    requires
        p1x == 0,
        p1y == 0,
        p2x == w,
        p2y == 0,
        1 <= w,
        0 < y3,
        0 < y4,
    ensures
        (y4 - y3) * (p2x - p1x) - (x4 - x3) * (p2y - p1y) == (y4 - y3) * w,
        (p2x - p1x) * (p1y - y3) - (p2y - p1y) * (p1x - x3) == w * (0 - y3),
        w * (0 - y3) < 0,
        (y4 - y3) * w < 0 ==> w * (0 - y3) < (y4 - y3) * w,
{
}

/// The same for the left edge `(0, h)->(0, 0)`, with both travel
/// endpoints strictly to its right.
proof fn lemma_left_edge(
    p1x: int, p1y: int, p2x: int, p2y: int,
    x3: int, y3: int, x4: int, y4: int,
    h: int,
) by (nonlinear_arith)
    requires
        p1x == 0,
        p1y == h,
        p2x == 0,
        p2y == 0,
        1 <= h,
        0 < x3,
        0 < x4,
    ensures
        (y4 - y3) * (p2x - p1x) - (x4 - x3) * (p2y - p1y) == (x4 - x3) * h,
        (p2x - p1x) * (p1y - y3) - (p2y - p1y) * (p1x - x3) == 0 - (h * x3),
        0 - (h * x3) < 0,
        (x4 - x3) * h < 0 ==> 0 - (h * x3) < (x4 - x3) * h,
{
}

/// The same for the right edge `(w, h)->(w, 0)`, with both travel
/// endpoints strictly to its left.
proof fn lemma_right_edge(
    p1x: int, p1y: int, p2x: int, p2y: int,
    x3: int, y3: int, x4: int, y4: int,
    w: int, h: int,
) by (nonlinear_arith)
    requires
        p1x == w,
        p1y == h,
        p2x == w,
        p2y == 0,
        1 <= h,
        x3 < w,
        x4 < w,
    ensures
        (y4 - y3) * (p2x - p1x) - (x4 - x3) * (p2y - p1y) == (x4 - x3) * h,
        (p2x - p1x) * (p1y - y3) - (p2y - p1y) * (p1x - x3) == h * (w - x3),
        h * (w - x3) > 0,
        (x4 - x3) * h > 0 ==> h * (w - x3) > (x4 - x3) * h,
{
}

/// A horizontal travel segment that starts inside the boundary and ends
/// at or beyond its right side: both parameters of the system against the
/// right edge land in `[0, 1]`.
proof fn lemma_right_edge_cross(
    p1x: int, p1y: int, p2x: int, p2y: int,
    x3: int, y3: int, x4: int, y4: int,
    w: int, h: int,
) by (nonlinear_arith)
    requires
        p1x == w,
        p1y == h,
        p2x == w,
        p2y == 0,
        1 <= h,
        x3 < x4,
        w <= x4,
        x3 <= w,
        0 <= y3 <= h,
        y4 == y3,
    ensures
        (y4 - y3) * (p2x - p1x) - (x4 - x3) * (p2y - p1y) == (x4 - x3) * h,
        (x4 - x3) * (p1y - y3) - (y4 - y3) * (p1x - x3) == (x4 - x3) * (h - y3),
        (p2x - p1x) * (p1y - y3) - (p2y - p1y) * (p1x - x3) == h * (w - x3),
        (x4 - x3) * h > 0,
        0 <= (x4 - x3) * (h - y3) <= (x4 - x3) * h,
        0 <= h * (w - x3) <= (x4 - x3) * h,
{
}

/// A travel segment whose endpoints both lie strictly below the top of
/// the boundary never crosses the top edge.
pub proof fn lemma_no_cross_top(b: WindowBox, p3: Vec2, p4: Vec2)
    requires
        b.wf(),
        p3.y < b.top_right.y,
        p4.y < b.top_right.y,
    ensures
        !spec_line_collision(b.top_left, b.top_right, p3, p4),
{
    let w = b.top_right.x as int;
    let h = b.top_right.y as int;
    lemma_top_edge(
        b.top_left.x as int, b.top_left.y as int,
        b.top_right.x as int, b.top_right.y as int,
        p3.x as int, p3.y as int, p4.x as int, p4.y as int,
        w, h,
    );
}

/// A travel segment whose endpoints both lie strictly above the bottom of
/// the boundary never crosses the bottom edge.
pub proof fn lemma_no_cross_bottom(b: WindowBox, p3: Vec2, p4: Vec2)
    requires
        b.wf(),
        0 < p3.y,
        0 < p4.y,
    ensures
        !spec_line_collision(b.bottom_left, b.bottom_right, p3, p4),
{
    let w = b.top_right.x as int;
    lemma_bottom_edge(
        b.bottom_left.x as int, b.bottom_left.y as int,
        b.bottom_right.x as int, b.bottom_right.y as int,
        p3.x as int, p3.y as int, p4.x as int, p4.y as int,
        w,
    );
}

/// A travel segment whose endpoints both lie strictly to the right of the
/// left side of the boundary never crosses the left edge.
pub proof fn lemma_no_cross_left(b: WindowBox, p3: Vec2, p4: Vec2)
    requires
        b.wf(),
        0 < p3.x,
        0 < p4.x,
    ensures
        !spec_line_collision(b.top_left, b.bottom_left, p3, p4),
{
    let h = b.top_right.y as int;
    lemma_left_edge(
        b.top_left.x as int, b.top_left.y as int,
        b.bottom_left.x as int, b.bottom_left.y as int,
        p3.x as int, p3.y as int, p4.x as int, p4.y as int,
        h,
    );
}

/// A travel segment whose endpoints both lie strictly to the left of the
/// right side of the boundary never crosses the right edge.
pub proof fn lemma_no_cross_right(b: WindowBox, p3: Vec2, p4: Vec2)
    requires
        b.wf(),
        p3.x < b.top_right.x,
        p4.x < b.top_right.x,
    ensures
        !spec_line_collision(b.top_right, b.bottom_right, p3, p4),
{
    let w = b.top_right.x as int;
    let h = b.top_right.y as int;
    lemma_right_edge(
        b.top_right.x as int, b.top_right.y as int,
        b.bottom_right.x as int, b.bottom_right.y as int,
        p3.x as int, p3.y as int, p4.x as int, p4.y as int,
        w, h,
    );
}

/// A horizontal travel segment starting inside the boundary and ending at
/// or beyond its right side crosses the right edge.
pub proof fn lemma_cross_right(b: WindowBox, p3: Vec2, p4: Vec2)
    requires
        b.wf(),
        p4.y == p3.y,
        0 <= p3.y <= b.top_right.y,
        p3.x <= b.top_right.x,
        b.top_right.x <= p4.x,
        p3.x < p4.x,
    ensures
        spec_line_collision(b.top_right, b.bottom_right, p3, p4),
{
    let w = b.top_right.x as int;
    let h = b.top_right.y as int;
    lemma_right_edge_cross(
        b.top_right.x as int, b.top_right.y as int,
        b.bottom_right.x as int, b.bottom_right.y as int,
        p3.x as int, p3.y as int, p4.x as int, p4.y as int,
        w, h,
    );
}

/// Reflection is the identity move on a collision-free path: when the
/// travel segment lies strictly inside the boundary, the position advances
/// to the projected point and the direction is unchanged.
pub proof fn lemma_reflect_no_collision(b: WindowBox, pos: Vec2, proj: Vec2, dir: Vec2)
    requires
        b.wf(),
        0 < pos.x < b.top_right.x,
        0 < pos.y < b.top_right.y,
        0 < proj.x < b.top_right.x,
        0 < proj.y < b.top_right.y,
    ensures
        spec_collided_velocity(b, pos, proj, dir) == spec_bounce(proj, dir),
{
    lemma_no_cross_top(b, pos, proj);
    lemma_no_cross_bottom(b, pos, proj);
    lemma_no_cross_left(b, pos, proj);
    lemma_no_cross_right(b, pos, proj);
}

/// The same, stated over the travel inputs: for a segment fully inside
/// the boundary, reflection returns exactly `position + distance *
/// direction` with the direction unchanged.
pub proof fn lemma_reflect_identity_inside(b: WindowBox, pos: Vec2, distance: i64, dir: Vec2)
    requires
        b.wf(),
        0 < pos.x < b.top_right.x,
        0 < pos.y < b.top_right.y,
        0 < pos.x + distance * dir.x < b.top_right.x,
        0 < pos.y + distance * dir.y < b.top_right.y,
    ensures
        spec_collided_velocity(b, pos, spec_projected(pos, distance, dir), dir).position.x
            == pos.x + distance * dir.x,
        spec_collided_velocity(b, pos, spec_projected(pos, distance, dir), dir).position.y
            == pos.y + distance * dir.y,
        spec_collided_velocity(b, pos, spec_projected(pos, distance, dir), dir).direction == dir,
{
    let proj = spec_projected(pos, distance, dir);
    assert(proj.x == pos.x + distance * dir.x);
    assert(proj.y == pos.y + distance * dir.y);
    lemma_reflect_no_collision(b, pos, proj, dir);
}

/// Hitting the right wall flips the sign of a rightward direction and
/// holds the position: an entity one unit from the wall, aimed straight at
/// it, with any travel distance that reaches it, keeps its position and
/// comes back with direction `(-1, 0)`.
pub proof fn lemma_right_wall_bounce(b: WindowBox, pos: Vec2, distance: i64, dir: Vec2)
    requires
        b.wf(),
        2 <= b.top_right.x,
        2 <= b.top_right.y,
        pos.x == b.top_right.x - 1,
        pos.y == b.top_right.y / 2,
        dir.x == 1,
        dir.y == 0,
        1 <= distance <= DIST_MAX,
    ensures
        spec_collided_velocity(b, pos, spec_projected(pos, distance, dir), dir).position == pos,
        spec_collided_velocity(b, pos, spec_projected(pos, distance, dir), dir).direction.x == -1,
        spec_collided_velocity(b, pos, spec_projected(pos, distance, dir), dir).direction.y == 0,
{
    let proj = spec_projected(pos, distance, dir);
    assert(proj.x == pos.x + distance);
    assert(proj.y == pos.y);
    lemma_no_cross_top(b, pos, proj);
    lemma_no_cross_bottom(b, pos, proj);
    lemma_no_cross_left(b, pos, proj);
    lemma_cross_right(b, pos, proj);
}

impl WindowBox {
    /// The corners describe the rectangle `[0, w] x [0, h]` for positive
    /// in-range `w` and `h`.
    pub open spec fn wf(self) -> bool {
        &&& 1 <= self.top_right.x <= COORD_MAX
        &&& 1 <= self.top_right.y <= COORD_MAX
        &&& self.bottom_left == (Vec2 { x: 0, y: 0 })
        &&& self.top_left == (Vec2 { x: 0, y: self.top_right.y })
        &&& self.bottom_right == (Vec2 { x: self.top_right.x, y: 0 })
    }

    /// The boundary width, as the corners encode it.
    pub open spec fn spec_width(self) -> int {
        self.top_right.x as int
    }

    /// The boundary height, as the corners encode it.
    pub open spec fn spec_height(self) -> int {
        self.top_right.y as int
    }

    pub fn new(width: i64, height: i64) -> (b: WindowBox)
        requires
            1 <= width <= COORD_MAX,
            1 <= height <= COORD_MAX,
        ensures
            b.wf(),
            b.spec_width() == width,
            b.spec_height() == height,
    {
        WindowBox {
            top_left: Vec2 { x: 0, y: height },
            top_right: Vec2 { x: width, y: height },
            bottom_left: Vec2 { x: 0, y: 0 },
            bottom_right: Vec2 { x: width, y: 0 },
        }
    }

    /// Exact segment-segment crossing test, computed in 128-bit integers.
    fn line_collision(p1_1: &Vec2, p1_2: &Vec2, p2_3: &Vec2, p2_4: &Vec2) -> (r: bool)
        requires
            seg_bounded(*p1_1),
            seg_bounded(*p1_2),
            seg_bounded(*p2_3),
            seg_bounded(*p2_4),
        ensures
            r == spec_line_collision(*p1_1, *p1_2, *p2_3, *p2_4),
    {
        let x1: i128 = p1_1.x as i128;
        let y1: i128 = p1_1.y as i128;
        let x2: i128 = p1_2.x as i128;
        let y2: i128 = p1_2.y as i128;
        let x3: i128 = p2_3.x as i128;
        let y3: i128 = p2_3.y as i128;
        let x4: i128 = p2_4.x as i128;
        let y4: i128 = p2_4.y as i128;
        let dy43: i128 = y4 - y3;
        let dx21: i128 = x2 - x1;
        let dx43: i128 = x4 - x3;
        let dy21: i128 = y2 - y1;
        let dyp: i128 = y1 - y3;
        let dxp: i128 = x1 - x3;
        proof {
            lemma_mul_bounds(dy43 as int, dx21 as int, 0x4000_0000_0000_0000, 0x4000_0000_0000_0000);
            lemma_mul_bounds(dx43 as int, dy21 as int, 0x4000_0000_0000_0000, 0x4000_0000_0000_0000);
            lemma_mul_bounds(dx43 as int, dyp as int, 0x4000_0000_0000_0000, 0x4000_0000_0000_0000);
            lemma_mul_bounds(dy43 as int, dxp as int, 0x4000_0000_0000_0000, 0x4000_0000_0000_0000);
            lemma_mul_bounds(dx21 as int, dyp as int, 0x4000_0000_0000_0000, 0x4000_0000_0000_0000);
            lemma_mul_bounds(dy21 as int, dxp as int, 0x4000_0000_0000_0000, 0x4000_0000_0000_0000);
        }
        let div0: i128 = dy43 * dx21 - dx43 * dy21;
        let num1: i128 = dx43 * dyp - dy43 * dxp;
        let num2: i128 = dx21 * dyp - dy21 * dxp;
        if div0 == 0 {
            num1 == 0 && num2 == 0
        } else if div0 > 0 {
            0 <= num1 && num1 <= div0 && 0 <= num2 && num2 <= div0
        } else {
            div0 <= num1 && num1 <= 0 && div0 <= num2 && num2 <= 0
        }
    }

    /// Project the travel of `distance` along `direction` from `position`;
    /// if the travel segment crosses a boundary edge, bounce in place with
    /// the matching direction component negated, else adopt the projected
    /// point. A position inside the boundary stays inside it.
    pub fn collided_velocity(
        &self,
        position: &Vec2,
        distance: i64,
        direction: &Vec2,
    ) -> (result: CollisionResult)
        requires
            self.wf(),
            -COORD_MAX <= position.x <= COORD_MAX,
            -COORD_MAX <= position.y <= COORD_MAX,
            0 <= distance <= DIST_MAX,
            -DIR_MAX <= direction.x <= DIR_MAX,
            -DIR_MAX <= direction.y <= DIR_MAX,
        ensures
            result == spec_collided_velocity(
                *self,
                *position,
                spec_projected(*position, distance, *direction),
                *direction,
            ),
            in_box(*self, *position) ==> in_box(*self, result.position),
    {
        proof {
            lemma_mul_bounds(distance as int, direction.x as int, DIST_MAX as int, DIR_MAX as int);
            lemma_mul_bounds(distance as int, direction.y as int, DIST_MAX as int, DIR_MAX as int);
        }
        let new_position = Vec2 {
            x: position.x + distance * direction.x,
            y: position.y + distance * direction.y,
        };
        let top = self.top_collided(position, &new_position, direction);
        let bottom = self.bottom_collided(position, &new_position, direction);
        let left = self.left_collided(position, &new_position, direction);
        let right = self.right_collided(position, &new_position, direction);
        if top.is_some() {
            top.unwrap()
        } else if bottom.is_some() {
            bottom.unwrap()
        } else if left.is_some() {
            left.unwrap()
        } else if right.is_some() {
            right.unwrap()
        } else {
            CollisionResult {
                position: Vec2 {
                    x: Self::clamp(new_position.x, 0, self.top_right.x),
                    y: Self::clamp(new_position.y, 0, self.top_right.y),
                },
                direction: direction.clone(),
            }
        }
    }

    fn top_collided(&self, current: &Vec2, projected: &Vec2, direction: &Vec2) -> (r: Option<
        CollisionResult,
    >)
        requires
            self.wf(),
            seg_bounded(*current),
            seg_bounded(*projected),
            -DIR_MAX <= direction.x <= DIR_MAX,
            -DIR_MAX <= direction.y <= DIR_MAX,
        ensures
            r == spec_top_collided(*self, *current, *projected, *direction),
    {
        if Self::line_collision(&self.top_left, &self.top_right, current, projected) {
            Some(
                CollisionResult {
                    position: current.clone(),
                    direction: Vec2 { x: direction.x, y: -direction.y },
                },
            )
        } else {
            None
        }
    }

    fn bottom_collided(&self, current: &Vec2, projected: &Vec2, direction: &Vec2) -> (r: Option<
        CollisionResult,
    >)
        requires
            self.wf(),
            seg_bounded(*current),
            seg_bounded(*projected),
            -DIR_MAX <= direction.x <= DIR_MAX,
            -DIR_MAX <= direction.y <= DIR_MAX,
        ensures
            r == spec_bottom_collided(*self, *current, *projected, *direction),
    {
        if Self::line_collision(&self.bottom_left, &self.bottom_right, current, projected) {
            Some(
                CollisionResult {
                    position: current.clone(),
                    direction: Vec2 { x: direction.x, y: -direction.y },
                },
            )
        } else {
            None
        }
    }

    fn left_collided(&self, current: &Vec2, projected: &Vec2, direction: &Vec2) -> (r: Option<
        CollisionResult,
    >)
        requires
            self.wf(),
            seg_bounded(*current),
            seg_bounded(*projected),
            -DIR_MAX <= direction.x <= DIR_MAX,
            -DIR_MAX <= direction.y <= DIR_MAX,
        ensures
            r == spec_left_collided(*self, *current, *projected, *direction),
    {
        if Self::line_collision(&self.top_left, &self.bottom_left, current, projected) {
            Some(
                CollisionResult {
                    position: current.clone(),
                    direction: Vec2 { x: -direction.x, y: direction.y },
                },
            )
        } else {
            None
        }
    }

    fn right_collided(&self, current: &Vec2, projected: &Vec2, direction: &Vec2) -> (r: Option<
        CollisionResult,
    >)
        requires
            self.wf(),
            seg_bounded(*current),
            seg_bounded(*projected),
            -DIR_MAX <= direction.x <= DIR_MAX,
            -DIR_MAX <= direction.y <= DIR_MAX,
        ensures
            r == spec_right_collided(*self, *current, *projected, *direction),
    {
        if Self::line_collision(&self.top_right, &self.bottom_right, current, projected) {
            Some(
                CollisionResult {
                    position: current.clone(),
                    direction: Vec2 { x: -direction.x, y: direction.y },
                },
            )
        } else {
            None
        }
    }

    fn clamp(v: i64, lo: i64, hi: i64) -> (r: i64)
        ensures
            r == spec_clamp(v, lo, hi),
    {
        if v < lo {
            lo
        } else if v > hi {
            hi
        } else {
            v
        }
    }
}

} // verus!
