//! Axis-aligned bounding squares around a center point, with an
//! edge-inclusive overlap test.

use crate::limits::COORD_MAX;
use crate::vec2::Vec2;
use vstd::prelude::*;

verus! {

/// An axis-aligned square described by its center and two opposite
/// corners. The corners are always kept consistent with the center and
/// the stored half width; the side length never changes after
/// construction.
#[derive(Clone, Copy, PartialEq, Eq, Structural, Debug)]
pub struct Square {
    pub center: Vec2,
    pub top_right: Vec2,
    pub bottom_left: Vec2,
    pub size: i64,
    pub half_size: i64,
}

/// `v` lies inside the closed horizontal extent of `s`.
pub open spec fn in_x_extent(s: Square, v: int) -> bool {
    s.bottom_left.x <= v <= s.top_right.x
}

/// `v` lies inside the closed vertical extent of `s`.
pub open spec fn in_y_extent(s: Square, v: int) -> bool {
    s.bottom_left.y <= v <= s.top_right.y
}

/// The overlap test of the library: `b` touches `a` horizontally when one
/// of `b`'s vertical edges falls inside `a`'s horizontal extent, and
/// symmetrically for the vertical axis; both axes must hold. Edges that
/// merely coincide count as overlapping (closed intervals).
pub open spec fn spec_x_overlap(a: Square, b: Square) -> bool {
    in_x_extent(a, b.bottom_left.x as int) || in_x_extent(a, b.top_right.x as int)
}

pub open spec fn spec_y_overlap(a: Square, b: Square) -> bool {
    in_y_extent(a, b.bottom_left.y as int) || in_y_extent(a, b.top_right.y as int)
}

pub open spec fn spec_intersects(a: Square, b: Square) -> bool {
    spec_x_overlap(a, b) && spec_y_overlap(a, b)
}

/// The doubled query square around the same center, written out field by
/// field.
pub open spec fn spec_biased(q: Square) -> Square {
    Square {
        center: q.center,
        bottom_left: Vec2 {
            x: (q.center.x - q.size) as i64,
            y: (q.center.y - q.size) as i64,
        },
        top_right: Vec2 {
            x: (q.center.x + q.size) as i64,
            y: (q.center.y + q.size) as i64,
        },
        size: (q.size + q.size) as i64,
        half_size: q.size,
    }
}

impl Square {
    /// Structural consistency: the corners sit at the center offset by the
    /// stored half width, which is half of the stored side length, and the
    /// whole square lies within the coordinate range.
    pub open spec fn wf(self) -> bool {
        &&& 0 <= self.size <= COORD_MAX
        &&& self.half_size == self.size / 2
        &&& self.bottom_left.x == self.center.x - self.half_size
        &&& self.bottom_left.y == self.center.y - self.half_size
        &&& self.top_right.x == self.center.x + self.half_size
        &&& self.top_right.y == self.center.y + self.half_size
        &&& -COORD_MAX <= self.bottom_left.x
        &&& -COORD_MAX <= self.bottom_left.y
        &&& self.top_right.x <= COORD_MAX
        &&& self.top_right.y <= COORD_MAX
    }

    pub fn new(center: Vec2, size: i64) -> (s: Square)
        requires
            0 <= size <= COORD_MAX,
            -COORD_MAX <= center.x - size / 2,
            center.x + size / 2 <= COORD_MAX,
            -COORD_MAX <= center.y - size / 2,
            center.y + size / 2 <= COORD_MAX,
        ensures
            s.wf(),
            s.center == center,
            s.size == size,
    {
        let half_size: i64 = size / 2;
        Square {
            center,
            bottom_left: Vec2 { x: center.x - half_size, y: center.y - half_size },
            top_right: Vec2 { x: center.x + half_size, y: center.y + half_size },
            size,
            half_size,
        }
    }

    /// Move the square: the corners are recomputed from the new center and
    /// the stored half width; the side length is untouched.
    pub fn update(&mut self, center: &Vec2)
        requires
            old(self).wf(),
            -COORD_MAX <= center.x - old(self).half_size,
            center.x + old(self).half_size <= COORD_MAX,
            -COORD_MAX <= center.y - old(self).half_size,
            center.y + old(self).half_size <= COORD_MAX,
        ensures
            final(self).wf(),
            final(self).center == *center,
            final(self).size == old(self).size,
            final(self).half_size == old(self).half_size,
    {
        self.center.x = center.x;
        self.center.y = center.y;
        self.top_right.x = center.x + self.half_size;
        self.top_right.y = center.y + self.half_size;
        self.bottom_left.x = center.x - self.half_size;
        self.bottom_left.y = center.y - self.half_size;
    }

    /// A doubled square around the same center, used to over-query
    /// neighbouring grid cells so that a moving square cannot miss a
    /// contact across a cell boundary.
    pub fn add_half_size_bias(&self) -> (s: Square)
        requires
            0 <= self.size,
            self.size + self.size <= COORD_MAX,
            -COORD_MAX <= self.center.x - self.size,
            self.center.x + self.size <= COORD_MAX,
            -COORD_MAX <= self.center.y - self.size,
            self.center.y + self.size <= COORD_MAX,
        ensures
            s.wf(),
            s == spec_biased(*self),
    {
        let doubled = Square::new(self.center.clone(), self.size + self.size);
        proof {
            assert((self.size + self.size) / 2 == self.size);
        }
        doubled
    }

    /// Edge-inclusive overlap of the two squares' axis projections.
    pub fn intersects(&self, other: &Square) -> (r: bool)
        ensures
            r == spec_intersects(*self, *other),
    {
        let x_intersect = (other.bottom_left.x >= self.bottom_left.x
            && other.bottom_left.x <= self.top_right.x)
            || (other.top_right.x >= self.bottom_left.x && other.top_right.x <= self.top_right.x);

        x_intersect
            && ((other.bottom_left.y >= self.bottom_left.y
                && other.bottom_left.y <= self.top_right.y)
                || (other.top_right.y >= self.bottom_left.y
                    && other.top_right.y <= self.top_right.y))
    }
}

/// `inner`'s horizontal extent lies strictly inside `outer`'s.
pub open spec fn x_strictly_within(outer: Square, inner: Square) -> bool {
    outer.bottom_left.x < inner.bottom_left.x && inner.top_right.x < outer.top_right.x
}

/// `inner`'s vertical extent lies strictly inside `outer`'s.
pub open spec fn y_strictly_within(outer: Square, inner: Square) -> bool {
    outer.bottom_left.y < inner.bottom_left.y && inner.top_right.y < outer.top_right.y
}

/// The overlap test is symmetric whenever neither square's extent lies
/// strictly inside the other's on an axis. (It is not symmetric in
/// general: when one square strictly contains the other on an axis, only
/// the test from the larger square sees the contained edges.)
pub proof fn lemma_intersects_symmetric_no_nesting(a: Square, b: Square)
    requires
        a.wf(),
        b.wf(),
        !x_strictly_within(a, b),
        !x_strictly_within(b, a),
        !y_strictly_within(a, b),
        !y_strictly_within(b, a),
    ensures
        spec_intersects(a, b) == spec_intersects(b, a),
{
}

/// In particular, the overlap test is symmetric for squares of equal
/// half width: equal extents can never nest strictly.
pub proof fn lemma_intersects_symmetric(a: Square, b: Square)
    requires
        a.wf(),
        b.wf(),
        a.half_size == b.half_size,
    ensures
        spec_intersects(a, b) == spec_intersects(b, a),
{
}

/// Squares whose edges exactly coincide, with overlap on the other axis,
/// count as intersecting: the shared edge lies in both closed extents.
pub proof fn lemma_touching_edges_intersect(a: Square, b: Square)
    requires
        a.wf(),
        b.wf(),
        a.top_right.x == b.bottom_left.x,
        spec_y_overlap(a, b),
    ensures
        spec_intersects(a, b),
{
}

} // verus!
