//! A uniquely identified bounding square owned by one organism and
//! tracked by the spatial grid.

use crate::limits::COORD_MAX;
use crate::square::Square;
use crate::vec2::Vec2;
use vstd::prelude::*;

verus! {

pub type GridId = usize;

pub type AreaId = usize;

/// A bounding square registered into at most one grid cell at a time.
///
/// Areas live in an arena owned by the grid system; `area_id` is the
/// area's index in that arena, handed out by a monotonic counter at
/// creation so that ids are unique by construction, and it is the sole
/// identity key. `grid_id` is the cell the area was last filed under, and
/// `registered` says whether the area currently sits in that cell's
/// collection.
#[derive(Clone, Copy, PartialEq, Eq, Structural, Debug)]
pub struct Area {
    pub area_id: AreaId,
    pub square: Square,
    pub grid_id: GridId,
    pub registered: bool,
}

impl Area {
    /// The area's square, and its doubled query square, stay within the
    /// coordinate range.
    pub open spec fn bounded(self) -> bool {
        &&& 0 <= self.square.size
        &&& self.square.size + self.square.size <= COORD_MAX
        &&& -COORD_MAX <= self.square.center.x - self.square.size
        &&& self.square.center.x + self.square.size <= COORD_MAX
        &&& -COORD_MAX <= self.square.center.y - self.square.size
        &&& self.square.center.y + self.square.size <= COORD_MAX
    }

    pub fn new(area_id: AreaId, center: &Vec2, grid_id: GridId, size: i64) -> (a: Area)
        requires
            0 <= size,
            size + size <= COORD_MAX,
            -COORD_MAX <= center.x - size,
            center.x + size <= COORD_MAX,
            -COORD_MAX <= center.y - size,
            center.y + size <= COORD_MAX,
        ensures
            a.area_id == area_id,
            a.grid_id == grid_id,
            !a.registered,
            a.square.wf(),
            a.bounded(),
            a.square.center == *center,
            a.square.size == size,
    {
        Area {
            area_id,
            grid_id,
            square: Square::new(center.clone(), size),
            registered: false,
        }
    }
}

} // verus!
