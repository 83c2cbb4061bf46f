//! A uniform spatial grid over the bounded world region. Each cell holds
//! an unordered collection of area ids; the areas themselves live in an
//! arena owned by the grid, so an organism and a cell both refer to an
//! area through its stable id rather than through shared references.
//!
//! The grid keeps one registration invariant: an area id appears in at
//! most one cell, at most once, and exactly in the cell its `grid_id`
//! field names, precisely while its `registered` flag is set.

use crate::area::{Area, AreaId, GridId};
use crate::limits::{lemma_mul_bounds, COORD_MAX, WORLD_MAX};
use crate::square::{spec_intersects, Square};
use crate::vec2::Vec2;
use vstd::arithmetic::div_mod::{
    lemma_div_is_ordered, lemma_div_pos_is_pos, lemma_fundamental_div_mod_converse,
};
use vstd::arithmetic::mul::lemma_mul_inequality;
use vstd::prelude::*;

verus! {

/// One cell of the grid: the ids of the areas filed under it, and the
/// cell's own square footprint, kept for completeness of the layout.
pub struct Grid {
    pub radii: Vec<AreaId>,
    pub square: Square,
}

/// The footprint square of the cell at index `c` in a grid of `cols`
/// columns and cell side `gs`: sized `gs`, centered by the column-and-row
/// formula `col*gs + col*(gs/2)` (and likewise for the row). The formula
/// grows faster than the conventional `col*gs`; it is the layout this
/// library defines and is kept exactly.
pub open spec fn spec_cell_square_ok(grids: Seq<Grid>, c: int, cols: int, gs: int) -> bool {
    let col = c % cols;
    let row = c / cols;
    &&& grids[c].square.wf()
    &&& grids[c].square.size == gs
    &&& grids[c].square.center.x == col * gs + col * (gs / 2)
    &&& grids[c].square.center.y == row * gs + row * (gs / 2)
}

pub struct GridSystem {
    pub grids: Vec<Grid>,
    pub areas: Vec<Area>,
    pub grid_size: i64,
    pub num_columns: usize,
}

impl GridSystem {
    /// Every arena slot holds the area whose id is its index, with a
    /// consistent, in-range square.
    pub open spec fn wf_arena(self) -> bool {
        forall|i: int|
            0 <= i < self.areas@.len() ==> (#[trigger] self.areas@[i]).area_id == i
                && self.areas@[i].square.wf() && self.areas@[i].bounded()
    }

    /// Every id filed under a cell is a live arena index whose area is
    /// registered exactly there.
    pub open spec fn wf_cells(self) -> bool {
        forall|c: int, k: int|
            0 <= c < self.grids@.len() && 0 <= k < self.grids@[c].radii@.len()
                ==> (#[trigger] self.grids@[c].radii@[k]) < self.areas@.len()
                && self.areas@[self.grids@[c].radii@[k] as int].registered
                && self.areas@[self.grids@[c].radii@[k] as int].grid_id == c
    }

    /// No id is filed twice under one cell.
    pub open spec fn wf_distinct(self) -> bool {
        forall|c: int, k1: int, k2: int|
            0 <= c < self.grids@.len() && 0 <= k1 < self.grids@[c].radii@.len() && 0 <= k2
                < self.grids@[c].radii@.len() && k1 != k2
                ==> #[trigger] self.grids@[c].radii@[k1] != #[trigger] self.grids@[c].radii@[k2]
    }

    /// Every registered area is filed under the cell its `grid_id` names.
    pub open spec fn wf_registered(self) -> bool {
        forall|i: int|
            0 <= i < self.areas@.len() && (#[trigger] self.areas@[i]).registered
                ==> self.areas@[i].grid_id < self.grids@.len()
                && self.grids@[self.areas@[i].grid_id as int].radii@.contains(i as usize)
    }

    pub open spec fn wf(self) -> bool {
        &&& 1 <= self.grid_size <= WORLD_MAX
        &&& 1 <= self.num_columns <= WORLD_MAX + 1
        &&& self.grids@.len() <= usize::MAX
        &&& self.wf_arena()
        &&& self.wf_cells()
        &&& self.wf_distinct()
        &&& self.wf_registered()
    }

    /// The raw cell index of a position: its column plus its row times
    /// the column count, or `-1` for a position outside the first
    /// quadrant.
    pub open spec fn spec_grid_index(self, p: Vec2) -> int {
        if p.x < 0 || p.y < 0 {
            -1
        } else {
            p.x / self.grid_size + (p.y / self.grid_size) * (self.num_columns as int)
        }
    }

    /// The cell a position is looked up in: the raw index when it names a
    /// cell, else the cell count itself, which every operation treats as
    /// "no cell".
    pub open spec fn spec_cell_of(self, p: Vec2) -> int {
        let si = self.spec_grid_index(p);
        if 0 <= si < self.grids@.len() {
            si
        } else {
            self.grids@.len() as int
        }
    }

    /// Build the grid for a `width` by `height` world with square cells
    /// of side `grid_size`: one column per whole cell width plus one to
    /// cover the remainder, and likewise for rows. Every cell starts
    /// empty, and the arena starts empty.
    pub fn new(width: i64, height: i64, grid_size: i64) -> (g: GridSystem)
        requires
            1 <= width <= WORLD_MAX,
            1 <= height <= WORLD_MAX,
            1 <= grid_size <= WORLD_MAX,
            (width / grid_size + 1) * (height / grid_size + 1) <= usize::MAX,
        ensures
            g.wf(),
            g.grid_size == grid_size,
            g.num_columns == width / grid_size + 1,
            g.grids@.len() == (width / grid_size + 1) * (height / grid_size + 1),
            forall|c: int|
                0 <= c < g.grids@.len() ==> (#[trigger] g.grids@[c]).radii@.len() == 0,
            forall|c: int|
                0 <= c < g.grids@.len() ==> spec_cell_square_ok(
                    g.grids@,
                    c,
                    g.num_columns as int,
                    grid_size as int,
                ),
            g.areas@.len() == 0,
    {
        let adjusted_width: u64 = (width as u64) / (grid_size as u64) + 1;
        let adjusted_height: u64 = (height as u64) / (grid_size as u64) + 1;
        let cols: usize = adjusted_width as usize;
        let rows: usize = adjusted_height as usize;
        let half_grid_size: i64 = grid_size / 2;
        let mut grids: Vec<Grid> = Vec::new();
        let mut y: usize = 0;
        while y < rows
            invariant
                cols == width / grid_size + 1,
                rows == height / grid_size + 1,
                1 <= grid_size <= WORLD_MAX,
                half_grid_size == grid_size / 2,
                y <= rows,
                1 <= cols,
                cols <= WORLD_MAX + 1,
                rows <= WORLD_MAX + 1,
                grids@.len() == y * cols,
                forall|c: int|
                    0 <= c < grids@.len() ==> (#[trigger] grids@[c]).radii@.len() == 0,
                forall|c: int|
                    0 <= c < grids@.len() ==> spec_cell_square_ok(
                        grids@,
                        c,
                        cols as int,
                        grid_size as int,
                    ),
            decreases rows - y,
        {
            let mut x: usize = 0;
            while x < cols
                invariant
                    1 <= grid_size <= WORLD_MAX,
                    half_grid_size == grid_size / 2,
                    x <= cols,
                    y < rows,
                    cols <= WORLD_MAX + 1,
                    rows <= WORLD_MAX + 1,
                    grids@.len() == y * cols + x,
                    1 <= cols,
                    forall|c: int|
                        0 <= c < grids@.len() ==> (#[trigger] grids@[c]).radii@.len() == 0,
                    forall|c: int|
                        0 <= c < grids@.len() ==> spec_cell_square_ok(
                            grids@,
                            c,
                            cols as int,
                            grid_size as int,
                        ),
                decreases cols - x,
            {
                proof {
                    lemma_mul_bounds(x as int, grid_size as int, WORLD_MAX as int, WORLD_MAX as int);
                    lemma_mul_bounds(
                        x as int,
                        half_grid_size as int,
                        WORLD_MAX as int,
                        WORLD_MAX as int,
                    );
                    lemma_mul_bounds(y as int, grid_size as int, WORLD_MAX as int, WORLD_MAX as int);
                    lemma_mul_bounds(
                        y as int,
                        half_grid_size as int,
                        WORLD_MAX as int,
                        WORLD_MAX as int,
                    );
                }
                let cell_center = Vec2 {
                    x: (x as i64) * grid_size + (x as i64) * half_grid_size,
                    y: (y as i64) * grid_size + (y as i64) * half_grid_size,
                };
                let ghost old_grids = grids@;
                grids.push(Grid { radii: Vec::new(), square: Square::new(cell_center, grid_size) });
                proof {
                    let last = grids@.len() - 1;
                    lemma_fundamental_div_mod_converse(last, cols as int, y as int, x as int);
                    assert forall|c: int|
                        0 <= c < grids@.len() implies spec_cell_square_ok(
                        grids@,
                        c,
                        cols as int,
                        grid_size as int,
                    ) by {
                        if c < last {
                            assert(grids@[c] == old_grids[c]);
                            assert(spec_cell_square_ok(old_grids, c, cols as int, grid_size as int));
                        } else {
                            assert(c % (cols as int) == x as int);
                            assert(c / (cols as int) == y as int);
                        }
                    }
                }
                x = x + 1;
            }
            y = y + 1;
            proof {
                assert((y - 1) * cols + cols == y * cols) by (nonlinear_arith);
            }
        }
        proof {
            assert(y == rows);
            assert(grids@.len() == y * cols);
            assert(y * cols == rows * cols) by (nonlinear_arith)
                requires y == rows;
            assert(rows * cols == (width / grid_size + 1) * (height / grid_size + 1))
                by (nonlinear_arith)
                requires
                    cols == width / grid_size + 1,
                    rows == height / grid_size + 1,
            ;
        }
        GridSystem { grids, areas: Vec::new(), grid_size, num_columns: cols }
    }

    /// The cell index of a world position: column plus row times the
    /// column count. A position outside the grid (negative, or past the
    /// last cell) yields the cell count itself, which no cell bears, so
    /// every lookup with it misses.
    pub fn get_grid_index(&self, position: &Vec2) -> (r: usize)
        requires
            self.wf(),
            -COORD_MAX <= position.x <= COORD_MAX,
            -COORD_MAX <= position.y <= COORD_MAX,
        ensures
            r == self.spec_cell_of(*position),
    {
        if position.x < 0 || position.y < 0 {
            return self.grids.len();
        }
        let gs: u64 = self.grid_size as u64;
        let cx: u64 = (position.x as u64) / gs;
        let cy: u64 = (position.y as u64) / gs;
        proof {
            lemma_div_pos_is_pos(position.x as int, gs as int);
            lemma_div_pos_is_pos(position.y as int, gs as int);
            lemma_div_is_ordered(position.x as int, COORD_MAX as int, gs as int);
            lemma_div_is_ordered(position.y as int, COORD_MAX as int, gs as int);
            lemma_mul_bounds(
                cy as int,
                self.num_columns as int,
                COORD_MAX as int,
                WORLD_MAX as int + 1,
            );
        }
        let idx: u64 = cx + cy * (self.num_columns as u64);
        if idx >= (self.grids.len() as u64) {
            self.grids.len()
        } else {
            idx as usize
        }
    }
    /// Allocate a fresh area in the arena, unregistered, with the next
    /// id from the monotonic counter.
    pub fn alloc_area(&mut self, center: &Vec2, grid_id: GridId, size: i64) -> (id: AreaId)
        requires
            old(self).wf(),
            0 <= size,
            size + size <= COORD_MAX,
            -COORD_MAX <= center.x - size,
            center.x + size <= COORD_MAX,
            -COORD_MAX <= center.y - size,
            center.y + size <= COORD_MAX,
        ensures
            final(self).wf(),
            id == old(self).areas@.len(),
            final(self).areas@.len() == old(self).areas@.len() + 1,
            final(self).grids@ == old(self).grids@,
            final(self).grid_size == old(self).grid_size,
            final(self).num_columns == old(self).num_columns,
            forall|i: int|
                0 <= i < old(self).areas@.len() ==> final(self).areas@[i] == old(self).areas@[i],
            final(self).areas@[id as int].square.center == *center,
            final(self).areas@[id as int].square.size == size,
            final(self).areas@[id as int].grid_id == grid_id,
            !final(self).areas@[id as int].registered,
    {
        let id = self.areas.len();
        let area = Area::new(id, center, grid_id, size);
        self.areas.push(area);
        id
    }

    /// Move an area's square to a new center; its size, identity and
    /// registration are untouched.
    pub fn update_area_square(&mut self, area_id: AreaId, center: &Vec2)
        requires
            old(self).wf(),
            area_id < old(self).areas@.len(),
            -COORD_MAX <= center.x - old(self).areas@[area_id as int].square.size,
            center.x + old(self).areas@[area_id as int].square.size <= COORD_MAX,
            -COORD_MAX <= center.y - old(self).areas@[area_id as int].square.size,
            center.y + old(self).areas@[area_id as int].square.size <= COORD_MAX,
        ensures
            final(self).wf(),
            final(self).grids@ == old(self).grids@,
            final(self).grid_size == old(self).grid_size,
            final(self).num_columns == old(self).num_columns,
            final(self).areas@.len() == old(self).areas@.len(),
            forall|i: int|
                0 <= i < old(self).areas@.len() && i != area_id ==> final(self).areas@[i] == old(self).areas@[i],
            final(self).areas@[area_id as int].area_id == area_id,
            final(self).areas@[area_id as int].grid_id == old(self).areas@[area_id as int].grid_id,
            final(self).areas@[area_id as int].registered == old(self).areas@[area_id as int].registered,
            final(self).areas@[area_id as int].square.center == *center,
            final(self).areas@[area_id as int].square.size == old(self).areas@[area_id as int].square.size,
            final(self).areas@[area_id as int].square.wf(),
    {
        let mut area = self.areas[area_id];
        area.square.update(center);
        self.areas[area_id] = area;
    }

    /// The cell an area was last filed under.
    pub fn area_grid_id(&self, area_id: AreaId) -> (r: GridId)
        requires
            self.wf(),
            area_id < self.areas@.len(),
        ensures
            r == self.areas@[area_id as int].grid_id,
    {
        self.areas[area_id].grid_id
    }

    /// A copy of an area's current square.
    pub fn area_square(&self, area_id: AreaId) -> (r: Square)
        requires
            self.wf(),
            area_id < self.areas@.len(),
        ensures
            r == self.areas@[area_id as int].square,
    {
        self.areas[area_id].square
    }

    /// File an area under the named cell. A no-op when the area is
    /// already registered somewhere; with an out-of-range cell the area
    /// only records the cell id and stays unregistered.
    pub fn add_area(&mut self, area_id: AreaId, grid_id: GridId) -> (r: GridId)
        requires
            old(self).wf(),
            area_id < old(self).areas@.len(),
        ensures
            r == grid_id,
            final(self).wf(),
            final(self).grid_size == old(self).grid_size,
            final(self).num_columns == old(self).num_columns,
            final(self).areas@.len() == old(self).areas@.len(),
            final(self).grids@.len() == old(self).grids@.len(),
            old(self).areas@[area_id as int].registered ==> *final(self) == *old(self),
            !old(self).areas@[area_id as int].registered ==> {
                &&& forall|i: int|
                    0 <= i < old(self).areas@.len() && i != area_id ==> final(self).areas@[i]
                        == old(self).areas@[i]
                &&& final(self).areas@[area_id as int].square == old(self).areas@[area_id as int].square
                &&& final(self).areas@[area_id as int].area_id == area_id
                &&& final(self).areas@[area_id as int].grid_id == grid_id
                &&& final(self).areas@[area_id as int].registered == (grid_id < old(self).grids@.len())
                &&& (grid_id < old(self).grids@.len() ==> final(self).grids@[grid_id as int].radii@ == old(self).grids@[grid_id as int].radii@.push(
                    area_id,
                ) && (forall|c: int|
                    0 <= c < old(self).grids@.len() && c != grid_id ==> final(self).grids@[c]
                        == old(self).grids@[c]))
                &&& (grid_id >= old(self).grids@.len() ==> final(self).grids@ == old(self).grids@)
            },
    {
        if self.areas[area_id].registered {
            return grid_id;
        }
        proof {
            assert forall|c: int, k: int|
                0 <= c < self.grids@.len() && 0 <= k < self.grids@[c].radii@.len() implies #[trigger] self.grids@[c].radii@[k]
                != area_id by {
                assert(self.areas@[self.grids@[c].radii@[k] as int].registered);
            }
        }
        let mut area = self.areas[area_id];
        area.grid_id = grid_id;
        if grid_id < self.grids.len() {
            area.registered = true;
            self.areas[area_id] = area;
            self.grids[grid_id].radii.push(area_id);
            proof {
                assert(self.grids@[grid_id as int].radii@.last() == area_id);
                assert(self.grids@[grid_id as int].radii@.contains(area_id));
                assert forall|i: int|
                    0 <= i < self.areas@.len() && (#[trigger] self.areas@[i]).registered implies self.areas@[i].grid_id
                    < self.grids@.len() && self.grids@[self.areas@[i].grid_id as int].radii@.contains(
                    i as usize,
                ) by {
                    if i != area_id {
                        assert(old(self).areas@[i].registered);
                        let c = old(self).areas@[i].grid_id;
                        assert(old(self).grids@[c as int].radii@.contains(i as usize));
                        let k = choose|k: int|
                            0 <= k < old(self).grids@[c as int].radii@.len() && old(self).grids@[c as int].radii@[k] == i as usize;
                        assert(self.grids@[c as int].radii@[k] == i as usize);
                    }
                }
            }
        } else {
            self.areas[area_id] = area;
        }
        grid_id
    }

    /// Take an area out of the named cell: a linear scan for the matching
    /// id, removing the sole match. A no-op when the cell is out of range
    /// or holds no such id.
    pub fn remove_area_from_grid(&mut self, area_id: AreaId, grid_id: GridId)
        requires
            old(self).wf(),
        ensures
            final(self).wf(),
            final(self).grid_size == old(self).grid_size,
            final(self).num_columns == old(self).num_columns,
            final(self).areas@.len() == old(self).areas@.len(),
            final(self).grids@.len() == old(self).grids@.len(),
            (grid_id >= old(self).grids@.len() || !old(self).grids@[grid_id as int].radii@.contains(
                area_id,
            )) ==> *final(self) == *old(self),
            (grid_id < old(self).grids@.len() && old(self).grids@[grid_id as int].radii@.contains(
                area_id,
            )) ==> {
                &&& area_id < old(self).areas@.len()
                &&& forall|i: int|
                    0 <= i < old(self).areas@.len() && i != area_id ==> final(self).areas@[i]
                        == old(self).areas@[i]
                &&& final(self).areas@[area_id as int].square == old(self).areas@[area_id as int].square
                &&& final(self).areas@[area_id as int].area_id == area_id
                &&& final(self).areas@[area_id as int].grid_id == old(self).areas@[area_id as int].grid_id
                &&& !final(self).areas@[area_id as int].registered
                &&& forall|c: int|
                    0 <= c < old(self).grids@.len() && c != grid_id ==> final(self).grids@[c]
                        == old(self).grids@[c]
                &&& final(self).grids@[grid_id as int].radii@.len() == old(self).grids@[grid_id as int].radii@.len() - 1
                &&& !final(self).grids@[grid_id as int].radii@.contains(area_id)
                &&& forall|x: usize|
                    x != area_id ==> (final(self).grids@[grid_id as int].radii@.contains(x)
                        <==> old(self).grids@[grid_id as int].radii@.contains(x))
            },
    {
        if grid_id >= self.grids.len() {
            return ;
        }
        let ghost old_cell = self.grids@[grid_id as int].radii@;
        let n = self.grids[grid_id].radii.len();
        let mut index: usize = 0;
        while index < n
            invariant
                *self == *old(self),
                self.wf(),
                grid_id < self.grids@.len(),
                n == self.grids@[grid_id as int].radii@.len(),
                index <= n,
                old_cell == self.grids@[grid_id as int].radii@,
                forall|k: int| 0 <= k < index ==> self.grids@[grid_id as int].radii@[k] != area_id,
            decreases n - index,
        {
            let id = self.grids[grid_id].radii[index];
            if id == area_id {
                proof {
                    assert(old_cell.contains(area_id));
                }
                self.grids[grid_id].radii.remove(index);
                let mut area = self.areas[area_id];
                area.registered = false;
                self.areas[area_id] = area;
                proof {
                    let new_cell = self.grids@[grid_id as int].radii@;
                    assert forall|k: int|
                        0 <= k < new_cell.len() implies #[trigger] new_cell[k] != area_id by {
                        if k >= index {
                            assert(new_cell[k] == old_cell[k + 1]);
                        }
                    }
                    assert(!new_cell.contains(area_id));
                    assert forall|x: usize|
                        x != area_id && old_cell.contains(x) implies new_cell.contains(x) by {
                        let k = choose|k: int| 0 <= k < old_cell.len() && old_cell[k] == x;
                        if k < index {
                            assert(new_cell[k] == x);
                        } else {
                            assert(k != index);
                            assert(new_cell[k - 1] == x);
                        }
                    }
                    assert forall|x: usize|
                        x != area_id && new_cell.contains(x) implies old_cell.contains(x) by {
                        let k = choose|k: int| 0 <= k < new_cell.len() && new_cell[k] == x;
                        if k < index {
                            assert(old_cell[k] == x);
                        } else {
                            assert(old_cell[k + 1] == x);
                        }
                    }
                    assert forall|i: int|
                        0 <= i < self.areas@.len() && (#[trigger] self.areas@[i]).registered implies self.areas@[i].grid_id
                        < self.grids@.len() && self.grids@[self.areas@[i].grid_id as int].radii@.contains(
                        i as usize,
                    ) by {
                        assert(i != area_id);
                        assert(old(self).areas@[i].registered);
                        let c = old(self).areas@[i].grid_id;
                        if c == grid_id {
                            assert(old_cell.contains(i as usize));
                            assert(i as usize != area_id);
                        } else {
                            assert(self.grids@[c as int] == old(self).grids@[c as int]);
                        }
                    }
                    assert forall|c: int, k1: int, k2: int|
                        0 <= c < self.grids@.len() && 0 <= k1 < self.grids@[c].radii@.len() && 0
                            <= k2 < self.grids@[c].radii@.len() && k1 != k2 implies #[trigger] self.grids@[c].radii@[k1]
                        != #[trigger] self.grids@[c].radii@[k2] by {
                        if c == grid_id {
                            let o1: int = if k1 < index {
                                k1
                            } else {
                                k1 + 1
                            };
                            let o2: int = if k2 < index {
                                k2
                            } else {
                                k2 + 1
                            };
                            assert(self.grids@[c].radii@[k1] == old_cell[o1]);
                            assert(self.grids@[c].radii@[k2] == old_cell[o2]);
                        }
                    }
                }
                return ;
            }
            index = index + 1;
        }
    }

    /// Whether any area filed under the named cell intersects the query
    /// square (receiver side: the tracked area's square).
    pub open spec fn spec_any_intersection(self, grid_id: int, q: Square) -> bool {
        0 <= grid_id < self.grids@.len() && exists|k: int|
            0 <= k < self.grids@[grid_id].radii@.len() && spec_intersects(
                self.areas@[#[trigger] self.grids@[grid_id].radii@[k] as int].square,
                q,
            )
    }

    /// Scan the named cell for any tracked area intersecting the query
    /// square; false for an out-of-range cell or an empty one.
    pub fn find_intersection_in_grid(&self, grid_id: GridId, square: &Square) -> (r: bool)
        requires
            self.wf(),
        ensures
            r == self.spec_any_intersection(grid_id as int, *square),
    {
        if grid_id >= self.grids.len() {
            return false;
        }
        let n = self.grids[grid_id].radii.len();
        let mut k: usize = 0;
        while k < n
            invariant
                self.wf(),
                grid_id < self.grids@.len(),
                n == self.grids@[grid_id as int].radii@.len(),
                k <= n,
                forall|j: int|
                    0 <= j < k ==> !spec_intersects(
                        self.areas@[#[trigger] self.grids@[grid_id as int].radii@[j] as int].square,
                        *square,
                    ),
            decreases n - k,
        {
            let id = self.grids[grid_id].radii[k];
            if self.areas[id].square.intersects(square) {
                return true;
            }
            k = k + 1;
        }
        false
    }
}

/// For every position inside the world the grid was built over, the cell
/// index is in range: lookups on in-world positions always name a real
/// cell.
pub proof fn lemma_cell_index_in_range(g: GridSystem, p: Vec2, width: i64, height: i64)
    requires
        g.wf(),
        1 <= width,
        1 <= height,
        g.num_columns == width / g.grid_size + 1,
        g.grids@.len() == (width / g.grid_size + 1) * (height / g.grid_size + 1),
        0 <= p.x < width,
        0 <= p.y < height,
    ensures
        0 <= g.spec_grid_index(p) < g.grids@.len(),
        g.spec_cell_of(p) == g.spec_grid_index(p),
{
    let gs = g.grid_size as int;
    let cols = width as int / gs + 1;
    let rows = height as int / gs + 1;
    let qx = p.x as int / gs;
    let qy = p.y as int / gs;
    lemma_div_pos_is_pos(p.x as int, gs);
    lemma_div_pos_is_pos(p.y as int, gs);
    lemma_div_is_ordered(p.x as int, width as int, gs);
    lemma_div_is_ordered(p.y as int, height as int, gs);
    assert(qx <= width as int / gs);
    assert(qy <= height as int / gs);
    lemma_mul_inequality(qy, rows - 1, cols);
    assert((rows - 1) * cols == rows * cols - cols) by (nonlinear_arith);
}

/// A strictly increasing sequence of cell ids: sorted, with no
/// duplicates.
pub open spec fn sorted_unique(s: Seq<GridId>) -> bool {
    forall|i: int, j: int| 0 <= i < j < s.len() ==> s[i] < s[j]
}

/// Insert a cell id into a strictly sorted list, keeping it sorted and
/// duplicate-free.
fn insert_sorted(ids: &mut Vec<GridId>, id: GridId)
    requires
        sorted_unique(old(ids)@),
    ensures
        sorted_unique(final(ids)@),
        forall|x: GridId| final(ids)@.contains(x) <==> (old(ids)@.contains(x) || x == id),
{
    let ghost pre = ids@;
    let n = ids.len();
    let mut i: usize = 0;
    while i < n && *ids.get(i).unwrap() < id
        invariant
            ids@ == pre,
            sorted_unique(ids@),
            n == ids@.len(),
            i <= n,
            forall|k: int| 0 <= k < i ==> ids@[k] < id,
        decreases n - i,
    {
        i = i + 1;
    }
    if i < n && *ids.get(i).unwrap() == id {
        proof {
            assert(pre[i as int] == id);
            assert(pre.contains(id));
        }
        return ;
    }
    ids.insert(i, id);
    proof {
        let post = ids@;
        assert(post[i as int] == id);
        assert forall|x: GridId| post.contains(x) implies (pre.contains(x) || x == id) by {
            let k = choose|k: int| 0 <= k < post.len() && post[k] == x;
            if k < i {
                assert(pre[k] == x);
            } else if k > i {
                assert(pre[k - 1] == x);
            }
        }
        assert forall|x: GridId| pre.contains(x) implies post.contains(x) by {
            let k = choose|k: int| 0 <= k < pre.len() && pre[k] == x;
            if k < i {
                assert(post[k] == x);
            } else {
                assert(post[k + 1] == x);
            }
        }
        assert(post.contains(id));
        assert forall|k1: int, k2: int| 0 <= k1 < k2 < post.len() implies post[k1] < post[k2] by {
            if i < n {
                assert(pre[i as int] > id);
            }
            if k1 < i && k2 > i {
                assert(post[k1] == pre[k1]);
                assert(post[k2] == pre[k2 - 1]);
                assert(k2 - 1 >= i);
                if k2 - 1 == i {
                    assert(pre[k2 - 1] > id);
                } else {
                    assert(pre[i as int] <= pre[k2 - 1]);
                }
            }
        }
    }
}

impl GridSystem {
    /// The cells a square must be checked against: those of its four
    /// corners and its center, as one deduplicated ascending list.
    pub fn get_grid_id_list(&self, square: &Square) -> (ids: Vec<GridId>)
        requires
            self.wf(),
            square.wf(),
        ensures
            sorted_unique(ids@),
            spec_ids_cover(*self, ids@, *square),
    {
        let mut ids: Vec<GridId> = Vec::new();
        insert_sorted(&mut ids, self.get_grid_index(&square.bottom_left));
        insert_sorted(
            &mut ids,
            self.get_grid_index(&Vec2 { x: square.top_right.x, y: square.bottom_left.y }),
        );
        insert_sorted(&mut ids, self.get_grid_index(&square.center));
        insert_sorted(
            &mut ids,
            self.get_grid_index(&Vec2 { x: square.bottom_left.x, y: square.top_right.y }),
        );
        insert_sorted(&mut ids, self.get_grid_index(&square.top_right));
        ids
    }
}

/// Whether any of the five cells covered by the query square `b` (its
/// corners and center) holds a tracked area intersecting `q`.
pub open spec fn spec_cells_hit(g: GridSystem, b: Square, q: Square) -> bool {
    ||| g.spec_any_intersection(g.spec_cell_of(b.bottom_left), q)
    ||| g.spec_any_intersection(g.spec_cell_of(Vec2 { x: b.top_right.x, y: b.bottom_left.y }), q)
    ||| g.spec_any_intersection(g.spec_cell_of(b.center), q)
    ||| g.spec_any_intersection(g.spec_cell_of(Vec2 { x: b.bottom_left.x, y: b.top_right.y }), q)
    ||| g.spec_any_intersection(g.spec_cell_of(b.top_right), q)
}

/// The id list computed for a query square covers exactly the cells of
/// its four corners and its center.
pub open spec fn spec_ids_cover(g: GridSystem, ids: Seq<GridId>, b: Square) -> bool {
    forall|x: GridId|
        ids.contains(x) <==> (x == g.spec_cell_of(b.bottom_left) || x == g.spec_cell_of(
            Vec2 { x: b.top_right.x, y: b.bottom_left.y },
        ) || x == g.spec_cell_of(b.center) || x == g.spec_cell_of(
            Vec2 { x: b.bottom_left.x, y: b.top_right.y },
        ) || x == g.spec_cell_of(b.top_right))
}

/// A cell named in a list of all-miss cells misses.
proof fn lemma_listed_cell_miss(g: GridSystem, ids: Seq<GridId>, q: Square, c: int)
    requires
        forall|j: int| 0 <= j < ids.len() ==> !g.spec_any_intersection(#[trigger] ids[j] as int, q),
        0 <= c <= usize::MAX,
        ids.contains(c as GridId),
    ensures
        !g.spec_any_intersection(c, q),
{
    let k = choose|k: int| 0 <= k < ids.len() && ids[k] == c as GridId;
    assert(!g.spec_any_intersection(ids[k] as int, q));
}

/// When every cell of the computed id list reports no intersection, the
/// whole five-cell query reports none.
pub proof fn lemma_covered_cells_miss(g: GridSystem, ids: Seq<GridId>, b: Square, q: Square)
    requires
        g.grids@.len() <= usize::MAX,
        spec_ids_cover(g, ids, b),
        forall|j: int| 0 <= j < ids.len() ==> !g.spec_any_intersection(#[trigger] ids[j] as int, q),
    ensures
        !spec_cells_hit(g, b, q),
{
    let p2 = Vec2 { x: b.top_right.x, y: b.bottom_left.y };
    let p4 = Vec2 { x: b.bottom_left.x, y: b.top_right.y };
    let c1 = g.spec_cell_of(b.bottom_left);
    let c2 = g.spec_cell_of(p2);
    let c3 = g.spec_cell_of(b.center);
    let c4 = g.spec_cell_of(p4);
    let c5 = g.spec_cell_of(b.top_right);
    assert(ids.contains(c1 as GridId));
    assert(ids.contains(c2 as GridId));
    assert(ids.contains(c3 as GridId));
    assert(ids.contains(c4 as GridId));
    assert(ids.contains(c5 as GridId));
    lemma_listed_cell_miss(g, ids, q, c1);
    lemma_listed_cell_miss(g, ids, q, c2);
    lemma_listed_cell_miss(g, ids, q, c3);
    lemma_listed_cell_miss(g, ids, q, c4);
    lemma_listed_cell_miss(g, ids, q, c5);
}

/// The effect of filing an unregistered area under `cell`: the area
/// records the cell and is registered exactly when the cell is real, in
/// which case its id is appended to that cell's collection; everything
/// else is untouched.
pub open spec fn spec_filed(pre: GridSystem, post: GridSystem, area_id: AreaId, cell: int) -> bool {
    &&& post.areas@.len() == pre.areas@.len()
    &&& post.grids@.len() == pre.grids@.len()
    &&& post.grid_size == pre.grid_size
    &&& post.num_columns == pre.num_columns
    &&& (forall|i: int|
        0 <= i < pre.areas@.len() && i != area_id ==> post.areas@[i] == pre.areas@[i])
    &&& post.areas@[area_id as int].square == pre.areas@[area_id as int].square
    &&& post.areas@[area_id as int].area_id == area_id
    &&& post.areas@[area_id as int].grid_id == cell
    &&& post.areas@[area_id as int].registered == (0 <= cell < pre.grids@.len())
    &&& (0 <= cell < pre.grids@.len() ==> post.grids@[cell].radii@ == pre.grids@[cell].radii@.push(
        area_id,
    ) && (forall|c: int|
        0 <= c < pre.grids@.len() && c != cell ==> post.grids@[c] == pre.grids@[c]))
    &&& (!(0 <= cell < pre.grids@.len()) ==> post.grids@ == pre.grids@)
}

/// One id cannot sit in two places of the grid: entries of two cells (or
/// two entries of one cell) bearing the same area id are one and the same
/// entry, in the cell the area's own `grid_id` names.
pub proof fn lemma_area_in_one_cell(g: GridSystem, c1: int, k1: int, c2: int, k2: int)
    requires
        g.wf(),
        0 <= c1 < g.grids@.len(),
        0 <= k1 < g.grids@[c1].radii@.len(),
        0 <= c2 < g.grids@.len(),
        0 <= k2 < g.grids@[c2].radii@.len(),
        g.grids@[c1].radii@[k1] == g.grids@[c2].radii@[k2],
    ensures
        c1 == c2,
        k1 == k2,
        g.areas@[g.grids@[c1].radii@[k1] as int].grid_id == c1,
        g.areas@[g.grids@[c1].radii@[k1] as int].registered,
{
}

/// Every registered area is present in the cell its `grid_id` names, so
/// with the lemma above it appears in exactly one cell; an unregistered
/// area appears in none.
pub proof fn lemma_registered_area_present(g: GridSystem, id: int)
    requires
        g.wf(),
        0 <= id < g.areas@.len(),
    ensures
        g.areas@[id].registered ==> g.areas@[id].grid_id < g.grids@.len()
            && g.grids@[g.areas@[id].grid_id as int].radii@.contains(id as GridId),
        !g.areas@[id].registered ==> forall|c: int|
            0 <= c < g.grids@.len() ==> !(#[trigger] g.grids@[c].radii@.contains(id as GridId)),
{
    if !g.areas@[id].registered {
        assert forall|c: int|
            0 <= c < g.grids@.len() implies !(#[trigger] g.grids@[c].radii@.contains(
            id as GridId,
        )) by {
            if g.grids@[c].radii@.contains(id as GridId) {
                let k = choose|k: int|
                    0 <= k < g.grids@[c].radii@.len() && g.grids@[c].radii@[k] == id as GridId;
                assert(g.areas@[id].registered);
            }
        }
    }
}

} // verus!
