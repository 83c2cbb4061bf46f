//! One simulated organism: position, speed and facing direction, the
//! infection state machine, and the bounding area it keeps registered in
//! the spatial grid while infected.

use crate::area::AreaId;
use crate::grid_system::{lemma_covered_cells_miss, spec_cells_hit, spec_filed, spec_ids_cover, GridSystem};
use crate::limits::{COORD_MAX, DELTA_MAX, VEL_MAX, WORLD_MAX};
use crate::rng::rand_below;
use crate::square::{spec_biased, Square};
use crate::vec2::Vec2;
use crate::window_box::{in_box, spec_collided_velocity, spec_projected, WindowBox};
use vstd::arithmetic::div_mod::lemma_div_is_ordered;
use vstd::prelude::*;

verus! {

/// The infection state machine: `Uninfected -> Infected -> {Recovered,
/// Dead}`, with `Recovered` and `Dead` terminal. A recovered organism is
/// immune for life.
#[derive(Clone, Copy, PartialEq, Eq, Structural, Debug)]
pub enum InfectionState {
    Uninfected,
    Infected,
    Recovered,
    Dead,
}

/// A state from which no further transition happens.
pub open spec fn is_terminal(s: InfectionState) -> bool {
    s == InfectionState::Recovered || s == InfectionState::Dead
}

/// The color an organism is drawn in: plain RGBA channels.
#[derive(Clone, Copy, PartialEq, Eq, Structural, Debug)]
pub struct Color {
    pub r: u8,
    pub g: u8,
    pub b: u8,
    pub a: u8,
}

/// One render-ready rectangle: the organism's bounding square and its
/// fill color.
#[derive(Clone, Copy, PartialEq, Eq, Structural, Debug)]
pub struct DrawRect {
    pub bottom_left: Vec2,
    pub top_right: Vec2,
    pub color: Color,
}

/// The fill color as a pure function of infection state and frame
/// parity: green while uninfected, red while infected, grey when
/// recovered; dead organisms blink between magenta and black every
/// eighth frame.
pub open spec fn spec_color(state: InfectionState, frame: u32) -> Color {
    match state {
        InfectionState::Uninfected => Color { r: 0, g: 128, b: 0, a: 255 },
        InfectionState::Infected => Color { r: 255, g: 0, b: 0, a: 255 },
        InfectionState::Recovered => Color { r: 64, g: 64, b: 64, a: 255 },
        InfectionState::Dead => {
            if (frame >> 3) & 1 == 1 {
                Color { r: 255, g: 0, b: 255, a: 255 }
            } else {
                Color { r: 0, g: 0, b: 0, a: 255 }
            }
        },
    }
}

/// The travel distance of one tick: speed scaled by the tick length in
/// milliseconds.
pub open spec fn spec_shift(velocity: i64, delta_ms: i64) -> i64 {
    (velocity * delta_ms / 1000) as i64
}

/// Whether the contagion scan finds a hit for the named area: some cell
/// covered by the area's doubled query square holds a tracked area whose
/// square intersects the plain query square.
pub open spec fn spec_hit(g: GridSystem, area_id: AreaId) -> bool {
    let q = g.areas@[area_id as int].square;
    spec_cells_hit(g, spec_biased(q), q)
}

pub struct OrganismState {
    pub position: Vec2,
    pub area_id: AreaId,
    pub velocity: i64,
    pub direction: Vec2,
    pub infection_time: i64,
    pub infection_lifetime_ms: i64,
    pub fatality_rate: i64,
    pub infection_state: InfectionState,
}

impl OrganismState {
    /// Speed, direction, timers and position all within the ranges the
    /// arithmetic of one tick stays exact under.
    pub open spec fn wf(self) -> bool {
        &&& 0 <= self.velocity <= VEL_MAX
        &&& -1 <= self.direction.x <= 1
        &&& -1 <= self.direction.y <= 1
        &&& 0 <= self.infection_time <= self.infection_lifetime_ms
        &&& 0 <= self.infection_lifetime_ms <= DELTA_MAX
        &&& 0 <= self.fatality_rate <= 100
        &&& -COORD_MAX <= self.position.x <= COORD_MAX
        &&& -COORD_MAX <= self.position.y <= COORD_MAX
    }

    /// Build an organism at a known position, allocating its bounding
    /// area in the grid's arena, uninfected and with its infection timer
    /// at zero.
    pub fn new(
        position: Vec2,
        velocity: i64,
        direction: Vec2,
        size: i64,
        infection_lifetime_ms: i64,
        fatality_rate: i64,
        grid_system: &mut GridSystem,
    ) -> (o: OrganismState)
        requires
            old(grid_system).wf(),
            0 <= size,
            size + size <= COORD_MAX,
            -COORD_MAX <= position.x - size,
            position.x + size <= COORD_MAX,
            -COORD_MAX <= position.y - size,
            position.y + size <= COORD_MAX,
            0 <= velocity <= VEL_MAX,
            -1 <= direction.x <= 1,
            -1 <= direction.y <= 1,
            0 <= infection_lifetime_ms <= DELTA_MAX,
            0 <= fatality_rate <= 100,
        ensures
            final(grid_system).wf(),
            o.wf(),
            o.position == position,
            o.velocity == velocity,
            o.direction == direction,
            o.infection_state == InfectionState::Uninfected,
            o.infection_time == 0,
            o.infection_lifetime_ms == infection_lifetime_ms,
            o.fatality_rate == fatality_rate,
            o.area_id == old(grid_system).areas@.len(),
            final(grid_system).areas@.len() == old(grid_system).areas@.len() + 1,
            final(grid_system).grids@ == old(grid_system).grids@,
            final(grid_system).grid_size == old(grid_system).grid_size,
            final(grid_system).num_columns == old(grid_system).num_columns,
            forall|i: int|
                0 <= i < old(grid_system).areas@.len() ==> final(grid_system).areas@[i] == old(grid_system).areas@[i],
            final(grid_system).areas@[o.area_id as int].square.center == position,
            final(grid_system).areas@[o.area_id as int].square.size == size,
            final(grid_system).areas@[o.area_id as int].grid_id == old(grid_system).spec_cell_of(position),
            !final(grid_system).areas@[o.area_id as int].registered,
    {
        let grid_id = grid_system.get_grid_index(&position);
        let area_id = grid_system.alloc_area(&position, grid_id, size);
        OrganismState {
            position,
            area_id,
            velocity,
            direction,
            infection_time: 0,
            infection_lifetime_ms,
            fatality_rate,
            infection_state: InfectionState::Uninfected,
        }
    }

    /// Build an organism at a random in-world position: a random speed
    /// (zero for roughly `percentage_in_place` of draws), a random
    /// non-zero facing direction, uninfected.
    pub fn random(
        width: i64,
        height: i64,
        size: i64,
        max_velocity: i64,
        percentage_in_place: i64,
        infection_lifetime_ms: i64,
        fatality_rate: i64,
        grid_system: &mut GridSystem,
    ) -> (o: OrganismState)
        requires
            old(grid_system).wf(),
            1 <= width <= WORLD_MAX,
            1 <= height <= WORLD_MAX,
            0 <= size <= WORLD_MAX,
            1 <= max_velocity <= VEL_MAX,
            0 <= percentage_in_place <= 100,
            0 <= infection_lifetime_ms <= DELTA_MAX,
            0 <= fatality_rate <= 100,
        ensures
            final(grid_system).wf(),
            o.wf(),
            0 <= o.position.x < width,
            0 <= o.position.y < height,
            0 <= o.velocity < max_velocity,
            !(o.direction.x == 0 && o.direction.y == 0),
            o.infection_state == InfectionState::Uninfected,
            o.infection_time == 0,
            o.infection_lifetime_ms == infection_lifetime_ms,
            o.fatality_rate == fatality_rate,
            o.area_id == old(grid_system).areas@.len(),
            final(grid_system).areas@.len() == old(grid_system).areas@.len() + 1,
            final(grid_system).grids@ == old(grid_system).grids@,
            final(grid_system).grid_size == old(grid_system).grid_size,
            final(grid_system).num_columns == old(grid_system).num_columns,
            forall|i: int|
                0 <= i < old(grid_system).areas@.len() ==> final(grid_system).areas@[i] == old(grid_system).areas@[i],
            final(grid_system).areas@[o.area_id as int].square.center == o.position,
            final(grid_system).areas@[o.area_id as int].square.size == size,
            final(grid_system).areas@[o.area_id as int].grid_id == old(
                grid_system,
            ).spec_cell_of(o.position),
            !final(grid_system).areas@[o.area_id as int].registered,
    {
        let x = rand_below(width as u64) as i64;
        let y = rand_below(height as u64) as i64;
        let velocity: i64 = if rand_below(100) < (percentage_in_place as u64) {
            0
        } else {
            rand_below(max_velocity as u64) as i64
        };
        let dx = (rand_below(3) as i64) - 1;
        let dy: i64 = if dx == 0 {
            if rand_below(2) == 0 {
                -1
            } else {
                1
            }
        } else {
            (rand_below(3) as i64) - 1
        };
        Self::new(
            Vec2 { x, y },
            velocity,
            Vec2 { x: dx, y: dy },
            size,
            infection_lifetime_ms,
            fatality_rate,
            grid_system,
        )
    }

    /// Seed an infection from outside: an uninfected organism becomes
    /// infected and its area is filed under the cell of its current
    /// position; in any other state nothing happens.
    pub fn set_infected(&mut self, grid_system: &mut GridSystem)
        requires
            old(self).wf(),
            old(grid_system).wf(),
            old(self).area_id < old(grid_system).areas@.len(),
        ensures
            final(self).wf(),
            final(grid_system).wf(),
            final(self).position == old(self).position,
            final(self).velocity == old(self).velocity,
            final(self).direction == old(self).direction,
            final(self).infection_time == old(self).infection_time,
            final(self).infection_lifetime_ms == old(self).infection_lifetime_ms,
            final(self).fatality_rate == old(self).fatality_rate,
            final(self).area_id == old(self).area_id,
            old(self).infection_state == InfectionState::Uninfected ==> final(self).infection_state == InfectionState::Infected,
            old(self).infection_state != InfectionState::Uninfected ==> *final(self) == *old(self)
                && *final(grid_system) == *old(grid_system),
            old(self).infection_state == InfectionState::Uninfected && !old(grid_system).areas@[old(self).area_id as int].registered ==> spec_filed(
                *old(grid_system),
                *final(grid_system),
                old(self).area_id,
                old(grid_system).spec_cell_of(old(self).position),
            ),
            old(self).infection_state == InfectionState::Uninfected && old(grid_system).areas@[old(self).area_id as int].registered ==> *final(grid_system) == *old(grid_system),
    {
        if self.infection_state == InfectionState::Uninfected {
            let grid_id = grid_system.get_grid_index(&self.position);
            grid_system.add_area(self.area_id, grid_id);
            self.infection_state = InfectionState::Infected;
        }
    }

    /// Resolve an expired infection with the given percentage roll: a
    /// roll under the fatality rate means death (and the organism stops
    /// moving for good), any other roll means recovery; either way the
    /// timer resets and the organism's area leaves the grid, since only
    /// infected organisms are tracked.
    pub fn resolve_infection(&mut self, roll: i64, grid_system: &mut GridSystem)
        requires
            old(grid_system).wf(),
            old(self).area_id < old(grid_system).areas@.len(),
            old(self).infection_state == InfectionState::Infected,
            0 <= roll < 100,
        ensures
            final(grid_system).wf(),
            roll < old(self).fatality_rate ==> final(self).infection_state == InfectionState::Dead
                && final(self).velocity == 0,
            roll >= old(self).fatality_rate ==> final(self).infection_state
                == InfectionState::Recovered && final(self).velocity == old(self).velocity,
            is_terminal(final(self).infection_state),
            final(self).infection_time == 0,
            final(self).position == old(self).position,
            final(self).direction == old(self).direction,
            final(self).infection_lifetime_ms == old(self).infection_lifetime_ms,
            final(self).fatality_rate == old(self).fatality_rate,
            final(self).area_id == old(self).area_id,
            final(grid_system).areas@.len() == old(grid_system).areas@.len(),
            final(grid_system).grids@.len() == old(grid_system).grids@.len(),
            final(grid_system).grid_size == old(grid_system).grid_size,
            final(grid_system).num_columns == old(grid_system).num_columns,
            forall|i: int|
                0 <= i < old(grid_system).areas@.len() && i != old(self).area_id ==> final(grid_system).areas@[i] == old(grid_system).areas@[i],
            final(grid_system).areas@[old(self).area_id as int].square == old(grid_system).areas@[old(self).area_id as int].square,
            !final(grid_system).areas@[old(self).area_id as int].registered,
            !old(grid_system).areas@[old(self).area_id as int].registered ==> *final(grid_system)
                == *old(grid_system),
            old(grid_system).areas@[old(self).area_id as int].registered ==> {
                let og = old(grid_system).areas@[old(self).area_id as int].grid_id;
                &&& final(grid_system).grids@[og as int].radii@.len() == old(grid_system).grids@[og as int].radii@.len() - 1
                &&& !final(grid_system).grids@[og as int].radii@.contains(old(self).area_id)
                &&& (forall|x: AreaId|
                    x != old(self).area_id ==> (final(grid_system).grids@[og as int].radii@.contains(x) <==> old(grid_system).grids@[og as int].radii@.contains(x)))
                &&& (forall|c: int|
                    0 <= c < old(grid_system).grids@.len() && c != og ==> final(grid_system).grids@[c] == old(grid_system).grids@[c])
            },
    {
        if roll < self.fatality_rate {
            self.infection_state = InfectionState::Dead;
            self.velocity = 0;
        } else {
            self.infection_state = InfectionState::Recovered;
        }
        self.infection_time = 0;
        let grid_id = grid_system.area_grid_id(self.area_id);
        grid_system.remove_area_from_grid(self.area_id, grid_id);
    }

    /// One movement-and-timer tick: project the travel for `delta_ms`,
    /// reflect it off the boundary, adopt the resulting position and
    /// direction; an infected organism advances its infection timer and,
    /// once the timer reaches the infection lifetime, resolves to Dead or
    /// Recovered by a fresh percentage roll; finally the organism's area
    /// square follows it to the new position. Terminal states never
    /// change again, and an organism inside the boundary stays inside
    /// it.
    pub fn update(&mut self, delta_ms: i64, window_box: &WindowBox, grid_system: &mut GridSystem)
        requires
            old(self).wf(),
            old(grid_system).wf(),
            old(self).area_id < old(grid_system).areas@.len(),
            window_box.wf(),
            window_box.top_right.x <= WORLD_MAX,
            window_box.top_right.y <= WORLD_MAX,
            in_box(*window_box, old(self).position),
            0 <= delta_ms <= DELTA_MAX,
        ensures
            final(self).wf(),
            final(grid_system).wf(),
            in_box(*window_box, final(self).position),
            // motion: exactly the boundary-reflection result
            final(self).position == spec_collided_velocity(
                *window_box,
                old(self).position,
                spec_projected(
                    old(self).position,
                    spec_shift(old(self).velocity, delta_ms),
                    old(self).direction,
                ),
                old(self).direction,
            ).position,
            final(self).direction == spec_collided_velocity(
                *window_box,
                old(self).position,
                spec_projected(
                    old(self).position,
                    spec_shift(old(self).velocity, delta_ms),
                    old(self).direction,
                ),
                old(self).direction,
            ).direction,
            old(self).velocity == 0 ==> final(self).position == old(self).position,
            // the state machine
            old(self).infection_state != InfectionState::Infected ==> final(self).infection_state
                == old(self).infection_state && final(self).infection_time == old(self).infection_time && final(self).velocity == old(self).velocity && final(grid_system).grids@ == old(grid_system).grids@ && final(grid_system).areas@[old(self).area_id as int].grid_id == old(grid_system).areas@[old(self).area_id as int].grid_id && final(grid_system).areas@[old(self).area_id as int].registered == old(grid_system).areas@[old(self).area_id as int].registered,
            old(self).infection_state == InfectionState::Infected && old(self).infection_time
                + delta_ms < old(self).infection_lifetime_ms ==> final(self).infection_state
                == InfectionState::Infected && final(self).infection_time == old(self).infection_time + delta_ms && final(self).velocity == old(self).velocity && final(grid_system).grids@ == old(grid_system).grids@ && final(grid_system).areas@[old(self).area_id as int].grid_id == old(grid_system).areas@[old(self).area_id as int].grid_id && final(grid_system).areas@[old(self).area_id as int].registered == old(grid_system).areas@[old(self).area_id as int].registered,
            old(self).infection_state == InfectionState::Infected && old(self).infection_time
                + delta_ms >= old(self).infection_lifetime_ms ==> is_terminal(
                final(self).infection_state,
            ) && final(self).infection_time == 0 && (final(self).infection_state
                == InfectionState::Dead ==> final(self).velocity == 0) && (final(self).infection_state == InfectionState::Recovered ==> final(self).velocity == old(self).velocity) && !final(grid_system).areas@[old(self).area_id as int].registered,
            // untouched organism fields
            final(self).infection_lifetime_ms == old(self).infection_lifetime_ms,
            final(self).fatality_rate == old(self).fatality_rate,
            final(self).area_id == old(self).area_id,
            // the grid keeps its shape, and the organism's square follows it
            final(grid_system).areas@.len() == old(grid_system).areas@.len(),
            final(grid_system).grids@.len() == old(grid_system).grids@.len(),
            final(grid_system).grid_size == old(grid_system).grid_size,
            final(grid_system).num_columns == old(grid_system).num_columns,
            forall|i: int|
                0 <= i < old(grid_system).areas@.len() && i != old(self).area_id ==> final(grid_system).areas@[i] == old(grid_system).areas@[i],
            final(grid_system).areas@[old(self).area_id as int].square.center == final(self).position,
            final(grid_system).areas@[old(self).area_id as int].square.size == old(grid_system).areas@[old(self).area_id as int].square.size,
    {
        proof {
            crate::limits::lemma_mul_bounds(
                old(self).velocity as int,
                delta_ms as int,
                VEL_MAX as int,
                DELTA_MAX as int,
            );
            lemma_div_is_ordered(
                old(self).velocity * delta_ms,
                VEL_MAX as int * DELTA_MAX as int,
                1000,
            );
        }
        let shift64: u64 = (self.velocity as u64) * (delta_ms as u64) / 1000;
        let shift: i64 = shift64 as i64;
        let result = window_box.collided_velocity(&self.position, shift, &self.direction);
        proof {
            if old(self).velocity == 0 {
                assert(spec_shift(old(self).velocity, delta_ms) == 0);
                let proj = spec_projected(old(self).position, 0, old(self).direction);
                assert(proj.x == old(self).position.x);
                assert(proj.y == old(self).position.y);
                assert(proj == old(self).position);
            }
        }
        self.position = result.position;
        self.direction = result.direction;
        if self.infection_state == InfectionState::Infected {
            self.infection_time = self.infection_time + delta_ms;
            if self.infection_time >= self.infection_lifetime_ms {
                let roll = rand_below(100) as i64;
                self.resolve_infection(roll, grid_system);
            }
        }
        grid_system.update_area_square(self.area_id, &self.position);
    }

    /// The contagion-and-bookkeeping tick. An uninfected organism scans
    /// the cells covered by its doubled query square and becomes infected
    /// on the first cell holding an intersecting tracked area. Then, for
    /// an infected organism (a freshly infected one included), if the
    /// cell of its current position differs from the cell its area was
    /// last filed under, the area moves: removed from the old cell, filed
    /// under the new one.
    pub fn check_infected(&mut self, grid_system: &mut GridSystem)
        requires
            old(self).wf(),
            old(grid_system).wf(),
            old(self).area_id < old(grid_system).areas@.len(),
        ensures
            final(self).wf(),
            final(grid_system).wf(),
            final(self).position == old(self).position,
            final(self).velocity == old(self).velocity,
            final(self).direction == old(self).direction,
            final(self).infection_time == old(self).infection_time,
            final(self).infection_lifetime_ms == old(self).infection_lifetime_ms,
            final(self).fatality_rate == old(self).fatality_rate,
            final(self).area_id == old(self).area_id,
            // exactly when an uninfected organism is infected
            final(self).infection_state == (if old(self).infection_state
                == InfectionState::Uninfected && spec_hit(*old(grid_system), old(self).area_id) {
                InfectionState::Infected
            } else {
                old(self).infection_state
            }),
            is_terminal(old(self).infection_state) ==> final(self).infection_state == old(self).infection_state,
            // the grid's shape and every square are untouched
            final(grid_system).areas@.len() == old(grid_system).areas@.len(),
            final(grid_system).grids@.len() == old(grid_system).grids@.len(),
            final(grid_system).grid_size == old(grid_system).grid_size,
            final(grid_system).num_columns == old(grid_system).num_columns,
            forall|i: int|
                0 <= i < old(grid_system).areas@.len() ==> (#[trigger] final(grid_system).areas@[i]).square == old(grid_system).areas@[i].square && final(grid_system).areas@[i].area_id == old(grid_system).areas@[i].area_id,
            // cell membership: unchanged unless an infected organism
            // changed cells
            (final(self).infection_state != InfectionState::Infected || old(grid_system).areas@[old(self).area_id as int].grid_id == old(grid_system).spec_cell_of(
                old(self).position,
            )) ==> *final(grid_system) == *old(grid_system),
            (final(self).infection_state == InfectionState::Infected && old(grid_system).areas@[old(self).area_id as int].grid_id != old(grid_system).spec_cell_of(
                old(self).position,
            ) && !old(grid_system).areas@[old(self).area_id as int].registered) ==> spec_filed(
                *old(grid_system),
                *final(grid_system),
                old(self).area_id,
                old(grid_system).spec_cell_of(old(self).position),
            ),
            (final(self).infection_state == InfectionState::Infected && old(grid_system).areas@[old(self).area_id as int].grid_id != old(grid_system).spec_cell_of(
                old(self).position,
            ) && old(grid_system).areas@[old(self).area_id as int].registered) ==> {
                let aid = old(self).area_id;
                let og = old(grid_system).areas@[aid as int].grid_id;
                let ng = old(grid_system).spec_cell_of(old(self).position);
                &&& forall|i: int|
                    0 <= i < old(grid_system).areas@.len() && i != aid ==> final(grid_system).areas@[i] == old(grid_system).areas@[i]
                &&& final(grid_system).areas@[aid as int].grid_id == ng
                &&& final(grid_system).areas@[aid as int].registered == (0 <= ng < old(grid_system).grids@.len())
                &&& final(grid_system).grids@[og as int].radii@.len() == old(grid_system).grids@[og as int].radii@.len() - 1
                &&& !final(grid_system).grids@[og as int].radii@.contains(aid)
                &&& (forall|x: AreaId|
                    x != aid ==> (final(grid_system).grids@[og as int].radii@.contains(x) <==> old(grid_system).grids@[og as int].radii@.contains(x)))
                &&& (0 <= ng < old(grid_system).grids@.len() ==> final(grid_system).grids@[ng].radii@ == old(grid_system).grids@[ng].radii@.push(aid))
                &&& (forall|c: int|
                    0 <= c < old(grid_system).grids@.len() && c != og && c != ng ==> final(grid_system).grids@[c] == old(grid_system).grids@[c])
            },
    {
        let old_grid_id = grid_system.area_grid_id(self.area_id);
        let new_grid_id = grid_system.get_grid_index(&self.position);
        if self.infection_state == InfectionState::Uninfected {
            let query = grid_system.area_square(self.area_id);
            proof {
                assert(grid_system.areas@[self.area_id as int].bounded());
            }
            let biased = query.add_half_size_bias();
            let grid_ids = grid_system.get_grid_id_list(&biased);
            let n = grid_ids.len();
            let mut i: usize = 0;
            let mut found = false;
            while i < n && !found
                invariant
                    grid_system.wf(),
                    *self == *old(self),
                    *grid_system == *old(grid_system),
                    n == grid_ids@.len(),
                    i <= n,
                    query == grid_system.areas@[self.area_id as int].square,
                    self.area_id < grid_system.areas@.len(),
                    biased == spec_biased(query),
                    spec_ids_cover(*grid_system, grid_ids@, biased),
                    !found ==> forall|j: int|
                        0 <= j < i ==> !grid_system.spec_any_intersection(
                            grid_ids@[j] as int,
                            query,
                        ),
                    found ==> spec_cells_hit(*grid_system, biased, query),
                decreases n - i,
            {
                if grid_system.find_intersection_in_grid(*grid_ids.get(i).unwrap(), &query) {
                    proof {
                        assert(0 <= (i as int) && (i as int) < grid_ids@.len());
                        assert(grid_ids@.contains(grid_ids@[i as int]));
                    }
                    found = true;
                }
                i = i + 1;
            }
            if found {
                self.infection_state = InfectionState::Infected;
            } else {
                proof {
                    lemma_covered_cells_miss(*grid_system, grid_ids@, biased, query);
                }
            }
        }
        if self.infection_state == InfectionState::Infected {
            if old_grid_id != new_grid_id {
                grid_system.remove_area_from_grid(self.area_id, old_grid_id);
                grid_system.add_area(self.area_id, new_grid_id);
            }
        }
    }

    /// The render-ready record for this organism: its bounding square
    /// and the color of its current state under the given frame counter.
    pub fn render(&self, grid_system: &GridSystem, frame: u32) -> (d: DrawRect)
        requires
            grid_system.wf(),
            self.area_id < grid_system.areas@.len(),
        ensures
            d.bottom_left == grid_system.areas@[self.area_id as int].square.bottom_left,
            d.top_right == grid_system.areas@[self.area_id as int].square.top_right,
            d.color == spec_color(self.infection_state, frame),
    {
        let square = grid_system.area_square(self.area_id);
        let color = match self.infection_state {
            InfectionState::Uninfected => Color { r: 0, g: 128, b: 0, a: 255 },
            InfectionState::Infected => Color { r: 255, g: 0, b: 0, a: 255 },
            InfectionState::Recovered => Color { r: 64, g: 64, b: 64, a: 255 },
            InfectionState::Dead => {
                if (frame >> 3) & 1 == 1 {
                    Color { r: 255, g: 0, b: 255, a: 255 }
                } else {
                    Color { r: 0, g: 0, b: 0, a: 255 }
                }
            },
        };
        DrawRect { bottom_left: square.bottom_left, top_right: square.top_right, color }
    }
}

} // verus!
