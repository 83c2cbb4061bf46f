//! The simulation itself: the organism collection, the spatial grid, the
//! boundary box and the frame counter, driven one tick at a time.
//!
//! A tick has two phases. First every organism moves (boundary
//! reflection and infection-timer advance); only then is every organism
//! checked for new infections and its grid membership reconciled, so the
//! contagion scan sees one consistent snapshot of positions.

use crate::grid_system::{lemma_cell_index_in_range, GridSystem};
use crate::limits::{DELTA_MAX, WORLD_MAX};
use crate::organism::{
    is_terminal, spec_color, spec_shift, DrawRect, InfectionState, OrganismState,
};
use crate::window_box::{in_box, spec_collided_velocity, spec_projected, WindowBox};
use vstd::prelude::*;

verus! {

/// What the movement phase of a tick does to one organism: it adopts the
/// boundary-reflection result of its travel for the tick, and advances
/// its infection machine — a non-infected organism keeps state, timer and
/// speed; an infected one accumulates the tick on its timer until the
/// infection lifetime is reached, then lands in a terminal state with the
/// timer reset, losing its speed exactly when it dies.
pub open spec fn spec_moved_one(
    pre: OrganismState,
    post: OrganismState,
    b: WindowBox,
    delta: i64,
) -> bool {
    &&& post.position == spec_collided_velocity(
        b,
        pre.position,
        spec_projected(pre.position, spec_shift(pre.velocity, delta), pre.direction),
        pre.direction,
    ).position
    &&& post.direction == spec_collided_velocity(
        b,
        pre.position,
        spec_projected(pre.position, spec_shift(pre.velocity, delta), pre.direction),
        pre.direction,
    ).direction
    &&& post.area_id == pre.area_id
    &&& post.infection_lifetime_ms == pre.infection_lifetime_ms
    &&& post.fatality_rate == pre.fatality_rate
    &&& (pre.infection_state != InfectionState::Infected ==> post.infection_state
        == pre.infection_state && post.infection_time == pre.infection_time && post.velocity
        == pre.velocity)
    &&& (pre.infection_state == InfectionState::Infected && pre.infection_time + delta
        < pre.infection_lifetime_ms ==> post.infection_state == InfectionState::Infected
        && post.infection_time == pre.infection_time + delta && post.velocity == pre.velocity)
    &&& (pre.infection_state == InfectionState::Infected && pre.infection_time + delta
        >= pre.infection_lifetime_ms ==> is_terminal(post.infection_state) && post.infection_time
        == 0 && (post.infection_state == InfectionState::Dead ==> post.velocity == 0) && (
    post.infection_state == InfectionState::Recovered ==> post.velocity == pre.velocity))
}

/// What the contagion phase does to one organism: position, motion state
/// and timers are untouched; only an uninfected organism may change
/// state, and only to Infected.
pub open spec fn spec_checked_one(pre: OrganismState, post: OrganismState) -> bool {
    &&& post.position == pre.position
    &&& post.direction == pre.direction
    &&& post.velocity == pre.velocity
    &&& post.infection_time == pre.infection_time
    &&& post.infection_lifetime_ms == pre.infection_lifetime_ms
    &&& post.fatality_rate == pre.fatality_rate
    &&& post.area_id == pre.area_id
    &&& (pre.infection_state == InfectionState::Uninfected ==> post.infection_state
        == InfectionState::Uninfected || post.infection_state == InfectionState::Infected)
    &&& (pre.infection_state != InfectionState::Uninfected ==> post.infection_state
        == pre.infection_state)
}

/// What one whole tick does to one organism: the movement-phase outcome,
/// possibly followed by a contagion transition out of Uninfected.
pub open spec fn spec_ticked_one(
    pre: OrganismState,
    post: OrganismState,
    b: WindowBox,
    delta: i64,
) -> bool {
    &&& post.position == spec_collided_velocity(
        b,
        pre.position,
        spec_projected(pre.position, spec_shift(pre.velocity, delta), pre.direction),
        pre.direction,
    ).position
    &&& post.direction == spec_collided_velocity(
        b,
        pre.position,
        spec_projected(pre.position, spec_shift(pre.velocity, delta), pre.direction),
        pre.direction,
    ).direction
    &&& post.area_id == pre.area_id
    &&& post.infection_lifetime_ms == pre.infection_lifetime_ms
    &&& post.fatality_rate == pre.fatality_rate
    &&& (pre.infection_state == InfectionState::Uninfected ==> (post.infection_state
        == InfectionState::Uninfected || post.infection_state == InfectionState::Infected)
        && post.infection_time == pre.infection_time && post.velocity == pre.velocity)
    &&& (is_terminal(pre.infection_state) ==> post.infection_state == pre.infection_state
        && post.infection_time == pre.infection_time && post.velocity == pre.velocity)
    &&& (pre.infection_state == InfectionState::Infected && pre.infection_time + delta
        < pre.infection_lifetime_ms ==> post.infection_state == InfectionState::Infected
        && post.infection_time == pre.infection_time + delta && post.velocity == pre.velocity)
    &&& (pre.infection_state == InfectionState::Infected && pre.infection_time + delta
        >= pre.infection_lifetime_ms ==> is_terminal(post.infection_state) && post.infection_time
        == 0 && (post.infection_state == InfectionState::Dead ==> post.velocity == 0) && (
    post.infection_state == InfectionState::Recovered ==> post.velocity == pre.velocity))
}

/// The driver-facing description of the world: its pixel width and
/// height.
pub struct WindowAttributes {
    pub width: i64,
    pub height: i64,
}

pub struct SimulationApp {
    pub window_box: WindowBox,
    pub organisms: Vec<OrganismState>,
    pub grid_system: GridSystem,
    pub frame: u32,
}

impl SimulationApp {
    /// The boundary, the grid and every organism are consistent: each
    /// organism is well-formed, owns a live arena slot, and sits inside
    /// the boundary.
    pub open spec fn wf(self) -> bool {
        &&& self.grid_system.wf()
        &&& self.window_box.wf()
        &&& self.window_box.top_right.x <= WORLD_MAX
        &&& self.window_box.top_right.y <= WORLD_MAX
        &&& forall|i: int|
            0 <= i < self.organisms@.len() ==> (#[trigger] self.organisms@[i]).wf()
                && self.organisms@[i].area_id < self.grid_system.areas@.len() && in_box(
                self.window_box,
                self.organisms@[i].position,
            )
    }

    /// Build the simulation for the given window: a grid of 25-pixel
    /// cells over the window, and a population of randomly placed
    /// organisms, the first arrivals seeded infected while they number
    /// under the initial-infection quota and actually move.
    pub fn new(window: WindowAttributes) -> (app: SimulationApp)
        requires
            1 <= window.width <= WORLD_MAX,
            1 <= window.height <= WORLD_MAX,
            (window.width / 25 + 1) * (window.height / 25 + 1) <= usize::MAX,
        ensures
            app.wf(),
            app.frame == 0,
            app.organisms@.len() == 5999,
            app.window_box.top_right.x == window.width,
            app.window_box.top_right.y == window.height,
            forall|i: int|
                0 <= i < app.organisms@.len() ==> (#[trigger] app.organisms@[i]).infection_state
                    == InfectionState::Uninfected || app.organisms@[i].infection_state
                    == InfectionState::Infected,
            forall|i: int|
                0 <= i < app.organisms@.len() ==> (#[trigger] app.organisms@[i]).infection_lifetime_ms
                    == 1000 && app.organisms@[i].fatality_rate == 2 && 0 <= app.organisms@[i].velocity
                    < 100,
            app.grid_system.grid_size == 25,
            app.grid_system.num_columns == window.width / 25 + 1,
            app.grid_system.grids@.len() == (window.width / 25 + 1) * (window.height / 25 + 1),
            // seeding: exactly the moving organisms among the first 200
            // arrivals are seeded Infected
            forall|i: int|
                0 <= i < app.organisms@.len() ==> ((#[trigger] app.organisms@[i]).infection_state
                    == InfectionState::Infected <==> (i < 200 && app.organisms@[i].velocity > 0)),
            // each seeded organism's area is filed under the cell of its
            // position
            forall|i: int|
                0 <= i < app.organisms@.len() && (#[trigger] app.organisms@[i]).infection_state
                    == InfectionState::Infected
                    ==> app.grid_system.areas@[app.organisms@[i].area_id as int].registered
                    && app.grid_system.areas@[app.organisms@[i].area_id as int].grid_id
                    == app.grid_system.spec_cell_of(app.organisms@[i].position),
    {
        let num_organisms: usize = 6000;
        let mut num_infected: usize = 0;
        let max_infected: usize = 200;
        let percent_in_place: i64 = 50;
        let circle_radius: i64 = 3;
        let infection_lifetime_ms: i64 = 1000;
        let fatality_rate: i64 = 2;
        let grid_pixel_size: i64 = 25;
        let max_velocity: i64 = 100;
        let window_box = WindowBox::new(window.width, window.height);
        let mut organisms: Vec<OrganismState> = Vec::new();
        let mut grid_system = GridSystem::new(window.width, window.height, grid_pixel_size);
        let mut i: usize = 1;
        while i < num_organisms
            invariant
                1 <= i <= num_organisms,
                num_organisms == 6000,
                num_infected == i - 1,
                max_infected == 200,
                percent_in_place == 50,
                circle_radius == 3,
                infection_lifetime_ms == 1000,
                fatality_rate == 2,
                max_velocity == 100,
                grid_system.wf(),
                window_box.wf(),
                window_box.top_right.x == window.width,
                window_box.top_right.y == window.height,
                1 <= window.width <= WORLD_MAX,
                1 <= window.height <= WORLD_MAX,
                organisms@.len() == i - 1,
                forall|j: int|
                    0 <= j < organisms@.len() ==> (#[trigger] organisms@[j]).wf()
                        && organisms@[j].area_id < grid_system.areas@.len() && in_box(
                        window_box,
                        organisms@[j].position,
                    ) && (organisms@[j].infection_state == InfectionState::Uninfected
                        || organisms@[j].infection_state == InfectionState::Infected)
                        && organisms@[j].infection_lifetime_ms == 1000
                        && organisms@[j].fatality_rate == 2 && 0 <= organisms@[j].velocity < 100,
                grid_system.grid_size == 25,
                grid_system.num_columns == window.width / 25 + 1,
                grid_system.grids@.len() == (window.width / 25 + 1) * (window.height / 25 + 1),
                forall|j: int|
                    0 <= j < organisms@.len() ==> ((#[trigger] organisms@[j]).infection_state
                        == InfectionState::Infected <==> (j < 200 && organisms@[j].velocity > 0)),
                forall|j: int|
                    0 <= j < organisms@.len() && (#[trigger] organisms@[j]).infection_state
                        == InfectionState::Infected
                        ==> grid_system.areas@[organisms@[j].area_id as int].registered
                        && grid_system.areas@[organisms@[j].area_id as int].grid_id
                        == grid_system.spec_cell_of(organisms@[j].position),
            decreases num_organisms - i,
        {
            let mut organism = OrganismState::random(
                window.width,
                window.height,
                circle_radius,
                max_velocity,
                percent_in_place,
                infection_lifetime_ms,
                fatality_rate,
                &mut grid_system,
            );
            if num_infected < max_infected && organism.velocity > 0 {
                proof {
                    lemma_cell_index_in_range(
                        grid_system,
                        organism.position,
                        window.width,
                        window.height,
                    );
                }
                organism.set_infected(&mut grid_system);
            }
            organisms.push(organism);
            num_infected = num_infected + 1;
            i = i + 1;
        }
        SimulationApp { window_box, organisms, grid_system, frame: 0 }
    }

    /// One tick: every organism moves and advances its infection timer,
    /// then every organism is checked for contagion and its grid
    /// membership is reconciled, and the frame counter advances (wrapping
    /// silently). Terminal states survive the tick untouched.
    pub fn update(&mut self, delta_time: i64)
        requires
            old(self).wf(),
            0 <= delta_time <= DELTA_MAX,
        ensures
            final(self).wf(),
            final(self).organisms@.len() == old(self).organisms@.len(),
            final(self).window_box == old(self).window_box,
            final(self).frame == (if old(self).frame == u32::MAX {
                0u32
            } else {
                (old(self).frame + 1) as u32
            }),
            forall|i: int|
                0 <= i < old(self).organisms@.len() ==> spec_ticked_one(
                    (#[trigger] old(self).organisms@[i]),
                    final(self).organisms@[i],
                    old(self).window_box,
                    delta_time,
                ),
            forall|i: int|
                0 <= i < old(self).organisms@.len() && is_terminal(
                    (#[trigger] old(self).organisms@[i]).infection_state,
                ) ==> final(self).organisms@[i].infection_state == old(
                    self,
                ).organisms@[i].infection_state,
    {
        let n = self.organisms.len();
        let ghost pre = self.organisms@;
        let mut i: usize = 0;
        while i < n
            invariant
                n == self.organisms@.len(),
                n == pre.len(),
                i <= n,
                0 <= delta_time <= DELTA_MAX,
                self.frame == old(self).frame,
                self.grid_system.wf(),
                self.window_box == old(self).window_box,
                self.window_box.wf(),
                self.window_box.top_right.x <= WORLD_MAX,
                self.window_box.top_right.y <= WORLD_MAX,
                forall|j: int|
                    0 <= j < n ==> (#[trigger] self.organisms@[j]).wf()
                        && self.organisms@[j].area_id < self.grid_system.areas@.len() && in_box(
                        self.window_box,
                        self.organisms@[j].position,
                    ),
                forall|j: int| i <= j < n ==> self.organisms@[j] == pre[j],
                forall|j: int|
                    0 <= j < i ==> spec_moved_one(
                        (#[trigger] pre[j]),
                        self.organisms@[j],
                        old(self).window_box,
                        delta_time,
                    ),
            decreases n - i,
        {
            let window_box = self.window_box;
            self.organisms[i].update(delta_time, &window_box, &mut self.grid_system);
            i = i + 1;
        }
        let ghost mid = self.organisms@;
        let mut k: usize = 0;
        while k < n
            invariant
                n == self.organisms@.len(),
                n == mid.len(),
                k <= n,
                self.frame == old(self).frame,
                self.grid_system.wf(),
                self.window_box == old(self).window_box,
                self.window_box.wf(),
                self.window_box.top_right.x <= WORLD_MAX,
                self.window_box.top_right.y <= WORLD_MAX,
                forall|j: int|
                    0 <= j < n ==> (#[trigger] self.organisms@[j]).wf()
                        && self.organisms@[j].area_id < self.grid_system.areas@.len() && in_box(
                        self.window_box,
                        self.organisms@[j].position,
                    ),
                forall|j: int| k <= j < n ==> self.organisms@[j] == mid[j],
                forall|j: int|
                    0 <= j < k ==> spec_checked_one((#[trigger] mid[j]), self.organisms@[j]),
                forall|j: int|
                    0 <= j < n ==> spec_moved_one(
                        (#[trigger] pre[j]),
                        mid[j],
                        old(self).window_box,
                        delta_time,
                    ),
            decreases n - k,
        {
            self.organisms[k].check_infected(&mut self.grid_system);
            k = k + 1;
        }
        if self.frame == u32::MAX {
            self.frame = 0;
        } else {
            self.frame = self.frame + 1;
        }
    }

    /// The render-ready snapshot: one drawable rectangle per organism, in
    /// organism order, colored by state and frame parity.
    pub fn render(&self) -> (batch: Vec<DrawRect>)
        requires
            self.wf(),
        ensures
            batch@.len() == self.organisms@.len(),
            forall|i: int|
                0 <= i < self.organisms@.len() ==> (#[trigger] batch@[i]).bottom_left
                    == self.grid_system.areas@[self.organisms@[i].area_id as int].square.bottom_left
                    && batch@[i].top_right
                    == self.grid_system.areas@[self.organisms@[i].area_id as int].square.top_right
                    && batch@[i].color == spec_color(
                    self.organisms@[i].infection_state,
                    self.frame,
                ),
    {
        let mut batch: Vec<DrawRect> = Vec::new();
        let n = self.organisms.len();
        let mut i: usize = 0;
        while i < n
            invariant
                self.wf(),
                n == self.organisms@.len(),
                i <= n,
                batch@.len() == i,
                forall|j: int|
                    0 <= j < i ==> (#[trigger] batch@[j]).bottom_left
                        == self.grid_system.areas@[self.organisms@[j].area_id as int].square.bottom_left
                        && batch@[j].top_right
                        == self.grid_system.areas@[self.organisms@[j].area_id as int].square.top_right
                        && batch@[j].color == spec_color(
                        self.organisms@[j].infection_state,
                        self.frame,
                    ),
            decreases n - i,
        {
            let rect = self.organisms[i].render(&self.grid_system, self.frame);
            batch.push(rect);
            i = i + 1;
        }
        batch
    }
}

} // verus!
