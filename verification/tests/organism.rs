//! The infection state machine and per-tick organism behaviour.

use pandemic_sim::grid_system::GridSystem;
use pandemic_sim::organism::{Color, InfectionState, OrganismState};
use pandemic_sim::vec2::Vec2;
use pandemic_sim::window_box::WindowBox;

fn world() -> GridSystem {
    GridSystem::new(100, 100, 10)
}

#[test]
fn new_organism_starts_uninfected() {
    let mut g = world();
    let o = OrganismState::new(Vec2::new(50, 50), 10, Vec2::new(1, 0), 6, 1000, 2, &mut g);
    assert_eq!(o.infection_state, InfectionState::Uninfected);
    assert_eq!(o.infection_time, 0);
    assert_eq!(o.position, Vec2::new(50, 50));
    assert_eq!(o.velocity, 10);
}

#[test]
fn set_infected_transitions_once() {
    let mut g = world();
    let mut o = OrganismState::new(Vec2::new(50, 50), 10, Vec2::new(1, 0), 6, 1000, 2, &mut g);
    o.set_infected(&mut g);
    assert_eq!(o.infection_state, InfectionState::Infected);
    o.set_infected(&mut g);
    assert_eq!(o.infection_state, InfectionState::Infected);
}

#[test]
fn set_infected_registers_area() {
    let mut g = world();
    let mut o = OrganismState::new(Vec2::new(55, 55), 0, Vec2::new(1, 0), 6, 1000, 2, &mut g);
    let cell = g.get_grid_index(&Vec2::new(55, 55));
    let probe = g.area_square(o.area_id);
    assert!(!g.find_intersection_in_grid(cell, &probe));
    o.set_infected(&mut g);
    assert!(g.find_intersection_in_grid(cell, &probe));
}

#[test]
fn resolve_low_roll_is_fatal() {
    let mut g = world();
    let mut o = OrganismState::new(Vec2::new(50, 50), 10, Vec2::new(1, 0), 6, 1000, 100, &mut g);
    o.set_infected(&mut g);
    o.resolve_infection(50, &mut g);
    assert_eq!(o.infection_state, InfectionState::Dead);
    assert_eq!(o.velocity, 0);
    assert_eq!(o.infection_time, 0);
}

#[test]
fn resolve_high_roll_recovers() {
    let mut g = world();
    let mut o = OrganismState::new(Vec2::new(50, 50), 10, Vec2::new(1, 0), 6, 1000, 0, &mut g);
    o.set_infected(&mut g);
    o.resolve_infection(0, &mut g);
    assert_eq!(o.infection_state, InfectionState::Recovered);
    assert_eq!(o.velocity, 10);
}

#[test]
fn resolve_takes_area_out_of_grid() {
    let mut g = world();
    let mut o = OrganismState::new(Vec2::new(55, 55), 0, Vec2::new(1, 0), 6, 1000, 0, &mut g);
    o.set_infected(&mut g);
    let cell = g.get_grid_index(&Vec2::new(55, 55));
    let probe = g.area_square(o.area_id);
    assert!(g.find_intersection_in_grid(cell, &probe));
    o.resolve_infection(99, &mut g);
    assert!(!g.find_intersection_in_grid(cell, &probe));
}

#[test]
fn update_moves_along_direction() {
    let mut g = world();
    let wb = WindowBox::new(100, 100);
    let mut o = OrganismState::new(Vec2::new(50, 50), 2, Vec2::new(1, 0), 6, 1000, 2, &mut g);
    o.update(1000, &wb, &mut g);
    assert_eq!(o.position, Vec2::new(52, 50));
    assert_eq!(o.direction, Vec2::new(1, 0));
    // The tracked square follows the organism.
    assert_eq!(g.area_square(o.area_id).center, Vec2::new(52, 50));
}

#[test]
fn update_scales_shift_by_delta() {
    let mut g = world();
    let wb = WindowBox::new(100, 100);
    let mut o = OrganismState::new(Vec2::new(10, 10), 8, Vec2::new(0, 1), 6, 1000, 2, &mut g);
    o.update(500, &wb, &mut g);
    assert_eq!(o.position, Vec2::new(10, 14));
}

#[test]
fn update_bounces_off_right_wall() {
    let mut g = world();
    let wb = WindowBox::new(100, 100);
    let mut o = OrganismState::new(Vec2::new(99, 50), 10, Vec2::new(1, 0), 6, 1000, 2, &mut g);
    o.update(1000, &wb, &mut g);
    assert_eq!(o.position, Vec2::new(99, 50));
    assert_eq!(o.direction, Vec2::new(-1, 0));
}

#[test]
fn infection_expires_into_terminal_state() {
    let mut g = world();
    let wb = WindowBox::new(100, 100);
    let mut o = OrganismState::new(Vec2::new(50, 50), 0, Vec2::new(1, 0), 6, 500, 50, &mut g);
    o.set_infected(&mut g);
    o.update(600, &wb, &mut g);
    let settled = o.infection_state;
    assert!(settled == InfectionState::Recovered || settled == InfectionState::Dead);
    assert_eq!(o.infection_time, 0);
}

#[test]
fn terminal_state_never_transitions_again() {
    let mut g = world();
    let wb = WindowBox::new(100, 100);
    let mut o = OrganismState::new(Vec2::new(50, 50), 0, Vec2::new(1, 0), 6, 500, 50, &mut g);
    o.set_infected(&mut g);
    o.update(600, &wb, &mut g);
    let settled = o.infection_state;
    assert!(settled == InfectionState::Recovered || settled == InfectionState::Dead);
    for _ in 0..1000 {
        o.update(600, &wb, &mut g);
        o.check_infected(&mut g);
        assert_eq!(o.infection_state, settled);
    }
}

#[test]
fn dead_organism_stays_put() {
    let mut g = world();
    let wb = WindowBox::new(100, 100);
    let mut o = OrganismState::new(Vec2::new(40, 40), 10, Vec2::new(1, 1), 6, 500, 100, &mut g);
    o.set_infected(&mut g);
    o.update(600, &wb, &mut g);
    assert_eq!(o.infection_state, InfectionState::Dead);
    assert_eq!(o.velocity, 0);
    let resting = o.position;
    for _ in 0..10 {
        o.update(600, &wb, &mut g);
        assert_eq!(o.position, resting);
    }
}

#[test]
fn render_colors_follow_state_and_frame() {
    let mut g = world();
    let mut o = OrganismState::new(Vec2::new(50, 50), 10, Vec2::new(1, 0), 6, 1000, 100, &mut g);
    assert_eq!(o.render(&g, 0).color, Color { r: 0, g: 128, b: 0, a: 255 });
    o.set_infected(&mut g);
    assert_eq!(o.render(&g, 0).color, Color { r: 255, g: 0, b: 0, a: 255 });
    o.resolve_infection(0, &mut g);
    assert_eq!(o.infection_state, InfectionState::Dead);
    // Dead organisms blink with the eighth-frame parity.
    assert_eq!(o.render(&g, 0).color, Color { r: 0, g: 0, b: 0, a: 255 });
    assert_eq!(o.render(&g, 8).color, Color { r: 255, g: 0, b: 255, a: 255 });
    assert_eq!(o.render(&g, 16).color, Color { r: 0, g: 0, b: 0, a: 255 });
}

#[test]
fn render_reports_bounding_square() {
    let mut g = world();
    let o = OrganismState::new(Vec2::new(50, 50), 10, Vec2::new(1, 0), 6, 1000, 2, &mut g);
    let d = o.render(&g, 0);
    assert_eq!(d.bottom_left, Vec2::new(47, 47));
    assert_eq!(d.top_right, Vec2::new(53, 53));
}

#[test]
fn recovered_organism_is_immune() {
    let mut g = world();
    let wb = WindowBox::new(100, 100);
    // One infected organism sits at (50, 50).
    let mut carrier = OrganismState::new(Vec2::new(50, 50), 0, Vec2::new(1, 0), 6, 100_000, 0, &mut g);
    carrier.set_infected(&mut g);
    // A recovered organism at the same spot is never re-infected.
    let mut survivor = OrganismState::new(Vec2::new(50, 50), 0, Vec2::new(1, 0), 6, 500, 0, &mut g);
    survivor.set_infected(&mut g);
    survivor.update(600, &wb, &mut g);
    assert_eq!(survivor.infection_state, InfectionState::Recovered);
    for _ in 0..5 {
        survivor.check_infected(&mut g);
        assert_eq!(survivor.infection_state, InfectionState::Recovered);
    }
}

#[test]
fn random_organism_respects_bounds() {
    let mut g = world();
    for _ in 0..50 {
        let o = OrganismState::random(100, 100, 6, 50, 50, 1000, 2, &mut g);
        assert!(o.position.x >= 0 && o.position.x < 100);
        assert!(o.position.y >= 0 && o.position.y < 100);
        assert!(o.velocity >= 0 && o.velocity < 50);
        assert!(o.direction.x >= -1 && o.direction.x <= 1);
        assert!(o.direction.y >= -1 && o.direction.y <= 1);
        assert!(!(o.direction.x == 0 && o.direction.y == 0));
        assert_eq!(o.infection_state, InfectionState::Uninfected);
    }
}
