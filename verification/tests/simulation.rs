//! Whole-world scenarios: contagion end to end, isolation at distance,
//! and the simulation driver.

use pandemic_sim::grid_system::GridSystem;
use pandemic_sim::organism::{InfectionState, OrganismState};
use pandemic_sim::simulation_app::{SimulationApp, WindowAttributes};
use pandemic_sim::vec2::Vec2;

#[test]
fn contagion_at_zero_distance() {
    // A 100x100 world with cells of 10: one seeded carrier at (5, 5) and
    // an uninfected organism at the very same position. One contagion
    // pass must infect the second organism: squares at zero distance
    // always intersect.
    let mut g = GridSystem::new(100, 100, 10);
    let mut carrier = OrganismState::new(Vec2::new(5, 5), 0, Vec2::new(1, 0), 10, 1000, 2, &mut g);
    carrier.set_infected(&mut g);
    let mut other = OrganismState::new(Vec2::new(5, 5), 0, Vec2::new(1, 0), 10, 1000, 2, &mut g);
    assert_eq!(other.infection_state, InfectionState::Uninfected);
    other.check_infected(&mut g);
    assert_eq!(other.infection_state, InfectionState::Infected);
    assert_eq!(carrier.infection_state, InfectionState::Infected);
}

#[test]
fn no_contagion_at_distance() {
    // Two organisms a thousand units apart never share or neighbour a
    // cell, so the uninfected one stays uninfected indefinitely.
    let mut g = GridSystem::new(100, 100, 10);
    let mut carrier = OrganismState::new(Vec2::new(5, 5), 0, Vec2::new(1, 0), 10, 1000, 2, &mut g);
    carrier.set_infected(&mut g);
    let mut loner = OrganismState::new(Vec2::new(1005, 5), 0, Vec2::new(1, 0), 10, 1000, 2, &mut g);
    for _ in 0..100 {
        loner.check_infected(&mut g);
        assert_eq!(loner.infection_state, InfectionState::Uninfected);
    }
}

#[test]
fn moving_carrier_keeps_one_grid_entry() {
    // An infected organism walking across cell boundaries is findable at
    // its current cell and nowhere else.
    let mut g = GridSystem::new(100, 100, 10);
    let mut carrier = OrganismState::new(Vec2::new(5, 5), 0, Vec2::new(1, 0), 4, 100_000, 2, &mut g);
    carrier.set_infected(&mut g);
    for step in 0..9 {
        // Walk right one cell at a time.
        let x = 5 + 10 * (step + 1);
        carrier.position = Vec2::new(x, 5);
        g.update_area_square(carrier.area_id, &Vec2::new(x, 5));
        carrier.check_infected(&mut g);
        let here = g.get_grid_index(&Vec2::new(x, 5));
        let probe = g.area_square(carrier.area_id);
        assert!(g.find_intersection_in_grid(here, &probe));
        for c in 0..g.grids.len() {
            if c != here {
                assert!(!g.find_intersection_in_grid(c, &probe));
            }
        }
    }
}

#[test]
fn simulation_boots_with_population() {
    let app = SimulationApp::new(WindowAttributes { width: 200, height: 200 });
    assert_eq!(app.organisms.len(), 5999);
    assert_eq!(app.frame, 0);
    assert_eq!(app.grid_system.grid_size, 25);
    assert_eq!(app.grid_system.num_columns, 200 / 25 + 1);
    assert_eq!(app.grid_system.grids.len(), 9 * 9);
    let infected = app
        .organisms
        .iter()
        .filter(|o| o.infection_state == InfectionState::Infected)
        .count();
    assert!(infected > 0);
    assert!(infected <= 200);
}

#[test]
fn simulation_seeds_moving_organisms_among_first_arrivals() {
    let app = SimulationApp::new(WindowAttributes { width: 200, height: 200 });
    for (i, o) in app.organisms.iter().enumerate() {
        let seeded = o.infection_state == InfectionState::Infected;
        assert_eq!(seeded, i < 200 && o.velocity > 0);
        if seeded {
            // A seeded organism's area sits in the cell of its position.
            let cell = app.grid_system.get_grid_index(&o.position);
            assert_eq!(app.grid_system.area_grid_id(o.area_id), cell);
            let probe = app.grid_system.area_square(o.area_id);
            assert!(app.grid_system.find_intersection_in_grid(cell, &probe));
        }
    }
}

#[test]
fn simulation_ticks_advance_frame() {
    let mut app = SimulationApp::new(WindowAttributes { width: 200, height: 200 });
    app.update(16);
    assert_eq!(app.frame, 1);
    app.update(16);
    assert_eq!(app.frame, 2);
}

#[test]
fn simulation_render_covers_population() {
    let mut app = SimulationApp::new(WindowAttributes { width: 200, height: 200 });
    app.update(16);
    let batch = app.render();
    assert_eq!(batch.len(), app.organisms.len());
}

#[test]
fn simulation_keeps_organisms_inside_world() {
    let mut app = SimulationApp::new(WindowAttributes { width: 200, height: 200 });
    for _ in 0..20 {
        app.update(250);
    }
    for o in app.organisms.iter() {
        assert!(o.position.x >= 0 && o.position.x <= 200);
        assert!(o.position.y >= 0 && o.position.y <= 200);
    }
}

#[test]
fn simulation_infection_spreads_and_resolves() {
    let mut app = SimulationApp::new(WindowAttributes { width: 200, height: 200 });
    // With a 1000 ms infection lifetime, 1100 ms of ticks resolve every
    // initially seeded infection to Recovered or Dead.
    let seeded: Vec<usize> = (0..app.organisms.len())
        .filter(|&i| app.organisms[i].infection_state == InfectionState::Infected)
        .collect();
    assert!(!seeded.is_empty());
    app.update(550);
    app.update(550);
    for &i in seeded.iter() {
        let s = app.organisms[i].infection_state;
        assert!(s == InfectionState::Recovered || s == InfectionState::Dead);
    }
}
