//! Spatial-grid behaviour on concrete values: indexing, the covering-cell
//! list, and insertion, removal and intersection queries.

use pandemic_sim::grid_system::GridSystem;
use pandemic_sim::square::Square;
use pandemic_sim::vec2::Vec2;

#[test]
fn grid_dimensions_cover_world() {
    let g = GridSystem::new(100, 100, 10);
    assert_eq!(g.num_columns, 11);
    assert_eq!(g.grids.len(), 121);
}

#[test]
fn grid_index_inside_world_is_in_range() {
    let g = GridSystem::new(100, 100, 10);
    assert_eq!(g.get_grid_index(&Vec2::new(5, 5)), 0);
    assert_eq!(g.get_grid_index(&Vec2::new(15, 5)), 1);
    assert_eq!(g.get_grid_index(&Vec2::new(5, 15)), 11);
    assert_eq!(g.get_grid_index(&Vec2::new(95, 95)), 9 + 9 * 11);
    for x in 0..100 {
        let idx = g.get_grid_index(&Vec2::new(x, x));
        assert!(idx < g.grids.len());
    }
}

#[test]
fn grid_index_outside_world_misses() {
    let g = GridSystem::new(100, 100, 10);
    assert_eq!(g.get_grid_index(&Vec2::new(-1, 5)), 121);
    assert_eq!(g.get_grid_index(&Vec2::new(5, -1)), 121);
    assert_eq!(g.get_grid_index(&Vec2::new(2000, 2000)), 121);
}

#[test]
fn grid_id_list_sorted_and_unique() {
    let g = GridSystem::new(100, 100, 10);
    let s = Square::new(Vec2::new(10, 10), 20);
    let ids = g.get_grid_id_list(&s);
    assert_eq!(ids, vec![0, 2, 12, 22, 24]);
}

#[test]
fn grid_id_list_collapses_to_one_cell() {
    let g = GridSystem::new(100, 100, 10);
    let s = Square::new(Vec2::new(5, 5), 2);
    let ids = g.get_grid_id_list(&s);
    assert_eq!(ids, vec![0]);
}

#[test]
fn add_find_remove_roundtrip() {
    let mut g = GridSystem::new(100, 100, 10);
    let id = g.alloc_area(&Vec2::new(5, 5), 0, 4);
    g.add_area(id, 0);
    let probe = Square::new(Vec2::new(6, 6), 4);
    assert!(g.find_intersection_in_grid(0, &probe));
    assert!(!g.find_intersection_in_grid(1, &probe));
    g.remove_area_from_grid(id, 0);
    assert!(!g.find_intersection_in_grid(0, &probe));
}

#[test]
fn add_area_out_of_range_is_noop() {
    let mut g = GridSystem::new(100, 100, 10);
    let id = g.alloc_area(&Vec2::new(5, 5), 0, 4);
    g.add_area(id, 10_000);
    assert_eq!(g.area_grid_id(id), 10_000);
    let probe = Square::new(Vec2::new(5, 5), 4);
    for c in 0..g.grids.len() {
        assert!(!g.find_intersection_in_grid(c, &probe));
    }
}

#[test]
fn remove_without_match_is_noop() {
    let mut g = GridSystem::new(100, 100, 10);
    let id = g.alloc_area(&Vec2::new(5, 5), 0, 4);
    g.add_area(id, 0);
    g.remove_area_from_grid(id, 3);
    g.remove_area_from_grid(id + 7, 0);
    g.remove_area_from_grid(id, 50_000);
    let probe = Square::new(Vec2::new(5, 5), 4);
    assert!(g.find_intersection_in_grid(0, &probe));
}

#[test]
fn find_intersection_out_of_range_is_false() {
    let g = GridSystem::new(100, 100, 10);
    let probe = Square::new(Vec2::new(5, 5), 4);
    assert!(!g.find_intersection_in_grid(10_000, &probe));
}

#[test]
fn intersection_respects_square_position() {
    let mut g = GridSystem::new(100, 100, 10);
    let id = g.alloc_area(&Vec2::new(5, 5), 0, 4);
    g.add_area(id, 0);
    // A probe in the same cell but geometrically apart misses.
    let far_probe = Square::new(Vec2::new(9, 9), 1);
    assert!(!g.find_intersection_in_grid(0, &far_probe));
    // Moving the tracked square under the probe turns the query around.
    g.update_area_square(id, &Vec2::new(9, 9));
    assert!(g.find_intersection_in_grid(0, &far_probe));
}
