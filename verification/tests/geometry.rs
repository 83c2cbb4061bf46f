//! Square and boundary-reflection behaviour on concrete values.

use pandemic_sim::square::Square;
use pandemic_sim::vec2::Vec2;
use pandemic_sim::window_box::WindowBox;

#[test]
fn square_new_fields() {
    let s = Square::new(Vec2::new(10, 10), 6);
    assert_eq!(s.center, Vec2::new(10, 10));
    assert_eq!(s.size, 6);
    assert_eq!(s.half_size, 3);
    assert_eq!(s.bottom_left, Vec2::new(7, 7));
    assert_eq!(s.top_right, Vec2::new(13, 13));
}

#[test]
fn square_update_recomputes_corners() {
    let mut s = Square::new(Vec2::new(10, 10), 6);
    s.update(&Vec2::new(20, 5));
    assert_eq!(s.center, Vec2::new(20, 5));
    assert_eq!(s.bottom_left, Vec2::new(17, 2));
    assert_eq!(s.top_right, Vec2::new(23, 8));
    assert_eq!(s.size, 6);
}

#[test]
fn square_bias_doubles_size() {
    let s = Square::new(Vec2::new(10, 10), 6);
    let b = s.add_half_size_bias();
    assert_eq!(b.center, Vec2::new(10, 10));
    assert_eq!(b.size, 12);
    assert_eq!(b.bottom_left, Vec2::new(4, 4));
    assert_eq!(b.top_right, Vec2::new(16, 16));
}

#[test]
fn squares_touching_edges_intersect() {
    // A's right edge exactly coincides with B's left edge.
    let a = Square::new(Vec2::new(0, 0), 10);
    let b = Square::new(Vec2::new(10, 0), 10);
    assert_eq!(a.top_right.x, b.bottom_left.x);
    assert!(a.intersects(&b));
    assert!(b.intersects(&a));
}

#[test]
fn squares_intersect_symmetric() {
    let a = Square::new(Vec2::new(0, 0), 10);
    let b = Square::new(Vec2::new(4, 4), 10);
    assert_eq!(a.intersects(&b), b.intersects(&a));
    assert!(a.intersects(&b));
    let far = Square::new(Vec2::new(100, 100), 10);
    assert_eq!(a.intersects(&far), far.intersects(&a));
    assert!(!a.intersects(&far));
}

#[test]
fn squares_at_same_position_intersect() {
    let a = Square::new(Vec2::new(5, 5), 10);
    let b = Square::new(Vec2::new(5, 5), 10);
    assert!(a.intersects(&b));
}

#[test]
fn reflect_without_collision_advances_in_full() {
    let wb = WindowBox::new(100, 100);
    let r = wb.collided_velocity(&Vec2::new(50, 50), 10, &Vec2::new(1, 0));
    assert_eq!(r.position, Vec2::new(60, 50));
    assert_eq!(r.direction, Vec2::new(1, 0));
}

#[test]
fn reflect_right_wall_flips_x_and_holds_position() {
    let wb = WindowBox::new(100, 100);
    let r = wb.collided_velocity(&Vec2::new(99, 50), 5, &Vec2::new(1, 0));
    assert_eq!(r.position, Vec2::new(99, 50));
    assert_eq!(r.direction, Vec2::new(-1, 0));
}

#[test]
fn reflect_top_wall_flips_y_and_holds_position() {
    let wb = WindowBox::new(100, 100);
    let r = wb.collided_velocity(&Vec2::new(50, 99), 5, &Vec2::new(0, 1));
    assert_eq!(r.position, Vec2::new(50, 99));
    assert_eq!(r.direction, Vec2::new(0, -1));
}

#[test]
fn reflect_left_wall_flips_x() {
    let wb = WindowBox::new(100, 100);
    let r = wb.collided_velocity(&Vec2::new(1, 50), 5, &Vec2::new(-1, 0));
    assert_eq!(r.position, Vec2::new(1, 50));
    assert_eq!(r.direction, Vec2::new(1, 0));
}

#[test]
fn reflect_degenerate_segment_on_left_edge() {
    // A zero-length travel exactly on the left edge counts as a
    // collinear touch: the position is held.
    let wb = WindowBox::new(100, 100);
    let r = wb.collided_velocity(&Vec2::new(0, 50), 0, &Vec2::new(0, 0));
    assert_eq!(r.position, Vec2::new(0, 50));
}
