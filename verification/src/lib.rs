//! A verified core for a 2D epidemic simulation: axis-aligned square
//! geometry, a uniform spatial grid tracking the bounding squares of
//! infected organisms, wall-reflection physics for moving points, and the
//! per-organism infection state machine, orchestrated per tick by a
//! simulation driver.
//!
//! All coordinates are integer world units; geometric predicates (overlap,
//! segment crossing) are decided exactly over the integers.

pub mod area;
pub mod grid_system;
pub mod limits;
pub mod organism;
pub mod rng;
pub mod simulation_app;
pub mod square;
pub mod vec2;
pub mod window_box;
