//! Numeric bounds under which every arithmetic step of the library fits in
//! the machine integer types it uses.

use vstd::prelude::*;

verus! {

/// Largest magnitude a geometric coordinate (square corner, boundary
/// corner, organism position) may take: 2^42 world units.
pub const COORD_MAX: i64 = 0x400_0000_0000;

/// Largest world width or height a grid may be built over: 2^20 units.
/// Keeps the cell count of a grid well inside `usize`.
pub const WORLD_MAX: i64 = 0x10_0000;

/// Largest scalar speed of an organism, in units per second.
pub const VEL_MAX: i64 = 0x10_0000;

/// Largest time step for one tick, in milliseconds.
pub const DELTA_MAX: i64 = 0x2000_0000;

/// Largest travel distance accepted by the wall-reflection routine.
pub const DIST_MAX: i64 = 0x100_0000_0000;

/// Largest magnitude of a direction-vector component.
pub const DIR_MAX: i64 = 0x10_0000;

/// Bound on a product of factors bounded by `m` and `n`.
pub proof fn lemma_mul_bounds(a: int, b: int, m: int, n: int) by (nonlinear_arith)
    requires
        -m <= a <= m,
        -n <= b <= n,
        0 <= m,
        0 <= n,
    ensures
        -(m * n) <= a * b <= m * n,
{
}

} // verus!
