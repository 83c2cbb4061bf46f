//! The library's single source of randomness.

use rand::Rng;
use vstd::prelude::*;

verus! {

/// Relies on rand::Rng::gen_range over the range `0..n`, on the
/// thread-local generator from rand::thread_rng: the draw always lies in
/// `[0, n)`; the call panics only on an empty range, which `n >= 1` rules
/// out. Nothing more is assumed of a random draw.
#[verifier::external_body]
pub(crate) fn rand_below(n: u64) -> (r: u64)
    requires
        1 <= n,
    ensures
        r < n,
{
    rand::thread_rng().gen_range(0..n)
}

} // verus!
