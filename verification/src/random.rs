//! The random source of the games.
use rand::Rng;
use vstd::prelude::*;

verus! {

/// A uniformly drawn integer in `low..=high`.
///
/// Calls `rand::Rng::gen_range` on the thread-local generator of
/// `rand::thread_rng`, with the inclusive range `low..=high`; it panics on an
/// empty range, which `requires` rules out. Claimed: the result lies in the
/// range. Nothing is claimed about which value is drawn.
#[verifier::external_body]
pub(crate) fn uniform_inclusive(low: i64, high: i64) -> (r: i64)
    requires
        low <= high,
    ensures
        low <= r <= high,
{
    rand::thread_rng().gen_range(low..=high)
}

} // verus!
