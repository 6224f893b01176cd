//! The random source: `rand`'s standard generator, seeded by the caller.

use vstd::prelude::*;

verus! {

#[verifier::external_type_specification]
#[verifier::external_body]
pub struct ExStdRng(rand::rngs::StdRng);

/// Relies on `rand::Rng::random_range` over `0..n`: a value below `n`
/// (it panics only on an empty range, which `requires` leaves out).
#[verifier::external_body]
pub(crate) fn random_below(rng: &mut rand::rngs::StdRng, n: u64) -> (r: u64)
    requires
        n > 0,
    ensures
        r < n,
{
    rand::Rng::random_range(rng, 0..n)
}

/// Relies on `rand::Rng::random_ratio`: `true` with chance `num / den`,
/// always `true` when `num == den` and always `false` when `num == 0` (it
/// panics on `den == 0` or `num > den`, which `requires` leaves out).
#[verifier::external_body]
pub(crate) fn random_ratio(rng: &mut rand::rngs::StdRng, num: u32, den: u32) -> (r: bool)
    requires
        0 < den,
        num <= den,
    ensures
        num == 0 ==> !r,
        num == den ==> r,
{
    rand::Rng::random_ratio(rng, num, den)
}

} // verus!
