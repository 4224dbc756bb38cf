use vstd::prelude::*;

use rand::Rng;

verus! {

/// Relies on `rand::Rng::gen_range` on `rand::thread_rng`: a uniform draw in
/// `[0, n)`. `gen_range` panics only on an empty range, which `requires`
/// excludes; every value it returns lies inside the range.
#[verifier::external_body]
pub(crate) fn random_below(n: usize) -> (r: usize)
    requires
        0 < n,
    ensures
        r < n,
{
    rand::thread_rng().gen_range(0..n)
}

/// Relies on `rand::Rng::gen_ratio` on `rand::thread_rng`: true with
/// probability `num / den`. Its documentation promises that the result is
/// always false when `num == 0` and always true when `num == den`;
/// `gen_ratio` panics when `den == 0` or `num > den`, which `requires`
/// excludes.
#[verifier::external_body]
pub(crate) fn random_ratio(num: u32, den: u32) -> (r: bool)
    requires
        0 < den,
        num <= den,
    ensures
        num == 0 ==> r == false,
        num == den ==> r == true,
{
    rand::thread_rng().gen_ratio(num, den)
}

/// Relies on `rand::random`: a draw from the standard distribution of `T`.
/// Nothing can be promised of a random value.
pub assume_specification<T>[ rand::random::<T> ]() -> (r: T)
    where
        rand::distributions::Standard: rand::distributions::Distribution<T>,
;

} // verus!
