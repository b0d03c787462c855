use vstd::prelude::*;

verus! {

/// Relies on `rand::random_range` over `lo..hi`: a uniformly sampled
/// value of the half-open range, from the thread-local generator; it
/// panics only on an empty range, which the precondition rules out.
#[verifier::external_body]
pub(crate) fn rand_range(lo: i32, hi: i32) -> (r: i32)
    requires
        lo < hi,
    ensures
        lo <= r < hi,
{
    rand::random_range(lo..hi)
}

/// Relies on `rand::random::<bool>`: a coin flip from the thread-local
/// generator; nothing is assumed of the outcome.
#[verifier::external_body]
pub(crate) fn rand_coin() -> bool {
    rand::random()
}

/// Relies on `rand::random_ratio`: true with probability
/// `num / den`, guaranteed true when `num == den` and false when
/// `num == 0`; it panics only when `den == 0` or `num > den`, which the
/// precondition rules out.
#[verifier::external_body]
pub(crate) fn rand_ratio(num: u32, den: u32) -> (r: bool)
    requires
        0 < den,
        num <= den,
    ensures
        num == den ==> r,
        num == 0 ==> !r,
{
    rand::random_ratio(num, den)
}

} // verus!
