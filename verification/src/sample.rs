//! Random sampling for the drop and delay decisions.

use vstd::prelude::*;

verus! {

/// Relies on rand's Bernoulli::from_ratio and its Distribution::sample: a
/// sample is true with probability numerator-in-denominator; with numerator
/// zero every sample is false, with numerator equal to the denominator every
/// sample is true. The randomness comes from rand::thread_rng.
#[verifier::external_body]
pub(crate) fn sample_drop(numerator: u32, denominator: u32) -> (r: bool)
    requires
        0 < denominator,
        numerator <= denominator,
    ensures
        numerator == 0 ==> !r,
        numerator == denominator ==> r,
{
    let d = rand::distributions::Bernoulli::from_ratio(numerator, denominator).unwrap();
    rand::distributions::Distribution::sample(&d, &mut rand::thread_rng())
}

/// Relies on rand's Uniform::new_inclusive and its Distribution::sample for
/// u64: the sample lies in [low, high]. The randomness comes from
/// rand::thread_rng.
#[verifier::external_body]
pub(crate) fn sample_uniform(low: u64, high: u64) -> (r: u64)
    requires
        low <= high,
    ensures
        low <= r <= high,
{
    let d = rand::distributions::Uniform::new_inclusive(low, high);
    rand::distributions::Distribution::sample(&d, &mut rand::thread_rng())
}

} // verus!
