use vstd::prelude::*;

verus! {

/// The seedable random number generator that food placement draws from.
/// Declared so that it can appear in signatures; its values are opaque here.
#[verifier::external_type_specification]
#[verifier::external_body]
pub struct ExStdRng(rand::rngs::StdRng);

/// Relies on rand::Rng::gen_range with the half-open range `lo..hi`:
/// it returns a uniformly drawn value of that range, and panics only
/// when the range is empty.
#[verifier::external_body]
pub(crate) fn rand_range(rng: &mut rand::rngs::StdRng, lo: usize, hi: usize) -> (r: usize)
    requires
        lo < hi,
    ensures
        lo <= r < hi,
{
    rand::Rng::gen_range(rng, lo..hi)
}

} // verus!
