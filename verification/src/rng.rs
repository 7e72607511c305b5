//! Trusted boundary to the `rand` crate.
//!
//! The spawn and animation policies draw uniform samples. The generator is
//! an explicit, seedable handle so that a harness can fix the sequence; the
//! wrappers state only what holds of every outcome of a draw.

use vstd::prelude::*;

verus! {

#[verifier::external_type_specification]
#[verifier::external_body]
pub struct ExStdRng(rand::rngs::StdRng);

/// Relies on `rand::SeedableRng::seed_from_u64`, which builds a `StdRng`
/// from a 64-bit seed.
#[verifier::external_body]
pub fn rng_from_seed(seed: u64) -> rand::rngs::StdRng {
    <rand::rngs::StdRng as rand::SeedableRng>::seed_from_u64(seed)
}

/// Relies on `rand::Rng::gen_range` over `lo..hi`: the sample lies in the
/// half-open range, and the call panics only when the range is empty.
#[verifier::external_body]
pub fn gen_range_i64(rng: &mut rand::rngs::StdRng, lo: i64, hi: i64) -> (r: i64)
    requires
        lo < hi,
    ensures
        lo <= r < hi,
{
    rand::Rng::gen_range(rng, lo..hi)
}

/// Relies on `rand::seq::SliceRandom::choose`: `None` exactly on an empty
/// slice, otherwise some element of the slice.
#[verifier::external_body]
pub fn choose_name(rng: &mut rand::rngs::StdRng, names: &Vec<String>) -> (r: Option<String>)
    ensures
        r is Some <==> names@.len() > 0,
        r matches Some(s) ==> exists|i: int| 0 <= i < names@.len() && s@ == names@[i]@,
{
    rand::seq::SliceRandom::choose(names.as_slice(), rng).cloned()
}

} // verus!
