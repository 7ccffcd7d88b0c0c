//! The stochastic source: a single trusted wrapper over the `rand` crate.
//! Every random quantity the simulation consumes is drawn here and handed
//! to the verified step functions as a plain value.

use vstd::prelude::*;

verus! {

/// Relies on `rand::Rng::gen_range` on `thread_rng`: a value drawn from the
/// inclusive range `lo..=hi`, which panics only on an empty range.
#[verifier::external_body]
pub fn sample_range(lo: i64, hi: i64) -> (r: i64)
    requires
        lo <= hi,
    ensures
        lo <= r <= hi,
{
    rand::Rng::gen_range(&mut rand::thread_rng(), lo..=hi)
}

} // verus!
