use rand::rngs::ThreadRng;
use rand::Rng;
use vstd::prelude::*;

verus! {

/// `rand::rngs::ThreadRng`, the random source that callers hand in. Nothing is
/// known of its state.
#[verifier::external_type_specification]
#[verifier::external_body]
pub struct ExThreadRng(ThreadRng);

/// One draw of `rand::Rng::gen_range` from the half-open range `low..high`.
///
/// Trusted, not proved: the call hands back a number of the range. It panics
/// on an empty range, which the precondition rules out. Which number comes is
/// left open, so two draws from one range may differ. One thing no
/// precondition can rule out: a `ThreadRng` takes fresh entropy from the
/// operating system from time to time, and the call panics if that is refused.
#[verifier::external_body]
pub(crate) fn gen_range(rng: &mut ThreadRng, low: i64, high: i64) -> (drawn: i64)
    requires
        low < high,
    ensures
        low <= drawn < high,
{
    rng.gen_range(low..high)
}

} // verus!
