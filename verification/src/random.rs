//! Random values, drawn from the `rand` crate.

use vstd::prelude::*;

verus! {

/// Calls `rand::random::<u8>`. Nothing is claimed of the byte: any of them may come back.
#[verifier::external_body]
pub(crate) fn random_u8() -> u8 {
    rand::random::<u8>()
}

/// Calls `Rng::gen_range` of the thread's generator, which draws each number from `low` up to, but
/// without, `high` with the same probability. It panics where there is no such number. Which of
/// them comes back is left open.
#[verifier::external_body]
pub(crate) fn random_in(low: u32, high: u32) -> (number: u32)
    requires
        low < high,
    ensures
        low <= number < high,
{
    rand::Rng::gen_range(&mut rand::thread_rng(), low..high)
}

} // verus!
