//! Integer randomness drawn from the thread-local generator of `rand`.
use rand::Rng;
use vstd::prelude::*;

verus! {

/// Smallest value a draw over the full range can take.
pub const LOW: i32 = i32::MIN;

/// Largest value a draw over the full range can take.
pub const HIGH: i32 = i32::MAX;

/// Relies on rand::Rng::gen_range over the inclusive range `low..=high`
/// (uniform sampling of i32 in rand's distributions::uniform): the value lies
/// in that range; it panics only on an empty range, which `requires` leaves out.
#[verifier::external_body]
pub(crate) fn rand_in_range(low: i32, high: i32) -> (r: i32)
    requires
        low <= high,
    ensures
        low <= r <= high,
{
    rand::thread_rng().gen_range(low..=high)
}

/// Relies on rand::random for `bool` (the Standard distribution): a fair
/// coin; nothing is promised of which side comes up.
#[verifier::external_body]
pub(crate) fn fair_coin() -> (r: bool) {
    rand::random::<bool>()
}

} // verus!
