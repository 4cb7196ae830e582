use rand::Rng;
use vstd::prelude::*;

verus! {

/// Draws one byte from the thread-local generator of the `rand` crate:
/// `rand::thread_rng()` followed by `Rng::gen_range(0x00, 0x100)`, which
/// returns a value of the half-open range and does not panic on these
/// bounds, narrowed to a byte. The body is not verified. Nothing is claimed
/// of the byte drawn: two calls may give different results. The generator
/// is seeded by the operating system on its first use in a thread, and
/// panics there if the system provides no seed.
#[verifier::external_body]
pub(crate) fn random_byte() -> (byte: u8) {
    rand::thread_rng().gen_range(0x00, 0x100) as u8
}

} // verus!
