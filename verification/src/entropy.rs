//! The source of random bytes.

use rand::Rng;
use vstd::prelude::*;

verus! {

/// Draws one byte from `rand::rng()`, the thread-local generator of the
/// `rand` crate, with `Rng::random`.
///
/// Nothing is claimed of the byte: any value may come back, and two calls
/// may differ. The generator panics only where the operating system cannot
/// seed it.
#[verifier::external_body]
pub(crate) fn random_byte() -> (byte: u8) {
    let mut rng = rand::rng();
    rng.random()
}

} // verus!
