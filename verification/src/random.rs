//! Random numbers.

use vstd::prelude::*;

verus! {

/// A random number from `rand::random::<u32>`, that is from the generator of the
/// calling thread. Any value can come, so nothing is claimed of it.
#[verifier::external_body]
pub(crate) fn random_u32() -> (number: u32) {
    rand::random::<u32>()
}

/// A random number from `rand::random::<u16>`, that is from the generator of the
/// calling thread. Any value can come, so nothing is claimed of it.
#[verifier::external_body]
pub(crate) fn random_u16() -> (number: u16) {
    rand::random::<u16>()
}

} // verus!
