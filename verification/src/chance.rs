//! Random numbers, drawn from the thread's generator.

use vstd::prelude::*;

verus! {

/// A random byte from `rand::random`. Nothing is claimed of the byte: what
/// is done with it is proved for every value.
#[verifier::external_body]
pub(crate) fn random_byte() -> (r: u8) {
    rand::random::<u8>()
}

/// A random 32-bit number from `rand::random`. Nothing is claimed of the
/// number: what is done with it is proved for every value.
#[verifier::external_body]
pub(crate) fn random_word() -> (r: u32) {
    rand::random::<u32>()
}

} // verus!
