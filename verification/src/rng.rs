//! Trusted access to the process random number generator.

use vstd::prelude::*;

verus! {

/// Relies on `rand::random`: a fresh pseudo-random 64-bit value drawn
/// from the thread-local generator. Nothing can be promised of it.
#[verifier::external_body]
pub fn random_u64() -> u64 {
    rand::random()
}

/// Relies on `rand::random`: a fresh pseudo-random 128-bit value drawn
/// from the thread-local generator. Nothing can be promised of it.
#[verifier::external_body]
pub fn random_u128() -> u128 {
    rand::random()
}

} // verus!
