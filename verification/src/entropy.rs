//! The source of random colour channels.

use vstd::prelude::*;

verus! {

/// One byte drawn by `rand::random::<u8>()`, which samples the thread-local
/// generator of the `rand` crate. Nothing is claimed of the byte: any value
/// may come back, and two calls may differ.
#[verifier::external_body]
pub(crate) fn random_byte() -> u8 {
    rand::random::<u8>()
}

} // verus!
