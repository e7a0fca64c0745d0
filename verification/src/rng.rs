//! The engine's only source of random data: fresh buffers for random passes
//! and for the free-space filler.

use rand::RngCore;
use vstd::prelude::*;

verus! {

/// Relies on `rand::thread_rng` and `RngCore::fill_bytes` (rand 0.8):
/// `fill_bytes` overwrites the whole buffer with output of the thread-local
/// generator. Only the length is claimed; the content depends on the
/// generator's state, so nothing can be promised of it.
#[verifier::external_body]
pub(crate) fn random_bytes(len: usize) -> (r: Vec<u8>)
    ensures
        r@.len() == len,
{
    let mut buf = vec![0u8; len];
    rand::thread_rng().fill_bytes(&mut buf);
    buf
}

} // verus!
