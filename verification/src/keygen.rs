//! Random key generation from the operating system's entropy source.

use rand::RngCore;
use vstd::prelude::*;

verus! {

/// Relies on rand::rngs::OsRng::try_fill_bytes: fills the whole buffer with
/// bytes drawn from the operating system's entropy source.  The bytes are
/// random, so nothing is promised of their values; if the entropy source is
/// unavailable the process aborts with a diagnostic instead of returning.
#[verifier::external_body]
fn random_bytes(length: usize) -> (r: Vec<u8>)
    ensures
        r@.len() == length,
{
    let mut key = vec![0u8; length];
    rand::rngs::OsRng.try_fill_bytes(&mut key).expect(
        "Failed to generate secure random bytes. \
        Ensure that the system's entropy source is available and functioning correctly.",
    );
    key
}

/// Generates a random key of the given length in bytes.  The result holds
/// exactly `length` bytes of operating-system randomness; a length of zero
/// yields an empty key.
pub fn generate_key(length: usize) -> (r: Vec<u8>)
    ensures
        r@.len() == length,
{
    random_bytes(length)
}

} // verus!
