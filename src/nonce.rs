//! Fresh nonces from the operating system's random source.
use vstd::prelude::*;

use rand::rngs::OsRng;
use rand::RngCore;

use crate::codec::NONCE_LEN;
use crate::error::CryptError;

verus! {

#[verifier::external_type_specification]
#[verifier::external_body]
pub struct ExRandError(rand::Error);

/// Relies on rand's `OsRng` through `RngCore::try_fill_bytes`: it fills the
/// buffer in place from the operating system, which never changes its length,
/// and reports a failure of the operating system's source as an error.
/// Nothing is promised of the bytes themselves.
#[verifier::external_body]
fn fill_from_os(buf: &mut Vec<u8>) -> (r: Result<(), rand::Error>)
    ensures
        final(buf)@.len() == old(buf)@.len(),
{
    OsRng.try_fill_bytes(buf.as_mut_slice())
}

/// A fresh 12-byte nonce, drawn anew on every call, or an error when the
/// operating system's random source fails.
pub fn generate_nonce() -> (r: Result<Vec<u8>, CryptError>)
    ensures
        r matches Ok(n) ==> n@.len() == NONCE_LEN,
        r matches Err(e) ==> e == CryptError::RandomSource,
{
    let mut nonce = vec![0u8; NONCE_LEN];
    match fill_from_os(&mut nonce) {
        Ok(()) => Ok(nonce),
        Err(_) => Err(CryptError::RandomSource),
    }
}

} // verus!
