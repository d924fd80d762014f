//! The master key: exactly 32 bytes, fixed for the life of the process.
use vstd::prelude::*;
use vstd::slice::slice_to_vec;

use crate::engine::KEY_LEN;
use crate::error::CryptError;

verus! {

/// A 32-byte master key.
pub struct MasterKey {
    bytes: Vec<u8>,
}

impl View for MasterKey {
    type V = Seq<u8>;

    closed spec fn view(&self) -> Seq<u8> {
        self.bytes@
    }
}

impl MasterKey {
    #[verifier::type_invariant]
    spec fn width_holds(&self) -> bool {
        self.bytes@.len() == KEY_LEN
    }

    /// Takes the raw contents of a key store. Anything but exactly 32 bytes is
    /// refused.
    pub fn from_bytes(bytes: &[u8]) -> (r: Result<MasterKey, CryptError>)
        ensures
            bytes@.len() != KEY_LEN ==> r == Err::<MasterKey, CryptError>(CryptError::KeyLength),
            bytes@.len() == KEY_LEN ==> (r matches Ok(k) && k@ == bytes@),
    {
        if bytes.len() != KEY_LEN {
            return Err(CryptError::KeyLength);
        }
        Ok(MasterKey { bytes: slice_to_vec(bytes) })
    }

    /// The key's bytes.
    pub fn as_bytes(&self) -> (r: &[u8])
        ensures
            r@ == self@,
            r@.len() == KEY_LEN,
    {
        proof {
            use_type_invariant(self);
        }
        self.bytes.as_slice()
    }
}

} // verus!
