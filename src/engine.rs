//! The stream cipher engine: ChaCha20 keyed by a 32-byte key and a 12-byte
//! nonce, applied by XOR to a whole buffer.
use vstd::prelude::*;

use chacha20::ChaCha20;
use cipher::generic_array::GenericArray;
use cipher::{KeyIvInit, StreamCipher};

use crate::codec::NONCE_LEN;
use crate::error::CryptError;

verus! {

/// Width of a key in bytes.
pub const KEY_LEN: usize = 32;

/// The longest buffer one engine can transform: ChaCha20 with a 32-bit block
/// counter has `u32::MAX` blocks of 64 bytes left at block position zero.
pub const MAX_STREAM_LEN: u64 = 274877906880;

/// The byte at position `pos` of the ChaCha20 keystream of `key` and `nonce`.
pub uninterp spec fn chacha20_keystream_byte(key: Seq<u8>, nonce: Seq<u8>, pos: nat) -> u8;

/// `data` XORed, byte by byte, with the keystream of `key` and `nonce`.
pub open spec fn xor_keystream(key: Seq<u8>, nonce: Seq<u8>, data: Seq<u8>) -> Seq<u8> {
    Seq::new(data.len(), |i: int| data[i] ^ chacha20_keystream_byte(key, nonce, i as nat))
}

/// Relies on chacha20::ChaCha20, made by `KeyIvInit::new` from the key and the
/// nonce and then used once by `StreamCipher::apply_keystream`: each byte of the
/// buffer is XORed with the keystream byte at its position, counted from the
/// start of the keystream. `apply_keystream` panics when the buffer is longer
/// than what is left of the keystream, hence the bound on its length.
#[verifier::external_body]
fn chacha20_apply(key: &[u8], nonce: &[u8], buf: &mut Vec<u8>)
    requires
        key@.len() == KEY_LEN,
        nonce@.len() == NONCE_LEN,
        old(buf)@.len() <= MAX_STREAM_LEN,
    ensures
        final(buf)@.len() == old(buf)@.len(),
        forall|i: int|
            0 <= i < old(buf)@.len() ==> #[trigger] final(buf)@[i] == old(buf)@[i]
                ^ chacha20_keystream_byte(key@, nonce@, i as nat),
{
    let mut cipher = ChaCha20::new(GenericArray::from_slice(key), GenericArray::from_slice(nonce));
    cipher.apply_keystream(buf.as_mut_slice());
}

/// A key and a nonce of the right widths, ready to transform one buffer.
/// The keystream position lives only for the length of one `transform`.
pub struct StreamEngine {
    key: Vec<u8>,
    nonce: Vec<u8>,
}

impl StreamEngine {
    /// The key of the engine.
    pub closed spec fn key(&self) -> Seq<u8> {
        self.key@
    }

    /// The nonce of the engine.
    pub closed spec fn nonce(&self) -> Seq<u8> {
        self.nonce@
    }

    #[verifier::type_invariant]
    spec fn widths_hold(&self) -> bool {
        self.key@.len() == KEY_LEN && self.nonce@.len() == NONCE_LEN
    }

    /// Builds an engine; the key must be 32 bytes and the nonce 12.
    pub fn new(key: &[u8], nonce: &[u8]) -> (r: Result<StreamEngine, CryptError>)
        ensures
            key@.len() != KEY_LEN ==> r == Err::<StreamEngine, CryptError>(CryptError::KeyLength),
            key@.len() == KEY_LEN && nonce@.len() != NONCE_LEN ==> r == Err::<StreamEngine, CryptError>(
                CryptError::NonceLength,
            ),
            key@.len() == KEY_LEN && nonce@.len() == NONCE_LEN ==> (r matches Ok(e) && e.key() == key@
                && e.nonce() == nonce@),
    {
        if key.len() != KEY_LEN {
            return Err(CryptError::KeyLength);
        }
        if nonce.len() != NONCE_LEN {
            return Err(CryptError::NonceLength);
        }
        Ok(StreamEngine { key: vstd::slice::slice_to_vec(key), nonce: vstd::slice::slice_to_vec(nonce) })
    }

    /// XORs the keystream of the engine's key and nonce into `buf`, in place.
    /// Applied twice, it gives the buffer back.
    pub fn transform(&self, buf: &mut Vec<u8>)
        requires
            old(buf)@.len() <= MAX_STREAM_LEN,
        ensures
            final(buf)@ == xor_keystream(self.key(), self.nonce(), old(buf)@),
    {
        proof {
            use_type_invariant(self);
        }
        chacha20_apply(self.key.as_slice(), self.nonce.as_slice(), buf);
        assert(buf@ =~= xor_keystream(self.key(), self.nonce(), old(buf)@));
    }
}

/// XOR with one keystream is its own inverse: transforming twice with the same
/// key and nonce gives the data back.
pub proof fn lemma_xor_keystream_involution(key: Seq<u8>, nonce: Seq<u8>, data: Seq<u8>)
    ensures
        xor_keystream(key, nonce, xor_keystream(key, nonce, data)) == data,
{
    let once = xor_keystream(key, nonce, data);
    let twice = xor_keystream(key, nonce, once);
    assert forall|i: int| 0 <= i < data.len() implies twice[i] == data[i] by {
        let a = data[i];
        let k = chacha20_keystream_byte(key, nonce, i as nat);
        assert((a ^ k) ^ k == a) by (bit_vector);
    }
    assert(twice =~= data);
}

} // verus!
