//! The on-disk framing: the nonce, then the ciphertext.
use vstd::prelude::*;
use vstd::slice::slice_to_vec;

use crate::error::CryptError;

verus! {

/// Width of a nonce in bytes.
pub const NONCE_LEN: usize = 12;

/// The container that holds `ciphertext` under `nonce`.
pub open spec fn frame(nonce: Seq<u8>, ciphertext: Seq<u8>) -> Seq<u8> {
    nonce + ciphertext
}

/// The nonce part of a container.
pub open spec fn nonce_part(framed: Seq<u8>) -> Seq<u8> {
    framed.subrange(0, NONCE_LEN as int)
}

/// The ciphertext part of a container.
pub open spec fn ciphertext_part(framed: Seq<u8>) -> Seq<u8> {
    framed.subrange(NONCE_LEN as int, framed.len() as int)
}

/// Frames `ciphertext` behind `nonce`.
pub fn encode(nonce: &[u8], ciphertext: &[u8]) -> (r: Vec<u8>)
    requires
        nonce@.len() == NONCE_LEN,
    ensures
        r@ == frame(nonce@, ciphertext@),
{
    let mut out = slice_to_vec(nonce);
    out.extend_from_slice(ciphertext);
    assert(out@ =~= frame(nonce@, ciphertext@));
    out
}

/// Splits a container into its nonce and its ciphertext. No cryptographic
/// check is made: any input of at least 12 bytes splits.
pub fn decode(framed: &[u8]) -> (r: Result<(Vec<u8>, Vec<u8>), CryptError>)
    ensures
        framed@.len() < NONCE_LEN ==> r == Err::<(Vec<u8>, Vec<u8>), CryptError>(CryptError::Framing),
        framed@.len() >= NONCE_LEN ==> (r matches Ok((n, c)) && n@ == nonce_part(framed@) && c@
            == ciphertext_part(framed@)),
{
    if framed.len() < NONCE_LEN {
        return Err(CryptError::Framing);
    }
    let nonce = slice_to_vec(&framed[0..NONCE_LEN]);
    let ciphertext = slice_to_vec(&framed[NONCE_LEN..framed.len()]);
    Ok((nonce, ciphertext))
}

/// Decoding a container that `encode` made gives back its two parts.
pub proof fn lemma_decode_encode(nonce: Seq<u8>, ciphertext: Seq<u8>)
    requires
        nonce.len() == NONCE_LEN,
    ensures
        nonce_part(frame(nonce, ciphertext)) == nonce,
        ciphertext_part(frame(nonce, ciphertext)) == ciphertext,
{
    assert(nonce_part(frame(nonce, ciphertext)) =~= nonce);
    assert(ciphertext_part(frame(nonce, ciphertext)) =~= ciphertext);
}

} // verus!
