//! Encryption and decryption of whole buffers into and out of containers.
use vstd::prelude::*;
use vstd::slice::slice_to_vec;

use crate::codec::{ciphertext_part, decode, encode, frame, lemma_decode_encode, nonce_part, NONCE_LEN};
use crate::engine::{lemma_xor_keystream_involution, xor_keystream, StreamEngine, MAX_STREAM_LEN};
use crate::error::CryptError;
use crate::key::MasterKey;
use crate::nonce::generate_nonce;

verus! {

/// What one invocation does to its input.
#[derive(Debug, Clone, Copy, PartialEq, Eq, Structural)]
pub enum Command {
    Encrypt,
    Decrypt,
}

/// The container that encrypting `plaintext` under `key` and `nonce` gives.
pub open spec fn seal(key: Seq<u8>, nonce: Seq<u8>, plaintext: Seq<u8>) -> Seq<u8> {
    frame(nonce, xor_keystream(key, nonce, plaintext))
}

/// The plaintext that decrypting the container `framed` under `key` gives.
pub open spec fn unseal(key: Seq<u8>, framed: Seq<u8>) -> Seq<u8> {
    xor_keystream(key, nonce_part(framed), ciphertext_part(framed))
}

/// Encrypts `plaintext` under `key` with the given nonce, which must be 12
/// bytes long.
pub fn encrypt_with_nonce(
    key: &MasterKey,
    nonce: &[u8],
    plaintext: &[u8],
) -> (r: Result<Vec<u8>, CryptError>)
    requires
        plaintext@.len() <= MAX_STREAM_LEN,
    ensures
        nonce@.len() != NONCE_LEN ==> r == Err::<Vec<u8>, CryptError>(CryptError::NonceLength),
        nonce@.len() == NONCE_LEN ==> (r matches Ok(c) && c@ == seal(key@, nonce@, plaintext@)),
{
    let key_bytes = key.as_bytes();
    let engine = match StreamEngine::new(key_bytes, nonce) {
        Ok(e) => e,
        Err(e) => {
            return Err(e);
        },
    };
    let mut body = slice_to_vec(plaintext);
    engine.transform(&mut body);
    Ok(encode(nonce, body.as_slice()))
}

/// Encrypts `plaintext` under `key` with a fresh random nonce. The container
/// is that nonce followed by the ciphertext, 12 bytes longer than the
/// plaintext. Fails only when no nonce can be drawn.
pub fn encrypt(key: &MasterKey, plaintext: &[u8]) -> (r: Result<Vec<u8>, CryptError>)
    requires
        plaintext@.len() <= MAX_STREAM_LEN,
    ensures
        r matches Ok(c) ==> c@.len() == plaintext@.len() + NONCE_LEN && c@ == seal(
            key@,
            nonce_part(c@),
            plaintext@,
        ),
        r matches Err(e) ==> e == CryptError::RandomSource,
{
    let nonce = match generate_nonce() {
        Ok(n) => n,
        Err(e) => {
            return Err(e);
        },
    };
    match encrypt_with_nonce(key, nonce.as_slice(), plaintext) {
        Ok(c) => {
            assert(nonce_part(c@) =~= nonce@);
            Ok(c)
        },
        Err(e) => Err(e),
    }
}

/// Decrypts the container `framed` under `key`. A container shorter than a
/// nonce is refused; any other decrypts, as nothing authenticates it.
pub fn decrypt(key: &MasterKey, framed: &[u8]) -> (r: Result<Vec<u8>, CryptError>)
    requires
        framed@.len() <= MAX_STREAM_LEN + NONCE_LEN,
    ensures
        framed@.len() < NONCE_LEN ==> r == Err::<Vec<u8>, CryptError>(CryptError::Framing),
        framed@.len() >= NONCE_LEN ==> (r matches Ok(p) && p@ == unseal(key@, framed@)),
{
    let (nonce, mut body) = match decode(framed) {
        Ok(parts) => parts,
        Err(e) => {
            return Err(e);
        },
    };
    let key_bytes = key.as_bytes();
    let engine = match StreamEngine::new(key_bytes, nonce.as_slice()) {
        Ok(e) => e,
        Err(e) => {
            return Err(e);
        },
    };
    engine.transform(&mut body);
    Ok(body)
}

/// Runs `command` on `input` under `key`.
pub fn process(command: Command, key: &MasterKey, input: &[u8]) -> (r: Result<Vec<u8>, CryptError>)
    requires
        input@.len() <= MAX_STREAM_LEN,
    ensures
        command == Command::Encrypt ==> (r matches Ok(c) ==> c@.len() == input@.len() + NONCE_LEN
            && c@ == seal(key@, nonce_part(c@), input@)),
        command == Command::Encrypt ==> (r matches Err(e) ==> e == CryptError::RandomSource),
        command == Command::Decrypt ==> (input@.len() < NONCE_LEN ==> r == Err::<Vec<u8>, CryptError>(
            CryptError::Framing)),
        command == Command::Decrypt && input@.len() >= NONCE_LEN ==> (r matches Ok(p) && p@ == unseal(
            key@,
            input@,
        )),
{
    match command {
        Command::Encrypt => encrypt(key, input),
        Command::Decrypt => decrypt(key, input),
    }
}

/// Decrypting what encryption made, under the same key, gives the plaintext
/// back, whatever the nonce that encryption drew.
pub proof fn lemma_round_trip(key: Seq<u8>, nonce: Seq<u8>, plaintext: Seq<u8>)
    requires
        nonce.len() == NONCE_LEN,
    ensures
        unseal(key, seal(key, nonce, plaintext)) == plaintext,
{
    lemma_decode_encode(nonce, xor_keystream(key, nonce, plaintext));
    lemma_xor_keystream_involution(key, nonce, plaintext);
}

} // verus!
