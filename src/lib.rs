//! File encryption with the ChaCha20 stream cipher under a fixed master key.
//!
//! A container is a fresh 12-byte nonce followed by the ciphertext, which is
//! the plaintext XORed with the ChaCha20 keystream of (key, nonce).
pub mod cli;
pub mod codec;
pub mod engine;
pub mod error;
pub mod key;
pub mod nonce;
pub mod ops;
pub mod replace;
