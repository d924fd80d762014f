use vstd::prelude::*;

verus! {

/// Every way an operation of this library can fail.
#[derive(Debug, Clone, Copy, PartialEq, Eq, Structural)]
pub enum CryptError {
    /// Too few command-line arguments: the usage text is due.
    Usage,
    /// Command-line arguments of the wrong shape.
    Arguments,
    /// A command other than `encrypt` or `decrypt`.
    UnknownCommand,
    /// Key material that is not exactly 32 bytes long.
    KeyLength,
    /// A nonce that is not exactly 12 bytes long.
    NonceLength,
    /// A container too short to hold its 12-byte nonce.
    Framing,
    /// The operating system's random source failed to give a nonce.
    RandomSource,
}

} // verus!
