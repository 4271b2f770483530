//! Error values of the library.
use vstd::prelude::*;

verus! {

/// Why a scheme could not be built from the given key.
#[derive(Debug, Clone, Copy, PartialEq, Eq, Structural)]
pub enum ConfigError {
    /// The key length is not a whole number of cipher blocks (AES-192, for one).
    KeySizeNotBlockMultiple,
    /// No configuration of the scheme takes a key of this length.
    UnsupportedKeySize,
    /// The output asked of HKDF is longer than one expansion can give.
    OutputTooLong,
}

/// An AEAD operation failed: authentication failed on decryption, or an input
/// was longer than the base AEAD allows. The causes are not told apart.
#[derive(Debug, Clone, Copy, PartialEq, Eq, Structural)]
pub struct AeadError;

} // verus!
