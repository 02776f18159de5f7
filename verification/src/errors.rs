//! Error outcomes of the key-pair operations, one variant per failure class
//! so callers can present distinct messages for each.

use vstd::prelude::*;

verus! {

/// Why a key-pair operation failed. File I/O never happens in this crate, so
/// I/O failures are reported by the calling layer, not here.
#[derive(Clone, Copy, Debug, PartialEq, Eq)]
pub enum KeyError {
    /// The armored secret-key text could not be parsed.
    MalformedKey,
    /// The secret key parsed, but could not be unlocked with the supplied
    /// passphrase.
    WrongPassphrase,
    /// Key generation, certification, signing or armoring failed internally.
    CryptoFailure,
}

impl KeyError {
    /// A short description suitable for showing to a user.
    pub fn message(&self) -> (r: &'static str)
        ensures
            *self == KeyError::MalformedKey ==> r@ == "the key file is malformed or corrupted"@,
            *self == KeyError::WrongPassphrase ==> r@ == "incorrect passphrase"@,
            *self == KeyError::CryptoFailure ==> r@ == "a cryptographic operation failed"@,
    {
        match self {
            KeyError::MalformedKey => "the key file is malformed or corrupted",
            KeyError::WrongPassphrase => "incorrect passphrase",
            KeyError::CryptoFailure => "a cryptographic operation failed",
        }
    }
}

} // verus!
