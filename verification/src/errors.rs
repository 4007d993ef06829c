//! The library's error taxonomy. Every failure is fatal to the operation
//! that raised it; nothing is retried.

use vstd::prelude::*;
use crate::tarbox::errors::TarboxError;

verus! {

/// The fields a secret is built from.
#[derive(Clone, Copy, Debug, PartialEq, Eq)]
pub enum SecretField {
    Password,
    Nonce,
    Salt,
}

/// A failure of the seal or unseal pipeline.
#[derive(Clone, Debug, PartialEq, Eq)]
pub enum Error {
    /// A secret was built without one of its required fields.
    MissingField(SecretField),
    /// Authenticated decryption failed: the password is wrong or the
    /// ciphertext was corrupted or tampered with. The two causes are
    /// deliberately not distinguished.
    SecretBoxOpenFail,
    /// The key-derivation primitive itself failed.
    KdfFail,
    /// The compressed payload is not a valid stream of the compression
    /// format.
    InflateFail,
    /// The container framing is invalid.
    Tarbox(TarboxError),
}

} // verus!
