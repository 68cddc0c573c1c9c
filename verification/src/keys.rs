//! Plain data types exchanged with the binding layer: the shape of an
//! imported or generated key, the outcome of an import, and the raw entries
//! handed to the key store.

use vstd::prelude::*;

verus! {

/// A private key entry as the binding layer supplies it: the encoded private
/// key text together with a display name and the vault entry it belongs to.
pub struct PrivateKeyEntry {
    pub private_key: String,
    pub name: String,
    pub uuid: String,
}

/// A key in text form, as returned by import and generation: the canonical
/// OpenSSH private key text, the public key text, the algorithm label, and a
/// stable fingerprint of the public key.
#[derive(Debug)]
pub struct SSHKey {
    pub private_key: String,
    pub public_key: String,
    pub key_algorithm: String,
    pub key_fingerprint: String,
}

/// Precise outcome of parsing an externally-encoded private key.
#[derive(Clone, Copy, Debug, PartialEq, Eq, Structural)]
pub enum SSHKeyImportStatus {
    /// The key parsed (and, if encrypted, decrypted).
    Success,
    /// The key is encrypted and no password was supplied.
    PasswordRequired,
    /// The key is encrypted and the supplied password does not decrypt it.
    WrongPassword,
    /// The encoding could not be parsed at all.
    ParsingError,
}

/// Result of an import: a status, and the key itself only on success.
pub struct SSHKeyImportResult {
    pub status: SSHKeyImportStatus,
    pub ssh_key: Option<SSHKey>,
}

/// Failures of import and generation that are not part of the import
/// status: a rejected algorithm name, a failed generation, or key material
/// that would not re-encode.
#[derive(Clone, Copy, Debug, PartialEq, Eq, Structural)]
pub enum KeyOpError {
    /// The requested algorithm name is not in the accepted set.
    UnsupportedAlgorithm,
    /// The cryptographic generation call failed.
    GenerationFailed,
    /// The key did not encode back to text (or its public part to bytes).
    EncodingFailed,
}

impl KeyOpError {
    /// A short description, in place of `Display`.
    pub fn message(&self) -> (r: String)
        ensures
            *self == KeyOpError::UnsupportedAlgorithm ==> r@ == "Unsupported key algorithm"@,
            *self == KeyOpError::GenerationFailed ==> r@ == "Key generation failed"@,
            *self == KeyOpError::EncodingFailed ==> r@ == "Key encoding failed"@,
    {
        match self {
            KeyOpError::UnsupportedAlgorithm => "Unsupported key algorithm".to_owned(),
            KeyOpError::GenerationFailed => "Key generation failed".to_owned(),
            KeyOpError::EncodingFailed => "Key encoding failed".to_owned(),
        }
    }
}

impl SSHKey {
    /// True when the other key carries the same four text fields.
    pub fn same_as(&self, other: &SSHKey) -> (r: bool)
        ensures
            r <==> (self.private_key@ == other.private_key@
                && self.public_key@ == other.public_key@
                && self.key_algorithm@ == other.key_algorithm@
                && self.key_fingerprint@ == other.key_fingerprint@),
    {
        self.private_key.eq(&other.private_key) && self.public_key.eq(&other.public_key)
            && self.key_algorithm.eq(&other.key_algorithm)
            && self.key_fingerprint.eq(&other.key_fingerprint)
    }
}

} // verus!
