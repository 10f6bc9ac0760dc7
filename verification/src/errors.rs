//! The error taxonomy shared by the KEM and signature facades. Every variant
//! is raised at decode time, before any cryptographic computation begins;
//! a signature that fails to verify is not an error but the `false` outcome.

use vstd::prelude::*;

verus! {

/// A caller-supplied buffer did not decode as the artifact the operation
/// expected. Each variant names the operand that failed validation and
/// nothing else: no byte of key material ever reaches an error.
#[derive(Clone, Copy, Debug, PartialEq, Eq, Structural)]
pub enum PqError {
    /// The public-key buffer does not match the algorithm's encoding.
    InvalidPublicKey,
    /// The secret-key buffer does not match the algorithm's encoding.
    InvalidSecretKey,
    /// The ciphertext buffer does not match the algorithm's encoding.
    InvalidCiphertext,
    /// The buffer is not a structurally valid signed-message bundle.
    InvalidSignedMessage,
}

impl PqError {
    /// A fixed, static description naming only which operand was malformed.
    pub fn message(&self) -> (r: &'static str)
        ensures
            self is InvalidPublicKey ==> r@ == "invalid public key"@,
            self is InvalidSecretKey ==> r@ == "invalid secret key"@,
            self is InvalidCiphertext ==> r@ == "invalid ciphertext"@,
            self is InvalidSignedMessage ==> r@ == "invalid signed message"@,
    {
        match self {
            PqError::InvalidPublicKey => "invalid public key",
            PqError::InvalidSecretKey => "invalid secret key",
            PqError::InvalidCiphertext => "invalid ciphertext",
            PqError::InvalidSignedMessage => "invalid signed message",
        }
    }
}

} // verus!
