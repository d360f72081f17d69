use vstd::prelude::*;

verus! {

/// Every way a protocol step can refuse its input.
#[derive(Debug, Clone, Copy, PartialEq, Eq, Structural)]
pub enum OtError {
    /// The public key or point sent by the counterparty is invalid.
    InvalidPoint,
    /// The final message decryption failed.
    DecryptionFailed,
    /// The counterparty sent the identity point, which would leak the choice or the keys.
    IdentityPointNotAllowed,
    /// A ciphertext payload is shorter than its nonce.
    PayloadTooShort,
    /// The authentication tag of a ciphertext does not verify.
    InvalidMacTag,
    /// The symmetric key could not be derived.
    KeyDerivationFailed,
    /// A payload could not be encrypted.
    EncryptionFailed,
    /// A protocol message arrived in a state that cannot accept it.
    InvalidState,
}

impl OtError {
    /// The human-readable description of each error.
    pub open spec fn spec_message(self) -> Seq<char> {
        match self {
            OtError::InvalidPoint => "Invalid elliptic curve point encountered"@,
            OtError::DecryptionFailed => "Symmetric payload decryption failed"@,
            OtError::IdentityPointNotAllowed => "Identity point is not allowed as a protocol value"@,
            OtError::PayloadTooShort => "Ciphertext payload is shorter than its nonce"@,
            OtError::InvalidMacTag => "Ciphertext authentication tag is invalid"@,
            OtError::KeyDerivationFailed => "Symmetric key derivation failed"@,
            OtError::EncryptionFailed => "Symmetric payload encryption failed"@,
            OtError::InvalidState => "Protocol message received in an invalid state"@,
        }
    }

    /// Describes the error in words (what `Display` shows).
    pub fn message(&self) -> (text: &'static str)
        ensures
            text@ == self.spec_message(),
    {
        match self {
            OtError::InvalidPoint => "Invalid elliptic curve point encountered",
            OtError::DecryptionFailed => "Symmetric payload decryption failed",
            OtError::IdentityPointNotAllowed => "Identity point is not allowed as a protocol value",
            OtError::PayloadTooShort => "Ciphertext payload is shorter than its nonce",
            OtError::InvalidMacTag => "Ciphertext authentication tag is invalid",
            OtError::KeyDerivationFailed => "Symmetric key derivation failed",
            OtError::EncryptionFailed => "Symmetric payload encryption failed",
            OtError::InvalidState => "Protocol message received in an invalid state",
        }
    }
}

} // verus!
