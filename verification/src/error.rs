//! Error kinds surfaced by the protocol core.
//!
//! Every cryptographic operation returns success or one of these specific
//! failures; nothing is retried or swallowed internally, so confidentiality
//! and integrity failures are always observable by the caller.

use vstd::prelude::*;

verus! {

/// A failure of the protocol core.
///
/// The variants separate "malformed input" (`DecodingError`,
/// `Base64DecodingError`, `BadLength`) from "authentication or verification
/// failure" (`AuthenticationError`, `SignatureError`, `GroupKeyMismatch`)
/// from algorithm-level faults (`EncapsulationError`, `KeyAgreementError`),
/// since callers must react differently to each class.
#[derive(Clone, PartialEq, Eq, Debug)]
pub enum Error {
    /// A value could not be serialized into envelope form.
    EncodingError,
    /// Bytes did not match the schema expected by an envelope.
    DecodingError,
    /// Text held characters outside the URL-safe unpadded base64 alphabet,
    /// or had an impossible length.
    Base64DecodingError,
    /// An AEAD tag did not verify: tampering, a wrong key, or a wrong nonce.
    AuthenticationError,
    /// A signature did not verify over the presented bytes.
    SignatureError,
    /// A key-encapsulation ciphertext was malformed or could not be
    /// processed by the underlying algorithm.
    EncapsulationError,
    /// The key-encapsulation or signature algorithm itself failed.
    KeyAgreementError,
    /// A fixed-size value arrived with the wrong byte count:
    /// `BadLength { expected, got }`.
    BadLength { expected: usize, got: usize },
    /// A decrypted group record carried a different group key ID than the
    /// key it was decrypted against.
    GroupKeyMismatch { expected_id: u128, received_id: u128 },
    /// A required value was missing at construction time (identity
    /// assembly).
    UninitializedField,
    /// A user-correctable mistake, described by the wrapped [`UserError`].
    UserError(UserError),
}

/// A mistake the user can correct, surfaced by the identity layer.
#[derive(Clone, PartialEq, Eq, Debug)]
pub enum UserError {
    /// The profile name exceeds 64 bytes.
    ProfileNameLength { length: usize },
    /// The profile name holds a character outside ASCII letters, digits,
    /// `-` and `_`.
    ProfileNameCharacters { provided: String },
}

impl UserError {
    /// The error for a profile name of `length` bytes, over the limit.
    pub fn prof_name_length(length: usize) -> (r: UserError)
        ensures
            r == (UserError::ProfileNameLength { length }),
    {
        UserError::ProfileNameLength { length }
    }

    /// The error for a profile name holding a disallowed character.
    pub fn prof_name_chars(value: &str) -> (r: UserError)
        ensures
            r matches UserError::ProfileNameCharacters { provided } && provided@ == value@,
    {
        UserError::ProfileNameCharacters { provided: value.to_owned() }
    }
}

} // verus!
