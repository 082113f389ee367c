//! Failure taxonomy of the codec and signing core.
//!
//! Every failure is returned as a typed value to the immediate caller;
//! nothing is retried and nothing panics.

use vstd::prelude::*;

verus! {

/// Failure while decoding wire bytes: a malformed RLP buffer, a field that
/// does not fit its target width, or a recipient of the wrong size.
#[derive(Clone, Copy, Debug, PartialEq, Eq, Structural)]
pub enum DecodeError {
    /// The buffer ended before the announced content.
    UnexpectedEof,
    /// The buffer does not hold the announced number of fields.
    IndexOutOfRange,
    /// A header that is not the canonical (minimal) form for its content.
    NonCanonical,
    /// A big-endian integer field exceeds its target width.
    BigEndianOverflow,
    /// A recipient field that is neither empty nor twenty bytes.
    InvalidRecipient,
}

/// Failure while decoding a hexadecimal string.
#[derive(Clone, Copy, Debug, PartialEq, Eq, Structural)]
pub enum HexError {
    /// A hexadecimal string must hold an even number of digits.
    OddLength,
    /// A byte that is not an ASCII hexadecimal digit.
    InvalidDigit,
}

/// Failure while producing a signature.
#[derive(Clone, Copy, Debug, PartialEq, Eq, Structural)]
pub enum SigningError {
    /// The digest handed to the signer is not a nonzero 32-byte value.
    InvalidMessage,
    /// The secret key is not a valid curve scalar.
    InvalidKey,
    /// The produced signature has a recovery id above one and cannot be
    /// carried in the v encoding.
    UnsupportedRecoveryId,
}

/// Failure while recovering a public key from a signature.
#[derive(Clone, Copy, Debug, PartialEq, Eq, Structural)]
pub enum RecoveryError {
    /// The digest handed to the recoverer is not a 32-byte value.
    InvalidMessage,
    /// Out-of-range scalars, a bad recovery id, or failed point recovery.
    InvalidSignature,
}

impl SigningError {
    /// Human-readable description, in place of a `Display` impl.
    pub fn message(&self) -> (r: &'static str)
        ensures
            self is InvalidMessage ==> r@ == "Message has to be a non-zero 32-bytes slice."@,
            self is InvalidKey ==> r@ == "Secret key is not a valid scalar."@,
            self is UnsupportedRecoveryId ==> r@
                == "Signature recovery id cannot be carried in v."@,
    {
        match self {
            SigningError::InvalidMessage => "Message has to be a non-zero 32-bytes slice.",
            SigningError::InvalidKey => "Secret key is not a valid scalar.",
            SigningError::UnsupportedRecoveryId => "Signature recovery id cannot be carried in v.",
        }
    }
}

impl RecoveryError {
    /// Human-readable description, in place of a `Display` impl.
    pub fn message(&self) -> (r: &'static str)
        ensures
            self is InvalidMessage ==> r@ == "Message has to be a non-zero 32-bytes slice."@,
            self is InvalidSignature ==> r@ == "Signature is invalid (check recovery id)."@,
    {
        match self {
            RecoveryError::InvalidMessage => "Message has to be a non-zero 32-bytes slice.",
            RecoveryError::InvalidSignature => "Signature is invalid (check recovery id).",
        }
    }
}

} // verus!
