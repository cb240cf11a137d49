//! Error taxonomy of the authentication protocol.
//!
//! `Validation` marks a user-correctable request (an empty required field).
//! `Unauthorized` covers every credential failure; the reason is kept so that
//! the surrounding service can log it, but all reasons map to the same
//! caller-visible category. `Malformed` marks input that could not even be
//! decoded; it is a format mismatch between client and server, surfaced as an
//! internal error, and is never conflated with a failed credential check.

use vstd::prelude::*;

verus! {

/// Why a request was denied authorization.
#[derive(Clone, Copy, Debug, PartialEq, Eq, Structural)]
pub enum UnauthorizedReason {
    /// No challenge is outstanding for the address.
    NoChallenge,
    /// A challenge exists but its age exceeds the time-to-live.
    Expired,
    /// The signature validated under no accepted interpretation.
    InvalidSignature,
    /// The public key is not bound to the claimed address.
    BindingFailed,
}

/// Which piece of the request could not be decoded.
#[derive(Clone, Copy, Debug, PartialEq, Eq, Structural)]
pub enum MalformedKind {
    /// The signature field is not a hex string.
    SignatureHex,
    /// The key field is not a hex string.
    KeyHex,
    /// The signature envelope does not follow the expected binary structure.
    SignatureEnvelope,
    /// The key envelope does not follow the expected binary structure.
    KeyEnvelope,
    /// The 32 key bytes do not form a usable verification key.
    VerifyingKey,
}

/// Error returned by the protocol's public operations.
#[derive(Clone, Copy, Debug, PartialEq, Eq, Structural)]
pub enum AuthError {
    /// A required field was empty.
    Validation,
    /// A credential check failed.
    Unauthorized(UnauthorizedReason),
    /// The request could not be decoded.
    Malformed(MalformedKind),
}

/// Why a public key fails to bind to an address.
#[derive(Clone, Copy, Debug, PartialEq, Eq, Structural)]
pub enum BindError {
    /// The address string decodes under neither the hex nor the
    /// checksum-encoded form, or its bytes are not a well-formed address.
    BadAddress,
    /// The address's payment credential is a script hash, not a key hash.
    ScriptCredential,
    /// The address shape carries no usable payment credential here
    /// (a legacy or reward address).
    UnsupportedShape,
    /// The hash of the supplied key differs from the address's credential.
    KeyMismatch,
}

} // verus!
