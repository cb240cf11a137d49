//! Multi-strategy signature verification.
//!
//! The exact byte sequence a wallet signed is not reliably recoverable from
//! the envelope alone: clients populate the payload field differently. The
//! verifier therefore tries a fixed sequence of candidate byte strings and
//! accepts on the first that validates:
//!
//! 1. the serialized signing-context structure, when headers or payload are
//!    present;
//! 2. the raw bytes of the challenge message;
//! 3. the embedded payload, when it equals the message bytes byte for byte (a
//!    defensive duplicate of the previous candidate, kept as its own branch);
//! 4. the hex-text rendering of the message bytes;
//! 5. the message bytes again, when the payload is hex text that decodes to
//!    them.
//!
//! The order matters only for efficiency: at most one candidate should ever
//! validate for a non-adversarial input.

use vstd::prelude::*;

use crate::envelope::SignatureEnvelope;
use crate::envelope::encode_sig_structure;
use crate::envelope::spec_sig_structure;
use crate::errors::MalformedKind;
use crate::hexcodec::hex_bytes_of;
use crate::hexcodec::hex_decode_bytes;
use crate::hexcodec::hex_encode_bytes;
use crate::hexcodec::spec_hex_decode;
use ed25519_dalek::Verifier;

verus! {

/// Whether 32 bytes form a usable verification key; decided by the
/// signature library from the bytes alone.
pub uninterp spec fn ed25519_key_parses(pk: Seq<u8>) -> bool;

/// Whether a 64-byte signature over a message validates under a key; decided
/// by the signature library from the three byte strings alone.
pub uninterp spec fn ed25519_verifies(pk: Seq<u8>, msg: Seq<u8>, sig: Seq<u8>) -> bool;

/// Relies on `ed25519_dalek::VerifyingKey::from_bytes`: whether the bytes
/// form a valid key depends on the bytes alone.
#[verifier::external_body]
fn key_parses(pk: &[u8]) -> (r: bool)
    requires
        pk@.len() == 32,
    ensures
        r == ed25519_key_parses(pk@),
{
    let mut buf = [0u8; 32];
    buf.copy_from_slice(pk);
    ed25519_dalek::VerifyingKey::from_bytes(&buf).is_ok()
}

/// Relies on `ed25519_dalek::VerifyingKey::verify` (with `from_bytes` and
/// `Signature::from_bytes` converting the arguments): the verdict depends on
/// the key, message and signature bytes alone.
#[verifier::external_body]
fn ed25519_verify(pk: &[u8], msg: &[u8], sig: &[u8]) -> (r: bool)
    requires
        pk@.len() == 32,
        sig@.len() == 64,
        ed25519_key_parses(pk@),
    ensures
        r == ed25519_verifies(pk@, msg@, sig@),
{
    let mut kb = [0u8; 32];
    kb.copy_from_slice(pk);
    let key = match ed25519_dalek::VerifyingKey::from_bytes(&kb) {
        Ok(k) => k,
        Err(_) => return false,
    };
    let mut sb = [0u8; 64];
    sb.copy_from_slice(sig);
    let signature = ed25519_dalek::Signature::from_bytes(&sb);
    key.verify(msg, &signature).is_ok()
}

/// The verifier's verdict.
#[derive(Clone, Copy, Debug, PartialEq, Eq, Structural)]
pub enum VerificationResult {
    /// Some accepted interpretation of the signed bytes validates.
    Valid,
    /// Every candidate was tried and failed.
    Invalid,
    /// The input could not even be interpreted (here: an unusable key).
    MalformedInput(MalformedKind),
}

/// Whether the signing-context candidate is attempted at all: only when the
/// envelope carried protected headers or a payload.
pub open spec fn spec_context_applies(protected: Seq<u8>, payload: Seq<u8>) -> bool {
    protected.len() > 0 || payload.len() > 0
}

/// The acceptance condition: some candidate byte string validates.
pub open spec fn spec_accepted(
    pk: Seq<u8>,
    msg: Seq<u8>,
    protected: Seq<u8>,
    payload: Seq<u8>,
    sig: Seq<u8>,
) -> bool {
    ||| (spec_context_applies(protected, payload) && ed25519_verifies(
        pk,
        spec_sig_structure(protected, payload),
        sig,
    ))
    ||| ed25519_verifies(pk, msg, sig)
    ||| (payload.len() > 0 && payload == msg && ed25519_verifies(pk, payload, sig))
    ||| ed25519_verifies(pk, hex_bytes_of(msg), sig)
    ||| (payload.len() > 0 && spec_hex_decode(payload) == Some(msg) && ed25519_verifies(
        pk,
        msg,
        sig,
    ))
}

/// The verdict as a function of the raw inputs: malformed exactly when the
/// key bytes are unusable, valid exactly when a candidate validates.
pub open spec fn spec_verdict(
    pk: Seq<u8>,
    msg: Seq<u8>,
    protected: Seq<u8>,
    payload: Seq<u8>,
    sig: Seq<u8>,
) -> VerificationResult {
    if !ed25519_key_parses(pk) {
        VerificationResult::MalformedInput(MalformedKind::VerifyingKey)
    } else if spec_accepted(pk, msg, protected, payload, sig) {
        VerificationResult::Valid
    } else {
        VerificationResult::Invalid
    }
}

/// Byte-for-byte equality of two slices.
fn bytes_eq(a: &[u8], b: &[u8]) -> (r: bool)
    ensures
        r == (a@ == b@),
{
    if a.len() != b.len() {
        assert(a@ != b@) by {
            assert(a@.len() != b@.len());
        }
        return false;
    }
    let n = a.len();
    let mut i: usize = 0;
    while i < n
        invariant
            n == a@.len() == b@.len(),
            i <= n,
            forall|j: int| 0 <= j < i ==> a@[j] == b@[j],
        decreases n - i,
    {
        if *vstd::slice::slice_index_get(a, i) != *vstd::slice::slice_index_get(b, i) {
            return false;
        }
        i = i + 1;
    }
    proof {
        assert(a@ =~= b@);
    }
    true
}

/// Decides whether the envelope's signature is valid for the challenge
/// message under the supplied key, trying each accepted interpretation of
/// what was signed.
pub fn verify_signature_any(pk: &Vec<u8>, msg: &[u8], envelope: &SignatureEnvelope) -> (r:
    VerificationResult)
    requires
        pk@.len() == 32,
        envelope.signature@.len() == 64,
    ensures
        r == spec_verdict(pk@, msg@, envelope.protected@, envelope.payload@, envelope.signature@),
{
    if !key_parses(pk.as_slice()) {
        return VerificationResult::MalformedInput(MalformedKind::VerifyingKey);
    }
    let sig = envelope.signature.as_slice();
    if envelope.protected.len() > 0 || envelope.payload.len() > 0 {
        let context = encode_sig_structure(&envelope.protected, &envelope.payload);
        if ed25519_verify(pk.as_slice(), context.as_slice(), sig) {
            return VerificationResult::Valid;
        }
    }
    if ed25519_verify(pk.as_slice(), msg, sig) {
        return VerificationResult::Valid;
    }
    if envelope.payload.len() > 0 && bytes_eq(envelope.payload.as_slice(), msg) {
        if ed25519_verify(pk.as_slice(), envelope.payload.as_slice(), sig) {
            return VerificationResult::Valid;
        }
    }
    let msg_hex = hex_encode_bytes(msg);
    if ed25519_verify(pk.as_slice(), msg_hex.as_slice(), sig) {
        return VerificationResult::Valid;
    }
    if envelope.payload.len() > 0 {
        match hex_decode_bytes(envelope.payload.as_slice()) {
            Some(decoded) => {
                if bytes_eq(decoded.as_slice(), msg) {
                    if ed25519_verify(pk.as_slice(), decoded.as_slice(), sig) {
                        return VerificationResult::Valid;
                    }
                }
            },
            None => {},
        }
    }
    VerificationResult::Invalid
}

} // verus!
