//! Protocol-wide laws, stated and proved over the specifications that the
//! public functions' contracts use.

use vstd::prelude::*;

use crate::digits::dec_chars;
use crate::digits::lemma_dec_chars_injective;
use crate::envelope::spec_parse_signature_envelope;
use crate::envelope::spec_signature_envelope_bytes;
use crate::errors::AuthError;
use crate::errors::MalformedKind;
use crate::errors::UnauthorizedReason;
use crate::hexcodec::spec_hex_decode;
use crate::protocol::spec_created;
use crate::protocol::spec_verify_outcome;
use crate::store::CHALLENGE_TTL_SECS;
use crate::store::ChallengeData;
use crate::address::spec_verify_binds;
use crate::envelope::spec_parse_key_envelope;
use vstd::utf8::encode_utf8;

verus! {

/// Issuing a second challenge for the same address overwrites the first:
/// afterwards the store holds exactly the second nonce and message, and when
/// the nonces differ the first nonce no longer appears under that address.
pub proof fn lemma_second_challenge_wins(
    m0: Map<Seq<char>, ChallengeData>,
    m1: Map<Seq<char>, ChallengeData>,
    m2: Map<Seq<char>, ChallengeData>,
    address: Seq<char>,
    nonce1: u64,
    nonce2: u64,
    t1: i64,
    t2: i64,
)
    requires
        spec_created(m0, m1, address, nonce1, t1),
        spec_created(m1, m2, address, nonce2, t2),
    ensures
        m2[address].nonce@ == dec_chars(nonce2 as nat),
        m2[address].message@ == crate::protocol::spec_challenge_message(nonce2 as nat, t2 as nat),
        nonce1 != nonce2 ==> m2[address].nonce@ != dec_chars(nonce1 as nat),
{
    if nonce1 != nonce2 {
        if dec_chars(nonce1 as nat) == dec_chars(nonce2 as nat) {
            lemma_dec_chars_injective(nonce1 as nat, nonce2 as nat);
        }
    }
}

/// A verification attempt with no challenge outstanding for the address is
/// rejected as unauthorized, whatever the signature and key are.
pub proof fn lemma_no_challenge_rejected(
    m: Map<Seq<char>, ChallengeData>,
    address: Seq<char>,
    signature: Seq<char>,
    key: Seq<char>,
    now: int,
)
    requires
        address.len() > 0,
        signature.len() > 0,
        !m.contains_key(address),
    ensures
        spec_verify_outcome(m, address, signature, key, now) == Err::<(), AuthError>(
            AuthError::Unauthorized(UnauthorizedReason::NoChallenge),
        ),
{
}

/// A challenge older than the time-to-live is rejected as expired, whatever
/// the signature and key are — a cryptographically perfect signature included.
pub proof fn lemma_expired_rejected(
    m: Map<Seq<char>, ChallengeData>,
    address: Seq<char>,
    signature: Seq<char>,
    key: Seq<char>,
    now: int,
)
    requires
        address.len() > 0,
        signature.len() > 0,
        m.contains_key(address),
        now - m[address].timestamp > CHALLENGE_TTL_SECS,
    ensures
        spec_verify_outcome(m, address, signature, key, now) == Err::<(), AuthError>(
            AuthError::Unauthorized(UnauthorizedReason::Expired),
        ),
{
}

/// A successful verification consumes the challenge: against the store it
/// leaves behind, a second attempt for the same address is rejected for want
/// of a challenge, whatever its signature, key or time.
pub proof fn lemma_challenge_single_use(
    m: Map<Seq<char>, ChallengeData>,
    address: Seq<char>,
    signature: Seq<char>,
    key: Seq<char>,
    now: int,
    signature2: Seq<char>,
    key2: Seq<char>,
    now2: int,
)
    requires
        spec_verify_outcome(m, address, signature, key, now) is Ok,
        signature2.len() > 0,
    ensures
        spec_verify_outcome(m.remove(address), address, signature2, key2, now2) == Err::<
            (),
            AuthError,
        >(AuthError::Unauthorized(UnauthorizedReason::NoChallenge)),
{
    assert(address.len() > 0);
    assert(!m.remove(address).contains_key(address));
}

/// A key that does not bind to the claimed address is rejected as
/// unauthorized even when its signature over the message is valid: binding
/// failure is decided before the signature is ever consulted.
pub proof fn lemma_binding_required(
    m: Map<Seq<char>, ChallengeData>,
    address: Seq<char>,
    signature: Seq<char>,
    key: Seq<char>,
    now: int,
)
    requires
        address.len() > 0,
        signature.len() > 0,
        m.contains_key(address),
        now - m[address].timestamp <= CHALLENGE_TTL_SECS,
        spec_hex_decode(encode_utf8(signature)) matches Some(se) && spec_parse_signature_envelope(
            se,
        ) is Some,
        spec_hex_decode(encode_utf8(key)) matches Some(ke) && (spec_parse_key_envelope(
            ke,
        ) matches Some(pk) && spec_verify_binds(address, pk) is Err),
    ensures
        spec_verify_outcome(m, address, signature, key, now) == Err::<(), AuthError>(
            AuthError::Unauthorized(UnauthorizedReason::BindingFailed),
        ),
{
}

/// A verification can only succeed when some accepted interpretation of the
/// signed bytes actually validates under the supplied key; when none does,
/// the outcome is an unauthorized rejection, not a success.
pub proof fn lemma_unaccepted_signature_rejected(
    m: Map<Seq<char>, ChallengeData>,
    address: Seq<char>,
    signature: Seq<char>,
    key: Seq<char>,
    now: int,
)
    requires
        spec_hex_decode(encode_utf8(signature)) matches Some(se) && (spec_parse_signature_envelope(
            se,
        ) matches Some(parts) && (spec_hex_decode(encode_utf8(key)) matches Some(ke) && (
        spec_parse_key_envelope(ke) matches Some(pk) && !crate::sigcheck::spec_accepted(
            pk,
            encode_utf8(m[address].message@),
            parts.2,
            parts.1,
            parts.0,
        )))),
    ensures
        !(spec_verify_outcome(m, address, signature, key, now) is Ok),
{
}

/// Input whose signature field is not hex, or whose bytes do not form a
/// well-formed envelope, is reported as malformed — never as a success, and
/// never as a plain signature mismatch.
pub proof fn lemma_malformed_envelope_rejected(
    m: Map<Seq<char>, ChallengeData>,
    address: Seq<char>,
    signature: Seq<char>,
    key: Seq<char>,
    now: int,
)
    requires
        address.len() > 0,
        signature.len() > 0,
        m.contains_key(address),
        now - m[address].timestamp <= CHALLENGE_TTL_SECS,
    ensures
        spec_hex_decode(encode_utf8(signature)) is None ==> spec_verify_outcome(
            m,
            address,
            signature,
            key,
            now,
        ) == Err::<(), AuthError>(AuthError::Malformed(MalformedKind::SignatureHex)),
        (spec_hex_decode(encode_utf8(signature)) matches Some(se)
            && spec_parse_signature_envelope(se) is None) ==> spec_verify_outcome(
            m,
            address,
            signature,
            key,
            now,
        ) == Err::<(), AuthError>(AuthError::Malformed(MalformedKind::SignatureEnvelope)),
{
}

/// The two envelope shapes with nothing but a signature in them — the raw 64
/// bytes, and the structured four-element form with null payload and empty
/// headers — decode to the same triple, so verification treats them
/// identically for every key and message.
pub proof fn lemma_envelope_forms_equivalent(sig: Seq<u8>)
    requires
        sig.len() == 64,
    ensures
        spec_parse_signature_envelope(sig) == Some(
            (sig, Seq::<u8>::empty(), Seq::<u8>::empty()),
        ),
        spec_parse_signature_envelope(
            spec_signature_envelope_bytes(sig, None, Seq::<u8>::empty()),
        ) == Some((sig, Seq::<u8>::empty(), Seq::<u8>::empty())),
{
    crate::envelope::lemma_signature_envelope_round_trip(sig, None, Seq::<u8>::empty());
}

} // verus!
