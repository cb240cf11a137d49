//! The authentication protocol: challenge issuance and verification.
//!
//! Per address the protocol is a small state machine. `create_challenge`
//! makes the address pending, storing a fresh nonce-bearing message;
//! `verify_and_issue_session` consumes the pending challenge exactly when
//! every check passes, and leaves it in place on a failed signature or
//! binding so the client may retry; a challenge older than the time-to-live
//! is rejected and eventually evicted. Encoding the granted session into a
//! token is the session issuer's job, outside this module.

use vstd::prelude::*;

use crate::address::spec_session_subject;
use crate::address::spec_verify_binds;
use crate::address::convert_to_bech32;
use crate::address::verify_binds;
use crate::digits::dec_chars;
use crate::digits::u64_to_dec;
use crate::envelope::parse_key_envelope;
use crate::envelope::parse_signature_envelope;
use crate::envelope::spec_parse_key_envelope;
use crate::envelope::spec_parse_signature_envelope;
use crate::errors::AuthError;
use crate::errors::MalformedKind;
use crate::errors::UnauthorizedReason;
use crate::hexcodec::hex_decode_bytes;
use crate::hexcodec::spec_hex_decode;
use crate::sigcheck::VerificationResult;
use crate::sigcheck::ed25519_key_parses;
use crate::sigcheck::spec_accepted;
use crate::sigcheck::verify_signature_any;
use crate::store::CHALLENGE_TTL_SECS;
use crate::store::ChallengeData;
use crate::store::ChallengeStore;
use crate::store::spec_fresh;
use vstd::string::StringExecFns;
use vstd::utf8::encode_utf8;

verus! {

/// A client's request for a login challenge.
#[derive(Debug)]
pub struct ChallengeRequest {
    pub address: String,
}

/// The issued challenge: the message to sign and its nonce.
#[derive(Debug)]
pub struct ChallengeResponse {
    pub message: String,
    pub nonce: String,
}

/// A client's response to a challenge: the signature and key envelopes, hex
/// encoded, with an optional secondary identifier.
#[derive(Debug)]
pub struct VerifyRequest {
    pub address: String,
    pub stake_address: Option<String>,
    pub signature: String,
    pub key: String,
}

/// The token the surrounding service returns once the session issuer has
/// encoded a granted session.
#[derive(Debug)]
pub struct VerifyResponse {
    pub token: String,
}

/// A session granted by a successful verification; the external session
/// issuer turns it into a token.
#[derive(Debug)]
pub struct SessionGrant {
    /// The verified address, rendered in checksum form when possible.
    pub subject: String,
    /// The optional secondary identifier the client supplied.
    pub stake_address: Option<String>,
}

/// The challenge message for a nonce issued at a time: a fixed human-readable
/// text deterministically embedding both.
pub open spec fn spec_challenge_message(nonce: nat, issued_at: nat) -> Seq<char> {
    "Sign this message to authenticate with Cardano Blockchain Viewer\n\nNonce: "@ + dec_chars(
        nonce,
    ) + "\nTimestamp: "@ + dec_chars(issued_at)
}

/// Builds the challenge message for `nonce` at `issued_at`.
pub fn build_challenge_message(nonce: u64, issued_at: i64) -> (r: String)
    requires
        issued_at >= 0,
    ensures
        r@ == spec_challenge_message(nonce as nat, issued_at as nat),
{
    let mut m = String::new();
    m.append("Sign this message to authenticate with Cardano Blockchain Viewer\n\nNonce: ");
    let nonce_str = u64_to_dec(nonce);
    m.append(nonce_str.as_str());
    m.append("\nTimestamp: ");
    let ts_str = u64_to_dec(issued_at as u64);
    m.append(ts_str.as_str());
    m
}

/// Relies on `rand::random`: it returns a value of the requested type drawn
/// from the thread-local generator; nothing is promised of which value.
pub assume_specification<T>[ rand::random::<T> ]() -> (r: T)
    where
        rand::distributions::Standard: rand::distributions::Distribution<T>,
;

/// What a successful challenge creation leaves behind: the address maps to
/// exactly the new challenge, entries older than the time-to-live are gone,
/// and every other fresh entry is untouched.
pub open spec fn spec_created(
    old_map: Map<Seq<char>, ChallengeData>,
    new_map: Map<Seq<char>, ChallengeData>,
    address: Seq<char>,
    nonce: u64,
    now: i64,
) -> bool {
    &&& new_map.contains_key(address)
    &&& new_map[address].nonce@ == dec_chars(nonce as nat)
    &&& new_map[address].message@ == spec_challenge_message(nonce as nat, now as nat)
    &&& new_map[address].timestamp == now
    &&& forall|k: Seq<char>|
        k != address ==> (new_map.contains_key(k) <==> (old_map.contains_key(k) && spec_fresh(
            old_map[k].timestamp as int,
            now as int,
        )))
    &&& forall|k: Seq<char>| k != address && new_map.contains_key(k) ==> new_map[k] == old_map[k]
}

/// Issues a challenge for `address` with the given nonce: composes the
/// message, stores it (replacing any prior challenge for that address), and
/// evicts entries older than the time-to-live. An empty address is rejected
/// and the store left unchanged.
pub fn create_challenge_with(
    store: &mut ChallengeStore,
    address: &String,
    nonce: u64,
    now: i64,
) -> (r: Result<ChallengeResponse, AuthError>)
    requires
        old(store).wf(),
        now >= 0,
    ensures
        final(store).wf(),
        address@.len() == 0 ==> r == Err::<ChallengeResponse, AuthError>(AuthError::Validation)
            && final(store)@ == old(store)@,
        address@.len() > 0 ==> (match r {
            Ok(resp) => {
                &&& resp.nonce@ == dec_chars(nonce as nat)
                &&& resp.message@ == spec_challenge_message(nonce as nat, now as nat)
                &&& spec_created(old(store)@, final(store)@, address@, nonce, now)
            },
            Err(_) => false,
        }),
{
    if address.as_str().unicode_len() == 0 {
        return Err(AuthError::Validation);
    }
    let nonce_str = u64_to_dec(nonce);
    let message = build_challenge_message(nonce, now);
    let data = ChallengeData { nonce: nonce_str.clone(), message: message.clone(), timestamp: now };
    store.upsert(address.clone(), data);
    store.evict_expired(now);
    Ok(ChallengeResponse { message, nonce: nonce_str })
}

/// Issues a challenge for `address` with a freshly drawn random nonce.
pub fn create_challenge(store: &mut ChallengeStore, address: &String, now: i64) -> (r: Result<
    ChallengeResponse,
    AuthError,
>)
    requires
        old(store).wf(),
        now >= 0,
    ensures
        final(store).wf(),
        address@.len() == 0 ==> r == Err::<ChallengeResponse, AuthError>(AuthError::Validation)
            && final(store)@ == old(store)@,
        address@.len() > 0 ==> (match r {
            Ok(resp) => exists|nonce: u64|
                {
                    &&& resp.nonce@ == dec_chars(nonce as nat)
                    &&& resp.message@ == spec_challenge_message(nonce as nat, now as nat)
                    &&& #[trigger] spec_created(old(store)@, final(store)@, address@, nonce, now)
                },
            Err(_) => false,
        }),
{
    let nonce: u64 = rand::random();
    let r = create_challenge_with(store, address, nonce, now);
    proof {
        if address@.len() > 0 {
            assert(r matches Ok(resp) ==> spec_created(
                old(store)@,
                final(store)@,
                address@,
                nonce,
                now,
            ));
        }
    }
    r
}

/// The verification verdict as a function of the store contents, the request
/// fields and the time. Checks run in a fixed order: field validation, then
/// challenge lookup and freshness, then decoding of both envelopes, then the
/// key-to-address binding, and last the signature itself.
pub open spec fn spec_verify_outcome(
    m: Map<Seq<char>, ChallengeData>,
    address: Seq<char>,
    signature: Seq<char>,
    key: Seq<char>,
    now: int,
) -> Result<(), AuthError> {
    if address.len() == 0 || signature.len() == 0 {
        Err(AuthError::Validation)
    } else if !m.contains_key(address) {
        Err(AuthError::Unauthorized(UnauthorizedReason::NoChallenge))
    } else if !spec_fresh(m[address].timestamp as int, now) {
        Err(AuthError::Unauthorized(UnauthorizedReason::Expired))
    } else {
        match spec_hex_decode(encode_utf8(signature)) {
            None => Err(AuthError::Malformed(MalformedKind::SignatureHex)),
            Some(sig_env_bytes) => match spec_parse_signature_envelope(sig_env_bytes) {
                None => Err(AuthError::Malformed(MalformedKind::SignatureEnvelope)),
                Some((sig, payload, protected)) => match spec_hex_decode(encode_utf8(key)) {
                    None => Err(AuthError::Malformed(MalformedKind::KeyHex)),
                    Some(key_env_bytes) => match spec_parse_key_envelope(key_env_bytes) {
                        None => Err(AuthError::Malformed(MalformedKind::KeyEnvelope)),
                        Some(pk) => {
                            if !(spec_verify_binds(address, pk) is Ok) {
                                Err(AuthError::Unauthorized(UnauthorizedReason::BindingFailed))
                            } else if !ed25519_key_parses(pk) {
                                Err(AuthError::Malformed(MalformedKind::VerifyingKey))
                            } else if spec_accepted(
                                pk,
                                encode_utf8(m[address].message@),
                                protected,
                                payload,
                                sig,
                            ) {
                                Ok(())
                            } else {
                                Err(AuthError::Unauthorized(UnauthorizedReason::InvalidSignature))
                            }
                        },
                    },
                },
            },
        }
    }
}

/// Runs the whole verification for a client's response to a challenge.
///
/// On success the challenge is consumed (one-time use) and a session grant
/// returned for the external issuer to encode; on any failure the store is
/// unchanged, so the client may retry until the challenge expires.
pub fn verify_and_issue_session(store: &mut ChallengeStore, req: &VerifyRequest, now: i64) -> (r:
    Result<SessionGrant, AuthError>)
    requires
        old(store).wf(),
        now >= 0,
    ensures
        final(store).wf(),
        match r {
            Ok(_) => spec_verify_outcome(old(store)@, req.address@, req.signature@, req.key@, now as int)
                is Ok,
            Err(e) => spec_verify_outcome(
                old(store)@,
                req.address@,
                req.signature@,
                req.key@,
                now as int,
            ) == Err::<(), AuthError>(e),
        },
        r matches Ok(grant) ==> {
            &&& final(store)@ == old(store)@.remove(req.address@)
            &&& grant.subject@ == spec_session_subject(req.address@)
            &&& grant.stake_address == req.stake_address
        },
        r is Err ==> final(store)@ == old(store)@,
{
    if req.address.as_str().unicode_len() == 0 || req.signature.as_str().unicode_len() == 0 {
        return Err(AuthError::Validation);
    }
    let challenge = match store.lookup(&req.address) {
        Some(c) => c,
        None => {
            return Err(AuthError::Unauthorized(UnauthorizedReason::NoChallenge));
        },
    };
    proof {
        store.lemma_wf_timestamps(req.address@);
    }
    if now - challenge.timestamp > CHALLENGE_TTL_SECS {
        return Err(AuthError::Unauthorized(UnauthorizedReason::Expired));
    }
    let sig_env_bytes = match hex_decode_bytes(req.signature.as_str().as_bytes()) {
        Some(b) => b,
        None => {
            return Err(AuthError::Malformed(MalformedKind::SignatureHex));
        },
    };
    let envelope = match parse_signature_envelope(sig_env_bytes.as_slice()) {
        Some(e) => e,
        None => {
            return Err(AuthError::Malformed(MalformedKind::SignatureEnvelope));
        },
    };
    let key_env_bytes = match hex_decode_bytes(req.key.as_str().as_bytes()) {
        Some(b) => b,
        None => {
            return Err(AuthError::Malformed(MalformedKind::KeyHex));
        },
    };
    let public_key = match parse_key_envelope(key_env_bytes.as_slice()) {
        Some(k) => k,
        None => {
            return Err(AuthError::Malformed(MalformedKind::KeyEnvelope));
        },
    };
    if verify_binds(&req.address, &public_key).is_err() {
        return Err(AuthError::Unauthorized(UnauthorizedReason::BindingFailed));
    }
    match verify_signature_any(&public_key, challenge.message.as_str().as_bytes(), &envelope) {
        VerificationResult::MalformedInput(kind) => {
            return Err(AuthError::Malformed(kind));
        },
        VerificationResult::Invalid => {
            return Err(AuthError::Unauthorized(UnauthorizedReason::InvalidSignature));
        },
        VerificationResult::Valid => {},
    }
    store.remove(&req.address);
    let subject = convert_to_bech32(&req.address);
    let stake_address = match &req.stake_address {
        Some(s) => Some(s.clone()),
        None => None,
    };
    Ok(SessionGrant { subject, stake_address })
}

} // verus!
