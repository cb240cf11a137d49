//! End-to-end tests of the challenge-response protocol with real Ed25519
//! keys and real addresses.

use cardano_blockchain_viewer::errors::{AuthError, UnauthorizedReason};
use cardano_blockchain_viewer::protocol::{
    create_challenge, create_challenge_with, verify_and_issue_session, VerifyRequest,
};
use cardano_blockchain_viewer::store::ChallengeStore;
use ed25519_dalek::{Signer, SigningKey};

/// A deterministic keypair for tests.
fn test_key(seed_byte: u8) -> SigningKey {
    SigningKey::from_bytes(&[seed_byte; 32])
}

/// The hex form of an enterprise address (key payment credential, testnet)
/// derived from a verifying key.
fn address_for(key: &SigningKey) -> String {
    let pk_bytes = key.verifying_key().to_bytes();
    let pub_key =
        cardano_serialization_lib::crypto::PublicKey::from_bytes(&pk_bytes).expect("32 bytes");
    let key_hash = pub_key.hash().to_bytes();
    let mut addr = vec![0x60u8];
    addr.extend_from_slice(&key_hash);
    hex::encode(addr)
}

fn request_for(address: &str, signature: &[u8], key: &SigningKey) -> VerifyRequest {
    VerifyRequest {
        address: address.to_string(),
        stake_address: None,
        signature: hex::encode(signature),
        key: hex::encode(key.verifying_key().to_bytes()),
    }
}

#[test]
fn full_flow_succeeds_exactly_once() {
    let key = test_key(1);
    let address = address_for(&key);
    let mut store = ChallengeStore::new();
    let resp = create_challenge(&mut store, &address, 1000).expect("challenge issued");
    let signature = key.sign(resp.message.as_bytes());
    let req = request_for(&address, &signature.to_bytes(), &key);
    let grant = verify_and_issue_session(&mut store, &req, 1010).expect("verification passes");
    assert!(grant.subject.starts_with("addr"));
    assert_eq!(grant.stake_address, None);
    // the challenge is consumed: the same request is now unauthorized
    let again = verify_and_issue_session(&mut store, &req, 1010);
    assert_eq!(
        again.unwrap_err(),
        AuthError::Unauthorized(UnauthorizedReason::NoChallenge)
    );
}

#[test]
fn verify_without_challenge_is_unauthorized() {
    let key = test_key(2);
    let address = address_for(&key);
    let mut store = ChallengeStore::new();
    let signature = key.sign(b"anything");
    let req = request_for(&address, &signature.to_bytes(), &key);
    let r = verify_and_issue_session(&mut store, &req, 50);
    assert_eq!(
        r.unwrap_err(),
        AuthError::Unauthorized(UnauthorizedReason::NoChallenge)
    );
}

#[test]
fn expired_challenge_is_rejected_despite_valid_signature() {
    let key = test_key(3);
    let address = address_for(&key);
    let mut store = ChallengeStore::new();
    let resp = create_challenge(&mut store, &address, 1000).expect("challenge issued");
    let signature = key.sign(resp.message.as_bytes());
    let req = request_for(&address, &signature.to_bytes(), &key);
    // 301 seconds later: one past the time-to-live
    let r = verify_and_issue_session(&mut store, &req, 1301);
    assert_eq!(
        r.unwrap_err(),
        AuthError::Unauthorized(UnauthorizedReason::Expired)
    );
    // at exactly 300 seconds the challenge still counts
    let r2 = verify_and_issue_session(&mut store, &req, 1300);
    assert!(r2.is_ok());
}

#[test]
fn second_challenge_overwrites_first() {
    let key = test_key(4);
    let address = address_for(&key);
    let mut store = ChallengeStore::new();
    let first = create_challenge(&mut store, &address, 1000).expect("first challenge");
    let second = create_challenge(&mut store, &address, 1001).expect("second challenge");
    assert_ne!(first.nonce, second.nonce);
    // signing the overwritten message no longer verifies
    let stale = key.sign(first.message.as_bytes());
    let req1 = request_for(&address, &stale.to_bytes(), &key);
    let r1 = verify_and_issue_session(&mut store, &req1, 1002);
    assert_eq!(
        r1.unwrap_err(),
        AuthError::Unauthorized(UnauthorizedReason::InvalidSignature)
    );
    // the failed attempt did not burn the challenge; the fresh message works
    let good = key.sign(second.message.as_bytes());
    let req2 = request_for(&address, &good.to_bytes(), &key);
    assert!(verify_and_issue_session(&mut store, &req2, 1002).is_ok());
}

#[test]
fn foreign_key_fails_binding_even_with_valid_signature() {
    let owner = test_key(5);
    let intruder = test_key(6);
    let address = address_for(&owner);
    let mut store = ChallengeStore::new();
    let resp = create_challenge(&mut store, &address, 1000).expect("challenge issued");
    // the intruder signs the right message with their own key
    let signature = intruder.sign(resp.message.as_bytes());
    let req = request_for(&address, &signature.to_bytes(), &intruder);
    let r = verify_and_issue_session(&mut store, &req, 1001);
    assert_eq!(
        r.unwrap_err(),
        AuthError::Unauthorized(UnauthorizedReason::BindingFailed)
    );
}

#[test]
fn corrupted_signature_fails() {
    let key = test_key(7);
    let address = address_for(&key);
    let mut store = ChallengeStore::new();
    let resp = create_challenge(&mut store, &address, 1000).expect("challenge issued");
    let mut sig = key.sign(resp.message.as_bytes()).to_bytes();
    sig[10] ^= 0x01;
    let req = request_for(&address, &sig, &key);
    let r = verify_and_issue_session(&mut store, &req, 1001);
    assert_eq!(
        r.unwrap_err(),
        AuthError::Unauthorized(UnauthorizedReason::InvalidSignature)
    );
}

#[test]
fn empty_fields_are_validation_errors() {
    let mut store = ChallengeStore::new();
    let r = create_challenge(&mut store, &String::new(), 10);
    assert_eq!(r.unwrap_err(), AuthError::Validation);
    let req = VerifyRequest {
        address: String::new(),
        stake_address: None,
        signature: "abcd".to_string(),
        key: "abcd".to_string(),
    };
    let r2 = verify_and_issue_session(&mut store, &req, 10);
    assert_eq!(r2.unwrap_err(), AuthError::Validation);
    let req3 = VerifyRequest {
        address: "aa".to_string(),
        stake_address: None,
        signature: String::new(),
        key: "abcd".to_string(),
    };
    let r3 = verify_and_issue_session(&mut store, &req3, 10);
    assert_eq!(r3.unwrap_err(), AuthError::Validation);
}

#[test]
fn challenge_message_embeds_nonce_and_time() {
    let mut store = ChallengeStore::new();
    let address = "aa".to_string();
    let resp = create_challenge_with(&mut store, &address, 42, 1234).expect("challenge issued");
    assert_eq!(resp.nonce, "42");
    assert_eq!(
        resp.message,
        "Sign this message to authenticate with Cardano Blockchain Viewer\n\nNonce: 42\nTimestamp: 1234"
    );
}

#[test]
fn stake_address_is_carried_into_the_grant() {
    let key = test_key(8);
    let address = address_for(&key);
    let mut store = ChallengeStore::new();
    let resp = create_challenge(&mut store, &address, 100).expect("challenge issued");
    let signature = key.sign(resp.message.as_bytes());
    let mut req = request_for(&address, &signature.to_bytes(), &key);
    req.stake_address = Some("stake_test1xyz".to_string());
    let grant = verify_and_issue_session(&mut store, &req, 101).expect("verification passes");
    assert_eq!(grant.stake_address.as_deref(), Some("stake_test1xyz"));
}
