//! Unit tests of the challenge store, the address binder and the decimal
//! formatter.

use cardano_blockchain_viewer::address::{convert_to_bech32, verify_binds};
use cardano_blockchain_viewer::digits::u64_to_dec;
use cardano_blockchain_viewer::errors::BindError;
use cardano_blockchain_viewer::protocol::create_challenge_with;
use cardano_blockchain_viewer::store::{ChallengeData, ChallengeStore};
use ed25519_dalek::SigningKey;

fn key_hash_of(pk: &[u8; 32]) -> Vec<u8> {
    cardano_serialization_lib::crypto::PublicKey::from_bytes(pk)
        .expect("32 bytes")
        .hash()
        .to_bytes()
}

#[test]
fn store_upsert_lookup_remove() {
    let mut store = ChallengeStore::new();
    let a = "addr-one".to_string();
    let b = "addr-two".to_string();
    assert!(store.lookup(&a).is_none());
    store.upsert(
        a.clone(),
        ChallengeData { nonce: "1".to_string(), message: "m1".to_string(), timestamp: 10 },
    );
    store.upsert(
        b.clone(),
        ChallengeData { nonce: "2".to_string(), message: "m2".to_string(), timestamp: 11 },
    );
    assert_eq!(store.lookup(&a).expect("present").nonce, "1");
    store.upsert(
        a.clone(),
        ChallengeData { nonce: "3".to_string(), message: "m3".to_string(), timestamp: 12 },
    );
    assert_eq!(store.lookup(&a).expect("present").nonce, "3");
    assert_eq!(store.lookup(&b).expect("present").message, "m2");
    store.remove(&a);
    assert!(store.lookup(&a).is_none());
    assert!(store.lookup(&b).is_some());
}

#[test]
fn stale_entries_are_evicted_on_creation() {
    let mut store = ChallengeStore::new();
    let old_addr = "stale".to_string();
    let new_addr = "fresh".to_string();
    create_challenge_with(&mut store, &old_addr, 1, 0).expect("first challenge");
    // 301 seconds later the old entry is past its time-to-live
    create_challenge_with(&mut store, &new_addr, 2, 301).expect("second challenge");
    assert!(store.lookup(&old_addr).is_none());
    assert!(store.lookup(&new_addr).is_some());
    // an entry exactly at the time-to-live boundary survives
    let edge = "edge".to_string();
    create_challenge_with(&mut store, &edge, 3, 302).expect("third challenge");
    create_challenge_with(&mut store, &old_addr, 4, 602).expect("fourth challenge");
    assert!(store.lookup(&edge).is_some());
}

#[test]
fn binding_accepts_the_owning_key_only() {
    let owner = SigningKey::from_bytes(&[11; 32]);
    let other = SigningKey::from_bytes(&[12; 32]);
    let pk = owner.verifying_key().to_bytes().to_vec();
    let hash = key_hash_of(owner.verifying_key().as_bytes());
    // enterprise address, testnet, key credential
    let mut addr = vec![0x60u8];
    addr.extend_from_slice(&hash);
    let addr_hex = hex::encode(&addr);
    assert!(verify_binds(&addr_hex, &pk).is_ok());
    let other_pk = other.verifying_key().to_bytes().to_vec();
    assert_eq!(
        verify_binds(&addr_hex, &other_pk).unwrap_err(),
        BindError::KeyMismatch
    );
    // the checksum-encoded form of the same address binds too
    let bech = cardano_serialization_lib::address::Address::from_bytes(addr.clone())
        .expect("valid address")
        .to_bech32(None)
        .expect("renders");
    assert!(verify_binds(&bech, &pk).is_ok());
}

#[test]
fn binding_supports_base_and_pointer_shapes() {
    let owner = SigningKey::from_bytes(&[13; 32]);
    let pk = owner.verifying_key().to_bytes().to_vec();
    let hash = key_hash_of(owner.verifying_key().as_bytes());
    // base address: payment key hash + stake key hash
    let mut base = vec![0x00u8];
    base.extend_from_slice(&hash);
    base.extend_from_slice(&[0u8; 28]);
    assert!(verify_binds(&hex::encode(&base), &pk).is_ok());
    // pointer address: payment key hash + three one-byte naturals
    let mut pointer = vec![0x40u8];
    pointer.extend_from_slice(&hash);
    pointer.extend_from_slice(&[1, 2, 3]);
    assert!(verify_binds(&hex::encode(&pointer), &pk).is_ok());
    // pointer with a two-byte natural
    let mut pointer2 = vec![0x40u8];
    pointer2.extend_from_slice(&hash);
    pointer2.extend_from_slice(&[0x81, 0x01, 2, 3]);
    assert!(verify_binds(&hex::encode(&pointer2), &pk).is_ok());
}

#[test]
fn binding_rejects_scripts_and_unsupported_shapes() {
    let owner = SigningKey::from_bytes(&[14; 32]);
    let pk = owner.verifying_key().to_bytes().to_vec();
    let hash = key_hash_of(owner.verifying_key().as_bytes());
    // script payment credential (enterprise, type 7)
    let mut script = vec![0x70u8];
    script.extend_from_slice(&hash);
    assert_eq!(
        verify_binds(&hex::encode(&script), &pk).unwrap_err(),
        BindError::ScriptCredential
    );
    // reward address (type 14)
    let mut reward = vec![0xe0u8];
    reward.extend_from_slice(&hash);
    assert_eq!(
        verify_binds(&hex::encode(&reward), &pk).unwrap_err(),
        BindError::UnsupportedShape
    );
    // malformed: enterprise header with a truncated credential
    let bad = vec![0x60u8, 1, 2, 3];
    assert_eq!(
        verify_binds(&hex::encode(&bad), &pk).unwrap_err(),
        BindError::BadAddress
    );
    // neither hex nor checksum text
    assert_eq!(
        verify_binds(&"not an address!".to_string(), &pk).unwrap_err(),
        BindError::BadAddress
    );
}

#[test]
fn subject_rendering_round_trips_through_the_checksum_form() {
    let owner = SigningKey::from_bytes(&[15; 32]);
    let hash = key_hash_of(owner.verifying_key().as_bytes());
    let mut addr = vec![0x60u8];
    addr.extend_from_slice(&hash);
    let hex_form = hex::encode(&addr);
    let expected = cardano_serialization_lib::address::Address::from_bytes(addr)
        .expect("valid address")
        .to_bech32(None)
        .expect("renders");
    assert_eq!(convert_to_bech32(&hex_form), expected);
    // a checksum form is kept as it is
    assert_eq!(convert_to_bech32(&expected), expected);
    // something that is neither decodes to itself
    let odd = "zz-not-hex".to_string();
    assert_eq!(convert_to_bech32(&odd), odd);
}

#[test]
fn decimal_rendering_is_exact() {
    assert_eq!(u64_to_dec(0), "0");
    assert_eq!(u64_to_dec(7), "7");
    assert_eq!(u64_to_dec(10), "10");
    assert_eq!(u64_to_dec(90543), "90543");
    assert_eq!(u64_to_dec(u64::MAX), "18446744073709551615");
}
