//! Tests of the binary envelope decoder and encoders, including
//! cross-checks against an independent CBOR implementation.

use cardano_blockchain_viewer::envelope::{
    encode_sig_structure, encode_signature_envelope, parse_key_envelope,
    parse_signature_envelope,
};
use cardano_blockchain_viewer::errors::{AuthError, MalformedKind};
use cardano_blockchain_viewer::protocol::{
    create_challenge, verify_and_issue_session, VerifyRequest,
};
use cardano_blockchain_viewer::store::ChallengeStore;
use ciborium::value::{Integer, Value};
use ed25519_dalek::{Signer, SigningKey};

fn test_key(seed_byte: u8) -> SigningKey {
    SigningKey::from_bytes(&[seed_byte; 32])
}

fn address_for(key: &SigningKey) -> String {
    let pk_bytes = key.verifying_key().to_bytes();
    let pub_key =
        cardano_serialization_lib::crypto::PublicKey::from_bytes(&pk_bytes).expect("32 bytes");
    let key_hash = pub_key.hash().to_bytes();
    let mut addr = vec![0x60u8];
    addr.extend_from_slice(&key_hash);
    hex::encode(addr)
}

fn cbor_bytes(v: &Value) -> Vec<u8> {
    let mut out = Vec::new();
    ciborium::ser::into_writer(v, &mut out).expect("serialization succeeds");
    out
}

#[test]
fn raw_and_structured_envelopes_decode_identically() {
    let sig = vec![7u8; 64];
    let raw = parse_signature_envelope(&sig).expect("raw form decodes");
    let structured_bytes = encode_signature_envelope(&sig, None, &Vec::new());
    let structured = parse_signature_envelope(&structured_bytes).expect("structured form decodes");
    assert_eq!(raw.signature, structured.signature);
    assert_eq!(raw.payload, structured.payload);
    assert_eq!(raw.protected, structured.protected);
    assert!(raw.payload.is_empty() && raw.protected.is_empty());
    // an empty byte-string payload decodes the same way as a null payload
    let empty = Vec::new();
    let bstr_payload = encode_signature_envelope(&sig, Some(&empty), &Vec::new());
    let decoded = parse_signature_envelope(&bstr_payload).expect("empty payload decodes");
    assert_eq!(decoded.signature, sig);
    assert!(decoded.payload.is_empty());
}

#[test]
fn both_envelope_shapes_verify_identically_end_to_end() {
    let key = test_key(21);
    let address = address_for(&key);
    for structured in [false, true] {
        let mut store = ChallengeStore::new();
        let resp = create_challenge(&mut store, &address, 500).expect("challenge issued");
        let sig = key.sign(resp.message.as_bytes()).to_bytes().to_vec();
        let envelope_bytes = if structured {
            encode_signature_envelope(&sig, None, &Vec::new())
        } else {
            sig.clone()
        };
        let req = VerifyRequest {
            address: address.clone(),
            stake_address: None,
            signature: hex::encode(envelope_bytes),
            key: hex::encode(key.verifying_key().to_bytes()),
        };
        let r = verify_and_issue_session(&mut store, &req, 501);
        assert!(r.is_ok(), "shape (structured: {structured}) must verify");
    }
}

#[test]
fn envelope_built_by_independent_encoder_decodes() {
    let sig = vec![9u8; 64];
    let payload = b"some payload".to_vec();
    let protected = vec![0xa1, 0x01, 0x27];
    let value = Value::Array(vec![
        Value::Bytes(protected.clone()),
        Value::Map(vec![(Value::Text("hashed".to_string()), Value::Bool(false))]),
        Value::Bytes(payload.clone()),
        Value::Bytes(sig.clone()),
    ]);
    let bytes = cbor_bytes(&value);
    let decoded = parse_signature_envelope(&bytes).expect("decodes");
    assert_eq!(decoded.signature, sig);
    assert_eq!(decoded.payload, payload);
    assert_eq!(decoded.protected, protected);
    // null payload stands for an empty one
    let value_null = Value::Array(vec![
        Value::Bytes(protected.clone()),
        Value::Map(vec![]),
        Value::Null,
        Value::Bytes(sig.clone()),
    ]);
    let decoded_null = parse_signature_envelope(&cbor_bytes(&value_null)).expect("decodes");
    assert!(decoded_null.payload.is_empty());
}

#[test]
fn key_envelope_decodes_raw_and_mapped() {
    let key_bytes = vec![3u8; 32];
    assert_eq!(parse_key_envelope(&key_bytes).expect("raw form"), key_bytes);
    let value = Value::Map(vec![
        (Value::Integer(Integer::from(1)), Value::Integer(Integer::from(1))),
        (Value::Integer(Integer::from(3)), Value::Integer(Integer::from(-8))),
        (Value::Integer(Integer::from(-1)), Value::Integer(Integer::from(6))),
        (Value::Integer(Integer::from(-2)), Value::Bytes(key_bytes.clone())),
    ]);
    let decoded = parse_key_envelope(&cbor_bytes(&value)).expect("mapped form");
    assert_eq!(decoded, key_bytes);
    // a map without the key label is refused
    let no_key = Value::Map(vec![(
        Value::Integer(Integer::from(1)),
        Value::Integer(Integer::from(1)),
    )]);
    assert!(parse_key_envelope(&cbor_bytes(&no_key)).is_none());
    // a wrong-length key is refused
    let short = Value::Map(vec![(
        Value::Integer(Integer::from(-2)),
        Value::Bytes(vec![3u8; 31]),
    )]);
    assert!(parse_key_envelope(&cbor_bytes(&short)).is_none());
}

#[test]
fn malformed_envelopes_are_refused_not_accepted() {
    // truncated structured encoding
    assert!(parse_signature_envelope(&[0x84, 0x40]).is_none());
    // wrong element count
    let three = Value::Array(vec![
        Value::Bytes(vec![]),
        Value::Map(vec![]),
        Value::Bytes(vec![5u8; 64]),
    ]);
    assert!(parse_signature_envelope(&cbor_bytes(&three)).is_none());
    // signature of the wrong length inside the structure
    let short_sig = Value::Array(vec![
        Value::Bytes(vec![]),
        Value::Map(vec![]),
        Value::Null,
        Value::Bytes(vec![5u8; 63]),
    ]);
    assert!(parse_signature_envelope(&cbor_bytes(&short_sig)).is_none());
    // trailing bytes after a well-formed envelope
    let sig = vec![7u8; 64];
    let mut with_trailing = encode_signature_envelope(&sig, None, &Vec::new());
    with_trailing.push(0);
    assert!(parse_signature_envelope(&with_trailing).is_none());
}

#[test]
fn malformed_input_is_a_distinct_protocol_error() {
    let key = test_key(22);
    let address = address_for(&key);
    let mut store = ChallengeStore::new();
    create_challenge(&mut store, &address, 500).expect("challenge issued");
    // bad hex in the signature field
    let req = VerifyRequest {
        address: address.clone(),
        stake_address: None,
        signature: "zz".to_string(),
        key: hex::encode(key.verifying_key().to_bytes()),
    };
    let r = verify_and_issue_session(&mut store, &req, 501);
    assert_eq!(
        r.unwrap_err(),
        AuthError::Malformed(MalformedKind::SignatureHex)
    );
    // hex that decodes to a malformed envelope
    let req2 = VerifyRequest {
        address: address.clone(),
        stake_address: None,
        signature: hex::encode([0x84u8, 0x40]),
        key: hex::encode(key.verifying_key().to_bytes()),
    };
    let r2 = verify_and_issue_session(&mut store, &req2, 501);
    assert_eq!(
        r2.unwrap_err(),
        AuthError::Malformed(MalformedKind::SignatureEnvelope)
    );
    // the failures above did not burn the challenge
    let sig = {
        let resp = store_message(&store, &address);
        key.sign(resp.as_bytes()).to_bytes()
    };
    let req3 = VerifyRequest {
        address: address.clone(),
        stake_address: None,
        signature: hex::encode(sig),
        key: hex::encode(key.verifying_key().to_bytes()),
    };
    assert!(verify_and_issue_session(&mut store, &req3, 502).is_ok());
}

fn store_message(store: &ChallengeStore, address: &String) -> String {
    store.lookup(address).expect("challenge present").message
}

#[test]
fn malformed_key_material_is_reported_distinctly() {
    let key = test_key(26);
    let address = address_for(&key);
    let mut store = ChallengeStore::new();
    let resp = create_challenge(&mut store, &address, 900).expect("challenge issued");
    let sig = key.sign(resp.message.as_bytes()).to_bytes();
    // bad hex in the key field
    let req = VerifyRequest {
        address: address.clone(),
        stake_address: None,
        signature: hex::encode(sig),
        key: "zz".to_string(),
    };
    let r = verify_and_issue_session(&mut store, &req, 901);
    assert_eq!(r.unwrap_err(), AuthError::Malformed(MalformedKind::KeyHex));
    // hex that decodes to a malformed key envelope (a bare integer)
    let req2 = VerifyRequest {
        address: address.clone(),
        stake_address: None,
        signature: hex::encode(sig),
        key: "07".to_string(),
    };
    let r2 = verify_and_issue_session(&mut store, &req2, 901);
    assert_eq!(r2.unwrap_err(), AuthError::Malformed(MalformedKind::KeyEnvelope));
}

#[test]
fn unusable_verifying_key_is_reported_after_binding() {
    // 32 bytes that bind to the address but are no valid verification key
    let mut bogus = None;
    for b in 0u8..=255 {
        let mut candidate = [0u8; 32];
        candidate[0] = b;
        if ed25519_dalek::VerifyingKey::from_bytes(&candidate).is_err() {
            bogus = Some(candidate);
            break;
        }
    }
    let bogus_key = bogus.expect("some 32-byte string is not a valid key");
    let pub_key =
        cardano_serialization_lib::crypto::PublicKey::from_bytes(&bogus_key).expect("32 bytes");
    let mut addr = vec![0x60u8];
    addr.extend_from_slice(&pub_key.hash().to_bytes());
    let address = hex::encode(addr);
    let mut store = ChallengeStore::new();
    create_challenge(&mut store, &address, 950).expect("challenge issued");
    let req = VerifyRequest {
        address,
        stake_address: None,
        signature: hex::encode([1u8; 64]),
        key: hex::encode(bogus_key),
    };
    let r = verify_and_issue_session(&mut store, &req, 951);
    assert_eq!(
        r.unwrap_err(),
        AuthError::Malformed(MalformedKind::VerifyingKey)
    );
}

#[test]
fn context_structure_matches_independent_encoder() {
    let protected = vec![0xa1, 0x01, 0x27];
    let payload = b"payload".to_vec();
    let ours = encode_sig_structure(&protected, &payload);
    let value = Value::Array(vec![
        Value::Text("Signature1".to_string()),
        Value::Bytes(protected.clone()),
        Value::Bytes(Vec::new()),
        Value::Bytes(payload.clone()),
    ]);
    assert_eq!(ours, cbor_bytes(&value));
}

#[test]
fn context_signed_envelope_verifies() {
    // a wallet that signs the full signing-context structure
    let key = test_key(23);
    let address = address_for(&key);
    let mut store = ChallengeStore::new();
    let resp = create_challenge(&mut store, &address, 600).expect("challenge issued");
    let protected = vec![0xa1, 0x01, 0x27];
    let payload = resp.message.as_bytes().to_vec();
    let to_sign = encode_sig_structure(&protected, &payload);
    let sig = key.sign(&to_sign).to_bytes().to_vec();
    let envelope = encode_signature_envelope(&sig, Some(&payload), &protected);
    let req = VerifyRequest {
        address,
        stake_address: None,
        signature: hex::encode(envelope),
        key: hex::encode(key.verifying_key().to_bytes()),
    };
    assert!(verify_and_issue_session(&mut store, &req, 601).is_ok());
}

#[test]
fn hex_text_signature_verifies() {
    // a wallet that was asked to sign the hex rendering of the message
    let key = test_key(24);
    let address = address_for(&key);
    let mut store = ChallengeStore::new();
    let resp = create_challenge(&mut store, &address, 700).expect("challenge issued");
    let hex_text = hex::encode(resp.message.as_bytes());
    let sig = key.sign(hex_text.as_bytes()).to_bytes().to_vec();
    let req = VerifyRequest {
        address,
        stake_address: None,
        signature: hex::encode(sig),
        key: hex::encode(key.verifying_key().to_bytes()),
    };
    assert!(verify_and_issue_session(&mut store, &req, 701).is_ok());
}

#[test]
fn key_envelope_in_cose_form_verifies_end_to_end() {
    let key = test_key(25);
    let address = address_for(&key);
    let mut store = ChallengeStore::new();
    let resp = create_challenge(&mut store, &address, 800).expect("challenge issued");
    let sig = key.sign(resp.message.as_bytes()).to_bytes().to_vec();
    let key_value = Value::Map(vec![
        (Value::Integer(Integer::from(1)), Value::Integer(Integer::from(1))),
        (Value::Integer(Integer::from(-1)), Value::Integer(Integer::from(6))),
        (
            Value::Integer(Integer::from(-2)),
            Value::Bytes(key.verifying_key().to_bytes().to_vec()),
        ),
    ]);
    let req = VerifyRequest {
        address,
        stake_address: None,
        signature: hex::encode(sig),
        key: hex::encode(cbor_bytes(&key_value)),
    };
    assert!(verify_and_issue_session(&mut store, &req, 801).is_ok());
}
