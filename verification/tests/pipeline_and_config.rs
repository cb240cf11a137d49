//! Tests of the event pipeline decisions, the buffer statistics, the
//! provider helpers, the configuration profiles and the session claims.

use cardano_blockchain_viewer::blockfrost::{
    blockfrost_base_url, detect_network_from_address, lovelace_balance,
    network_mismatch, normalize_address_for_blockfrost, AddressNetwork, BlockfrostAmount,
    BlockfrostTransaction, BlockfrostTxDetails, ProviderNetwork,
};
use cardano_blockchain_viewer::config::{CardanoConfig, BUFFER_SIZE, MAX_BLOCK_COUNT, MAX_TX_COUNT};
use cardano_blockchain_viewer::jwt::{JwtManager, SESSION_LIFETIME_SECS};
use cardano_blockchain_viewer::models::{
    AppState, BlockchainEvent, BlockRecord, Context, OuraEvent, Point, Record,
};
use cardano_blockchain_viewer::services::{
    convert_oura_event, is_json_line, should_send_stats, OuraReader,
};
use cardano_blockchain_viewer::user::{transaction_fallback, transaction_from_details};

fn block_event(number: u64, slot: u64) -> BlockchainEvent {
    BlockchainEvent::Block {
        slot,
        hash: "h".to_string(),
        number,
        epoch: 1,
        tx_count: 2,
        timestamp: 3,
        details: serde_json::Value::Null,
    }
}

#[test]
fn buffer_counts_and_rotates() {
    let mut state = AppState::new(4);
    assert_eq!(state.get_stats().total_events, 0);
    state.add_event(block_event(7, 70), 2);
    state.add_event(
        BlockchainEvent::Transaction {
            hash: "t".to_string(),
            fee: 1,
            inputs: 2,
            outputs: 3,
            total_output: 4,
            timestamp: 5,
            details: serde_json::Value::Null,
        },
        2,
    );
    state.add_event(block_event(8, 80), 2);
    let stats = state.get_stats();
    assert_eq!(stats.total_events, 3);
    assert_eq!(stats.blocks_count, 2);
    assert_eq!(stats.transactions_count, 1);
    assert_eq!(stats.last_block_number, 8);
    assert_eq!(stats.last_slot, 80);
    // capacity two: the first event was dropped
    assert_eq!(stats.buffer_size, 2);
    assert!(!state.should_clear(3, 2));
    assert!(state.should_clear(2, 2));
    state.clear_buffer();
    let cleared = state.get_stats();
    assert_eq!(cleared.blocks_count, 0);
    assert_eq!(cleared.buffer_size, 0);
    assert_eq!(cleared.total_events, 3);
}

#[test]
fn stats_are_sent_for_blocks_and_every_fifth_event() {
    let other = BlockchainEvent::RollBack {
        block_hash: "h".to_string(),
        block_slot: 1,
        timestamp: 2,
    };
    assert!(should_send_stats(&block_event(1, 1), 3));
    assert!(!should_send_stats(&other, 3));
    assert!(should_send_stats(&other, 10));
}

#[test]
fn event_lines_are_recognized() {
    assert!(is_json_line("{\"event\":\"block\"}"));
    assert!(is_json_line("   {\"x\":1}"));
    assert!(is_json_line("\t\r\n{"));
    assert!(!is_json_line(""));
    assert!(!is_json_line("   "));
    assert!(!is_json_line("log: starting up"));
}

#[test]
fn reader_events_convert_by_record_kind() {
    let event = OuraEvent {
        event: "block".to_string(),
        point: Point { hash: "p".to_string(), slot: 5 },
        record: Record {
            block: Some(BlockRecord {
                hash: "bh".to_string(),
                number: 9,
                slot: 90,
                epoch: 4,
                epoch_slot: 1,
                era: "e".to_string(),
                body_size: 100,
                issuer_vkey: "i".to_string(),
                vrf_vkey: "v".to_string(),
                tx_count: 12,
                previous_hash: "ph".to_string(),
            }),
            transaction: None,
            tx_input: None,
            tx_output: None,
            roll_back: None,
            context: Context {
                block_hash: None,
                block_number: None,
                slot: None,
                timestamp: Some(777),
                tx_hash: None,
                tx_idx: None,
                certificate_idx: None,
                input_idx: None,
                output_idx: None,
                output_address: None,
            },
            fingerprint: None,
        },
    };
    match convert_oura_event(event, serde_json::Value::Null) {
        BlockchainEvent::Block { number, slot, tx_count, timestamp, .. } => {
            assert_eq!(number, 9);
            assert_eq!(slot, 90);
            assert_eq!(tx_count, 12);
            assert_eq!(timestamp, 777);
        }
        other => panic!("expected a block event, got {:?}", other),
    }
}

#[test]
fn provider_helpers_compute_exactly() {
    assert_eq!(
        detect_network_from_address("addr1qxyz"),
        AddressNetwork::Mainnet
    );
    assert_eq!(
        detect_network_from_address("addr_test1qxyz"),
        AddressNetwork::Testnet
    );
    assert_eq!(detect_network_from_address("60ff"), AddressNetwork::Unknown);
    assert!(network_mismatch(AddressNetwork::Mainnet, ProviderNetwork::Preprod));
    assert!(network_mismatch(AddressNetwork::Testnet, ProviderNetwork::Mainnet));
    assert!(!network_mismatch(AddressNetwork::Testnet, ProviderNetwork::Preview));
    assert_eq!(
        blockfrost_base_url(ProviderNetwork::Preprod),
        "https://cardano-preprod.blockfrost.io/api/v0/"
    );
    let amounts = vec![
        BlockfrostAmount { unit: "asset1".to_string(), quantity: "5".to_string() },
        BlockfrostAmount { unit: "lovelace".to_string(), quantity: "123456".to_string() },
        BlockfrostAmount { unit: "lovelace".to_string(), quantity: "999".to_string() },
    ];
    assert_eq!(lovelace_balance(&amounts), "123456");
    assert_eq!(lovelace_balance(&Vec::new()), "0");
}

#[test]
fn provider_address_normalization() {
    // checksum text passes through
    let bech = "addr_test1vz.whatever".to_string();
    assert_eq!(
        normalize_address_for_blockfrost(&bech).expect("kept"),
        bech
    );
    // hex is converted to the checksum form
    let key = ed25519_dalek::SigningKey::from_bytes(&[31; 32]);
    let hash = cardano_serialization_lib::crypto::PublicKey::from_bytes(
        &key.verifying_key().to_bytes(),
    )
    .expect("32 bytes")
    .hash()
    .to_bytes();
    let mut addr = vec![0x60u8];
    addr.extend_from_slice(&hash);
    let expected = cardano_serialization_lib::address::Address::from_bytes(addr.clone())
        .expect("valid address")
        .to_bech32(None)
        .expect("renders");
    assert_eq!(
        normalize_address_for_blockfrost(&hex::encode(&addr)).expect("converted"),
        expected
    );
    // neither form is refused
    assert!(normalize_address_for_blockfrost(&"nonsense!".to_string()).is_none());
}

#[test]
fn transactions_assemble_from_provider_responses() {
    let listed = BlockfrostTransaction {
        tx_hash: "abc".to_string(),
        tx_index: Some(4),
        block_height: 1234,
        block_time: 99,
    };
    let details = BlockfrostTxDetails {
        hash: "abc".to_string(),
        block: "blockhash".to_string(),
        block_height: 1234,
        block_time: 99,
        slot: Some(555),
        index: None,
        fees: "17".to_string(),
    };
    let t = transaction_from_details(&listed, details);
    assert_eq!(t.slot, 555);
    assert_eq!(t.index, 4);
    assert_eq!(t.fees, "17");
    let f = transaction_fallback(&listed);
    assert_eq!(f.block, "block_1234");
    assert_eq!(f.slot, 0);
    assert_eq!(f.fees, "0");
    assert_eq!(f.index, 4);
}

#[test]
fn configuration_profiles_and_claims() {
    assert_eq!(BUFFER_SIZE, 100);
    assert_eq!(MAX_BLOCK_COUNT, 100);
    assert_eq!(MAX_TX_COUNT, 500);
    let preprod = CardanoConfig::preprod();
    assert_eq!(preprod.magic, Some(1));
    assert_eq!(preprod.network_name, "PreProd Testnet");
    assert_eq!(CardanoConfig::preview().magic, Some(2));
    assert_eq!(CardanoConfig::mainnet().network_name, "Mainnet");
    let default = CardanoConfig::default();
    assert_eq!(default.magic, Some(1));
    let reader = OuraReader::new(CardanoConfig::mainnet());
    assert_eq!(reader.config().network_name, "Mainnet");
    let manager = JwtManager::new("SECRET-REDACTED".to_string());
    assert_eq!(manager.secret(), "SECRET-REDACTED");
    let claims = manager.claims_for("addr1x".to_string(), Some("stake1y".to_string()), 1000);
    assert_eq!(claims.wallet_address, "addr1x");
    assert_eq!(claims.stake_address.as_deref(), Some("stake1y"));
    assert_eq!(claims.iat, 1000);
    assert_eq!(claims.exp as i64, 1000 + SESSION_LIFETIME_SECS);
}
