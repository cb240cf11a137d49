//! Decision logic of the event pipeline: which lines from the reader are
//! events, how a reader event becomes a broadcast event, and when statistics
//! are sent. The subprocess, channels and sockets live at the service edge.

use vstd::prelude::*;

use crate::config::CardanoConfig;
use crate::models::BlockchainEvent;
use crate::models::OuraEvent;
use vstd::string::StringSliceAdditionalSpecFns;

verus! {

/// The reader of chain events: holds the network profile that the
/// subprocess is started with.
pub struct OuraReader {
    config: CardanoConfig,
}

impl OuraReader {
    /// The profile this reader was created with.
    pub closed spec fn spec_config(&self) -> CardanoConfig {
        self.config
    }

    /// A reader for the given network profile.
    pub fn new(config: CardanoConfig) -> (r: Self)
        ensures
            r.spec_config() == config,
    {
        OuraReader { config }
    }

    /// The network profile, for the process runner at the service edge.
    pub fn config(&self) -> (r: &CardanoConfig)
        ensures
            *r == self.spec_config(),
    {
        &self.config
    }
}

/// An ASCII whitespace byte: space, tab, carriage return or line feed.
pub open spec fn spec_is_ws(b: u8) -> bool {
    b == 32 || b == 9 || b == 13 || b == 10
}

/// Whether a line from the reader looks like an event: after leading ASCII
/// whitespace it starts with an opening brace.
pub open spec fn spec_is_json_line(s: Seq<u8>) -> bool
    decreases s.len(),
{
    if s.len() == 0 {
        false
    } else if spec_is_ws(s[0]) {
        spec_is_json_line(s.drop_first())
    } else {
        s[0] == 123
    }
}

/// Tests whether a line from the reader should be parsed as an event.
pub fn is_json_line(line: &str) -> (r: bool)
    ensures
        r == spec_is_json_line(line.spec_bytes()),
{
    let bytes = line.as_bytes();
    let n = bytes.len();
    let mut i: usize = 0;
    assert(bytes@.skip(0) =~= bytes@);
    while i < n
        invariant
            i <= n,
            n == bytes@.len(),
            bytes@ == line.spec_bytes(),
            spec_is_json_line(bytes@) == spec_is_json_line(bytes@.skip(i as int)),
        decreases n - i,
    {
        let b = *vstd::slice::slice_index_get(bytes, i);
        proof {
            assert(bytes@.skip(i as int)[0] == bytes@[i as int]);
            assert(bytes@.skip(i as int).drop_first() =~= bytes@.skip(i + 1));
        }
        if b == 32 || b == 9 || b == 13 || b == 10 {
            i = i + 1;
        } else {
            assert(bytes@.skip(i as int).len() > 0);
            assert(!spec_is_ws(bytes@.skip(i as int)[0]));
            assert(spec_is_json_line(bytes@.skip(i as int)) == (b == 123));
            return b == 123;
        }
    }
    assert(bytes@.skip(i as int).len() == 0);
    false
}

/// Whether statistics are broadcast after this event: always for blocks and
/// transactions, and every fifth event otherwise.
pub fn should_send_stats(event: &BlockchainEvent, total_events: usize) -> (r: bool)
    ensures
        r == (event is Block || event is Transaction || total_events % 5 == 0),
{
    match event {
        BlockchainEvent::Block { .. } => true,
        BlockchainEvent::Transaction { .. } => true,
        _ => total_events % 5 == 0,
    }
}

/// Converts a reader event into the broadcast form, taking the serialized
/// `details` for the matched record from the caller. The first payload
/// present wins, in the fixed order block, transaction, input, output,
/// rollback; an event with none of them becomes `Other`.
pub fn convert_oura_event(oura_event: OuraEvent, details: serde_json::Value) -> (r:
    BlockchainEvent)
    ensures
        oura_event.record.block matches Some(b) ==> (r matches BlockchainEvent::Block {
            slot,
            hash,
            number,
            epoch,
            tx_count,
            timestamp,
            ..
        } && slot == b.slot && hash@ == b.hash@ && number == b.number && epoch == b.epoch
            && tx_count == b.tx_count && timestamp == (match oura_event.record.context.timestamp {
            Some(t) => t,
            None => 0u64,
        })),
        oura_event.record.block is None ==> (oura_event.record.transaction matches Some(t) ==> (
        r matches BlockchainEvent::Transaction { hash, fee, inputs, outputs, total_output, .. }
            && hash@ == t.hash@ && fee == t.fee && inputs == t.input_count && outputs
            == t.output_count && total_output == t.total_output)),
        oura_event.record.block is None && oura_event.record.transaction is None ==> (
        oura_event.record.tx_input matches Some(i) ==> (
        r matches BlockchainEvent::TxInput { input_tx_id, input_index, .. } && input_tx_id@
            == i.tx_id@ && input_index == i.index)),
        oura_event.record.block is None && oura_event.record.transaction is None
            && oura_event.record.tx_input is None ==> (
        oura_event.record.tx_output matches Some(o) ==> (
        r matches BlockchainEvent::TxOutput { address, amount, .. } && address@
            == o.address@ && amount == o.amount)),
        oura_event.record.block is None && oura_event.record.transaction is None
            && oura_event.record.tx_input is None && oura_event.record.tx_output is None ==> (
        oura_event.record.roll_back matches Some(rb) ==> (
        r matches BlockchainEvent::RollBack { block_hash, block_slot, .. } && block_hash@
            == rb.block_hash@ && block_slot == rb.block_slot)),
        oura_event.record.block is None && oura_event.record.transaction is None
            && oura_event.record.tx_input is None && oura_event.record.tx_output is None
            && oura_event.record.roll_back is None ==> (
        r matches BlockchainEvent::Other { event_type, .. } && event_type@
            == oura_event.event@),
{
    let timestamp = match oura_event.record.context.timestamp {
        Some(t) => t,
        None => 0,
    };
    if let Some(block) = oura_event.record.block {
        BlockchainEvent::Block {
            slot: block.slot,
            hash: block.hash,
            number: block.number,
            epoch: block.epoch,
            tx_count: block.tx_count,
            timestamp,
            details,
        }
    } else if let Some(tx) = oura_event.record.transaction {
        BlockchainEvent::Transaction {
            hash: tx.hash,
            fee: tx.fee,
            inputs: tx.input_count,
            outputs: tx.output_count,
            total_output: tx.total_output,
            timestamp,
            details,
        }
    } else if let Some(input) = oura_event.record.tx_input {
        BlockchainEvent::TxInput {
            tx_hash: match oura_event.record.context.tx_hash {
                Some(h) => h,
                None => String::new(),
            },
            input_tx_id: input.tx_id,
            input_index: input.index,
            timestamp,
        }
    } else if let Some(output) = oura_event.record.tx_output {
        BlockchainEvent::TxOutput {
            tx_hash: match oura_event.record.context.tx_hash {
                Some(h) => h,
                None => String::new(),
            },
            address: output.address,
            amount: output.amount,
            timestamp,
        }
    } else if let Some(rollback) = oura_event.record.roll_back {
        BlockchainEvent::RollBack {
            block_hash: rollback.block_hash,
            block_slot: rollback.block_slot,
            timestamp,
        }
    } else {
        BlockchainEvent::Other { event_type: oura_event.event, timestamp, details }
    }
}

} // verus!
