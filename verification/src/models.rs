//! Chain-event records as the reader reports them, the simplified events the
//! service broadcasts, and the bounded buffer of recent events.
//!
//! Ancillary `details` fields carry an opaque structured value produced at
//! the service edge; nothing here reads inside one.

use vstd::prelude::*;

use std::collections::VecDeque;

verus! {

/// The opaque structured value that `details` fields carry through.
#[verifier::external_type_specification]
#[verifier::external_body]
pub struct ExValue(serde_json::Value);

/// A chain point: block hash and slot.
#[derive(Debug, Clone)]
pub struct Point {
    pub hash: String,
    pub slot: u64,
}

/// A rollback notice.
#[derive(Debug, Clone)]
pub struct RollBackRecord {
    pub block_hash: String,
    pub block_slot: u64,
}

/// A block as reported by the reader.
#[derive(Debug, Clone)]
pub struct BlockRecord {
    pub hash: String,
    pub number: u64,
    pub slot: u64,
    pub epoch: u64,
    pub epoch_slot: u64,
    pub era: String,
    pub body_size: u32,
    pub issuer_vkey: String,
    pub vrf_vkey: String,
    pub tx_count: u32,
    pub previous_hash: String,
}

/// A transaction as reported by the reader.
#[derive(Debug, Clone)]
pub struct TransactionRecord {
    pub hash: String,
    pub fee: u64,
    pub size: u32,
    pub input_count: u32,
    pub output_count: u32,
    pub total_output: u64,
    pub ttl: Option<u64>,
    pub validity_interval_start: Option<u64>,
    pub mint_count: u32,
    pub collateral_input_count: u32,
    pub has_collateral_output: bool,
}

/// A transaction input reference.
#[derive(Debug, Clone)]
pub struct TxInputRecord {
    pub tx_id: String,
    pub index: u32,
}

/// A transaction output.
#[derive(Debug, Clone)]
pub struct TxOutputRecord {
    pub address: String,
    pub amount: u64,
    pub assets: Option<serde_json::Value>,
}

/// Where in the chain an event happened.
#[derive(Debug, Clone)]
pub struct Context {
    pub block_hash: Option<String>,
    pub block_number: Option<u64>,
    pub slot: Option<u64>,
    pub timestamp: Option<u64>,
    pub tx_hash: Option<String>,
    pub tx_idx: Option<u32>,
    pub certificate_idx: Option<u32>,
    pub input_idx: Option<u32>,
    pub output_idx: Option<u32>,
    pub output_address: Option<String>,
}

/// One record from the reader: at most one of the payload fields is set.
#[derive(Debug)]
pub struct Record {
    pub block: Option<BlockRecord>,
    pub transaction: Option<TransactionRecord>,
    pub tx_input: Option<TxInputRecord>,
    pub tx_output: Option<TxOutputRecord>,
    pub roll_back: Option<RollBackRecord>,
    pub context: Context,
    pub fingerprint: Option<String>,
}

/// One event from the reader.
#[derive(Debug)]
pub struct OuraEvent {
    pub event: String,
    pub point: Point,
    pub record: Record,
}

/// The simplified event broadcast to clients.
#[derive(Debug)]
pub enum BlockchainEvent {
    Block {
        slot: u64,
        hash: String,
        number: u64,
        epoch: u64,
        tx_count: u32,
        timestamp: u64,
        details: serde_json::Value,
    },
    Transaction {
        hash: String,
        fee: u64,
        inputs: u32,
        outputs: u32,
        total_output: u64,
        timestamp: u64,
        details: serde_json::Value,
    },
    TxInput { tx_hash: String, input_tx_id: String, input_index: u32, timestamp: u64 },
    TxOutput { tx_hash: String, address: String, amount: u64, timestamp: u64 },
    RollBack { block_hash: String, block_slot: u64, timestamp: u64 },
    Other { event_type: String, timestamp: u64, details: serde_json::Value },
}

/// Statistics over the buffered events.
#[derive(Debug, Clone)]
pub struct BufferStats {
    pub total_events: usize,
    pub blocks_count: usize,
    pub transactions_count: usize,
    pub inputs_count: usize,
    pub outputs_count: usize,
    pub buffer_size: usize,
    pub last_block_number: u64,
    pub last_slot: u64,
}

/// The event buffer and its running statistics.
pub struct AppState {
    pub buffer: VecDeque<BlockchainEvent>,
    pub blocks_count: usize,
    pub transactions_count: usize,
    pub inputs_count: usize,
    pub outputs_count: usize,
    pub total_events: usize,
    pub last_block_number: u64,
    pub last_slot: u64,
}

impl AppState {
    /// Every per-kind counter counts a subset of the events seen.
    pub open spec fn wf(&self) -> bool {
        &&& self.blocks_count <= self.total_events
        &&& self.transactions_count <= self.total_events
        &&& self.inputs_count <= self.total_events
        &&& self.outputs_count <= self.total_events
    }

    /// A fresh state with room for `capacity` events.
    pub fn new(capacity: usize) -> (r: Self)
        ensures
            r.wf(),
            r.buffer@.len() == 0,
            r.blocks_count == 0 && r.transactions_count == 0 && r.inputs_count == 0
                && r.outputs_count == 0 && r.total_events == 0,
            r.last_block_number == 0 && r.last_slot == 0,
    {
        AppState {
            buffer: VecDeque::with_capacity(capacity),
            blocks_count: 0,
            transactions_count: 0,
            inputs_count: 0,
            outputs_count: 0,
            total_events: 0,
            last_block_number: 0,
            last_slot: 0,
        }
    }

    /// Adds an event: counts it by kind, remembers the latest block number
    /// and slot, and appends it to the buffer, dropping the oldest entry
    /// once `buffer_size` is reached.
    pub fn add_event(&mut self, event: BlockchainEvent, buffer_size: usize)
        requires
            old(self).wf(),
            old(self).total_events < usize::MAX,
        ensures
            final(self).wf(),
            final(self).total_events == old(self).total_events + 1,
            final(self).blocks_count == old(self).blocks_count + (if event is Block {
                1int
            } else {
                0int
            }),
            final(self).transactions_count == old(self).transactions_count + (
            if event is Transaction {
                1int
            } else {
                0int
            }),
            final(self).inputs_count == old(self).inputs_count + (if event is TxInput {
                1int
            } else {
                0int
            }),
            final(self).outputs_count == old(self).outputs_count + (if event is TxOutput {
                1int
            } else {
                0int
            }),
            match event {
                BlockchainEvent::Block { number, slot, .. } => final(self).last_block_number
                    == number && final(self).last_slot == slot,
                _ => final(self).last_block_number == old(self).last_block_number
                    && final(self).last_slot == old(self).last_slot,
            },
            final(self).buffer@ == (if old(self).buffer@.len() >= buffer_size && old(
                self,
            ).buffer@.len() > 0 {
                old(self).buffer@.drop_first()
            } else {
                old(self).buffer@
            }).push(event),
    {
        match &event {
            BlockchainEvent::Block { number, slot, .. } => {
                self.blocks_count = self.blocks_count + 1;
                self.last_block_number = *number;
                self.last_slot = *slot;
            },
            BlockchainEvent::Transaction { .. } => {
                self.transactions_count = self.transactions_count + 1;
            },
            BlockchainEvent::TxInput { .. } => {
                self.inputs_count = self.inputs_count + 1;
            },
            BlockchainEvent::TxOutput { .. } => {
                self.outputs_count = self.outputs_count + 1;
            },
            _ => {},
        }
        self.total_events = self.total_events + 1;
        if self.buffer.len() >= buffer_size {
            self.buffer.pop_front();
        }
        self.buffer.push_back(event);
    }

    /// Empties the buffer and resets the per-kind counters, keeping the
    /// total.
    pub fn clear_buffer(&mut self)
        ensures
            final(self).wf(),
            final(self).buffer@.len() == 0,
            final(self).blocks_count == 0 && final(self).transactions_count == 0
                && final(self).inputs_count == 0 && final(self).outputs_count == 0,
            final(self).total_events == old(self).total_events,
            final(self).last_block_number == old(self).last_block_number,
            final(self).last_slot == old(self).last_slot,
    {
        self.buffer.clear();
        self.blocks_count = 0;
        self.transactions_count = 0;
        self.inputs_count = 0;
        self.outputs_count = 0;
    }

    /// Whether the buffer has seen enough blocks or transactions to be
    /// cleared.
    pub fn should_clear(&self, max_blocks: usize, max_txs: usize) -> (r: bool)
        ensures
            r == (self.blocks_count >= max_blocks || self.transactions_count >= max_txs),
    {
        self.blocks_count >= max_blocks || self.transactions_count >= max_txs
    }

    /// A snapshot of the current statistics.
    pub fn get_stats(&self) -> (r: BufferStats)
        ensures
            r.total_events == self.total_events,
            r.blocks_count == self.blocks_count,
            r.transactions_count == self.transactions_count,
            r.inputs_count == self.inputs_count,
            r.outputs_count == self.outputs_count,
            r.buffer_size == self.buffer@.len(),
            r.last_block_number == self.last_block_number,
            r.last_slot == self.last_slot,
    {
        BufferStats {
            total_events: self.total_events,
            blocks_count: self.blocks_count,
            transactions_count: self.transactions_count,
            inputs_count: self.inputs_count,
            outputs_count: self.outputs_count,
            buffer_size: self.buffer.len(),
            last_block_number: self.last_block_number,
            last_slot: self.last_slot,
        }
    }
}

} // verus!
