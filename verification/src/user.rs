//! The wallet-facing query and response shapes, and how provider responses
//! reduce to them. The HTTP handlers that carry these live at the service
//! edge.

use vstd::prelude::*;

use crate::blockfrost::BlockfrostTransaction;
use crate::blockfrost::BlockfrostTxDetails;
use crate::digits::dec_chars;
use crate::digits::u64_to_dec;
use vstd::string::StringExecFns;

verus! {

/// Query parameters of the transaction listing.
#[derive(Debug)]
pub struct TransactionQuery {
    pub address: String,
    pub page: Option<u32>,
    pub count: Option<u32>,
}

/// Query parameters of the wallet summary.
#[derive(Debug)]
pub struct SummaryQuery {
    pub address: String,
}

/// A page of transactions.
#[derive(Debug)]
pub struct TransactionResponse {
    pub transactions: Vec<Transaction>,
    pub total: usize,
    pub page: u32,
}

/// One transaction as shown to the wallet owner.
#[derive(Debug)]
pub struct Transaction {
    pub tx_hash: String,
    pub block: String,
    pub block_height: u64,
    pub block_time: u64,
    pub slot: u64,
    pub index: u32,
    pub fees: String,
}

/// The wallet summary shown after login.
#[derive(Debug)]
pub struct WalletSummary {
    pub address: String,
    pub stake_address: Option<String>,
    pub balance: String,
    pub transaction_count: usize,
}

/// Balance and transaction count of one address.
#[derive(Debug)]
pub struct AccountInfo {
    pub balance: String,
    pub tx_count: usize,
}

/// A transaction assembled from the provider's detail response; the index
/// falls back to the list entry's when the details carry none.
pub fn transaction_from_details(
    tx: &BlockfrostTransaction,
    details: BlockfrostTxDetails,
) -> (r: Transaction)
    ensures
        r.tx_hash@ == tx.tx_hash@,
        r.block@ == details.block@,
        r.block_height == details.block_height,
        r.block_time == details.block_time,
        r.slot == (match details.slot {
            Some(s) => s,
            None => 0u64,
        }),
        r.index == (match details.index {
            Some(i) => i,
            None => (match tx.tx_index {
                Some(i) => i,
                None => 0u32,
            }),
        }),
        r.fees@ == details.fees@,
{
    Transaction {
        tx_hash: tx.tx_hash.clone(),
        block: details.block,
        block_height: details.block_height,
        block_time: details.block_time,
        slot: match details.slot {
            Some(s) => s,
            None => 0,
        },
        index: match details.index {
            Some(i) => i,
            None => match tx.tx_index {
                Some(i) => i,
                None => 0,
            },
        },
        fees: details.fees,
    }
}

/// A transaction assembled from the list entry alone, when the detail fetch
/// failed: the block is named by its height, and slot and fees are unknown.
pub fn transaction_fallback(tx: &BlockfrostTransaction) -> (r: Transaction)
    ensures
        r.tx_hash@ == tx.tx_hash@,
        r.block@ == "block_"@ + dec_chars(tx.block_height as nat),
        r.block_height == tx.block_height,
        r.block_time == tx.block_time,
        r.slot == 0,
        r.index == (match tx.tx_index {
            Some(i) => i,
            None => 0u32,
        }),
        r.fees@ == "0"@,
{
    let mut block = <String as StringExecFns>::from_str("block_");
    let height = u64_to_dec(tx.block_height);
    block.append(height.as_str());
    Transaction {
        tx_hash: tx.tx_hash.clone(),
        block,
        block_height: tx.block_height,
        block_time: tx.block_time,
        slot: 0,
        index: match tx.tx_index {
            Some(i) => i,
            None => 0,
        },
        fees: <String as StringExecFns>::from_str("0"),
    }
}

} // verus!
