//! The record types served by the cache: blocks, their headers and bodies,
//! and fully resolved transactions with their events.
//!
//! All fields are plain pass-through data from the remote chain API. The
//! two identities the rest of the crate relies on are `BlockHeader::number`
//! (a block's height) and `Transaction::transaction_hash`.

use vstd::prelude::*;

verus! {

/// A reference to a transaction inside a block body: the hash only.
/// Resolving it to a full [`Transaction`] takes a separate fetch.
#[derive(Debug, Clone, PartialEq, Eq)]
pub struct TransactionStub {
    pub transaction_hash: String,
}

/// A fully resolved transaction, keyed in the cache by `transaction_hash`.
#[derive(Debug, Clone, PartialEq, Eq)]
pub struct Transaction {
    pub _id: Option<String>,
    pub block_hash: String,
    pub block_number: String,
    pub event_root_hash: String,
    pub events: Vec<Event>,
    pub gas_used: String,
    pub state_root_hash: String,
    pub status: String,
    pub timestamp: u64,
    pub transaction_global_index: u64,
    pub transaction_hash: String,
    pub transaction_index: u32,
    pub transaction_type: String,
    pub user_transaction: UserTransaction,
}

/// An event emitted by a transaction, identified by
/// `(transaction_hash, event_index)`; immutable once attached.
#[derive(Debug, Clone, PartialEq, Eq)]
pub struct Event {
    pub _id: Option<String>,
    pub block_hash: String,
    pub block_number: String,
    pub data: String,
    pub decode_event_data: Option<String>,
    pub event_index: u32,
    pub event_key: String,
    pub event_seq_number: String,
    pub transaction_global_index: u64,
    pub transaction_hash: String,
    pub transaction_index: u32,
    pub type_tag: String,
}

/// The raw user-signed payload nested inside a [`Transaction`].
#[derive(Debug, Clone, PartialEq, Eq)]
pub struct UserTransaction {
    pub authenticator: Authenticator,
    pub raw_txn: RawTxn,
    pub transaction_hash: String,
}

/// The signature material of a user transaction. Some transaction kinds
/// carry none, so the field is optional.
#[derive(Debug, Clone, PartialEq, Eq)]
pub struct Authenticator {
    pub ed25519: Option<Ed25519>,
}

/// An Ed25519 public key and signature pair, as opaque strings.
#[derive(Debug, Clone, PartialEq, Eq)]
pub struct Ed25519 {
    pub public_key: String,
    pub signature: String,
}

/// The raw transaction body: sender, gas parameters and payload, all
/// pass-through strings from the remote API.
#[derive(Debug, Clone, PartialEq, Eq)]
pub struct RawTxn {
    pub chain_id: u8,
    pub decoded_payload: String,
    pub expiration_timestamp_secs: String,
    pub gas_token_code: String,
    pub gas_unit_price: String,
    pub max_gas_amount: String,
    pub payload: String,
    pub sender: String,
    pub sequence_number: String,
    pub transaction_hash: String,
}

/// A block, keyed in the cache by its height, `header.number`.
#[derive(Debug, Clone, PartialEq, Eq)]
pub struct Block {
    pub header: BlockHeader,
    pub body: BlockBody,
}

/// The header of a block. All fields but `number` are opaque pass-through
/// data; `number` is the block's height in the chain.
#[derive(Debug, Clone, PartialEq, Eq)]
pub struct BlockHeader {
    pub author: String,
    pub author_auth_key: Option<String>,
    pub block_hash: String,
    pub body_hash: String,
    pub chain_id: u8,
    pub nonce: u64,
    pub timestamp: u64,
    pub difficulty: String,
    pub extra: String,
    pub gas_used: u64,
    pub number: u64,
    pub parent_hash: String,
    pub state_root: String,
    pub txn_accumulator_root: String,
}

/// The body of a block: the ordered list of transaction stubs the block
/// contains. Every stub must be resolved before the block is cached.
#[derive(Debug, Clone, PartialEq, Eq)]
pub struct BlockBody {
    pub full: Vec<TransactionStub>,
}

} // verus!
