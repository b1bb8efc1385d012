//! The cache store: two independent keyed stores, blocks by height and
//! transactions by hash, safe for one writer alongside concurrent readers.
//!
//! Both stores are sharded-lock maps from the `dashmap` crate. The maps are
//! opaque to the verifier, so each is given an abstract contents function,
//! and the handful of map operations the store needs are trusted wrappers
//! whose contracts state, over those contents, what the crate's own
//! documentation promises. Everything above the wrappers is verified.
//!
//! Entries are write-once: no update, eviction or removal is offered, so a
//! key once present keeps its value for the life of the store.

use vstd::prelude::*;

use crate::data::Block;
use crate::data::Transaction;
use dashmap::DashMap;

verus! {

/// The sharded-lock concurrent map of the `dashmap` crate, declared so it
/// can stand in fields and signatures; its values are opaque to the
/// verifier, and only the wrappers below speak about them.
#[verifier::external_type_specification]
#[verifier::external_body]
#[verifier::reject_recursive_types(K)]
#[verifier::reject_recursive_types(V)]
#[verifier::reject_recursive_types(S)]
pub struct ExDashMap<K, V, S>(dashmap::DashMap<K, V, S>);

/// The entries a block map holds, as a map from height to block.
pub uninterp spec fn block_entries(m: DashMap<u64, Block>) -> Map<u64, Block>;

/// The entries a transaction map holds, as a map from hash to transaction.
pub uninterp spec fn txn_entries(
    m: DashMap<String, Transaction>,
) -> Map<Seq<char>, Transaction>;

/// Relies on dashmap::DashMap::insert: afterwards the map holds `v` under
/// `k`, and every other key keeps its former entry.
#[verifier::external_body]
fn block_map_insert(m: &mut DashMap<u64, Block>, k: u64, v: Block)
    ensures
        block_entries(*final(m)) == block_entries(*old(m)).insert(k, v),
{
    m.insert(k, v);
}

/// Relies on dashmap::DashMap::insert: afterwards the map holds `v` under
/// `k`, and every other key keeps its former entry. Two keys are one entry
/// exactly when the strings are equal, character for character.
#[verifier::external_body]
fn txn_map_insert(m: &mut DashMap<String, Transaction>, k: String, v: Transaction)
    ensures
        txn_entries(*final(m)) == txn_entries(*old(m)).insert(k@, v),
{
    m.insert(k, v);
}

/// Relies on dashmap::DashMap::get: the entry under `k`, cloned out of its
/// read guard, or nothing when `k` is absent.
#[verifier::external_body]
fn block_map_get(m: &DashMap<u64, Block>, k: u64) -> (r: Option<Block>)
    ensures
        match r {
            Some(b) => block_entries(*m).contains_key(k) && b == block_entries(*m)[k],
            None => !block_entries(*m).contains_key(k),
        },
{
    m.get(&k).map(|guard| guard.value().clone())
}

/// Relies on dashmap::DashMap::get: the entry under `k`, cloned out of its
/// read guard, or nothing when `k` is absent.
#[verifier::external_body]
fn txn_map_get(m: &DashMap<String, Transaction>, k: &str) -> (r: Option<Transaction>)
    ensures
        match r {
            Some(t) => txn_entries(*m).contains_key(k@) && t == txn_entries(*m)[k@],
            None => !txn_entries(*m).contains_key(k@),
        },
{
    m.get(k).map(|guard| guard.value().clone())
}

/// Relies on dashmap::DashMap::contains_key: whether the map holds an entry
/// under `k`.
#[verifier::external_body]
fn txn_map_contains(m: &DashMap<String, Transaction>, k: &str) -> (r: bool)
    ensures
        r == txn_entries(*m).contains_key(k@),
{
    m.contains_key(k)
}

/// Relies on dashmap::DashMap::len: how many entries the map holds.
#[verifier::external_body]
fn block_map_len(m: &DashMap<u64, Block>) -> (n: usize)
    requires
        block_entries(*m).dom().finite(),
    ensures
        n == block_entries(*m).dom().len(),
{
    m.len()
}

/// Relies on dashmap::DashMap::len: how many entries the map holds.
#[verifier::external_body]
fn txn_map_len(m: &DashMap<String, Transaction>) -> (n: usize)
    requires
        txn_entries(*m).dom().finite(),
    ensures
        n == txn_entries(*m).dom().len(),
{
    m.len()
}

/// The abstract state of a [`CacheStore`]: the two keyed stores as maps,
/// with transaction keys taken as character sequences.
pub struct StoreView {
    pub blocks: Map<u64, Block>,
    pub transactions: Map<Seq<char>, Transaction>,
}

/// Well-formedness of a store state: both stores hold finitely many
/// entries.
pub open spec fn store_view_wf(s: StoreView) -> bool {
    &&& s.blocks.dom().finite()
    &&& s.transactions.dom().finite()
}

/// The concurrent cache: blocks keyed by height, transactions keyed by
/// hash, each key written at most once.
pub struct CacheStore {
    blocks: DashMap<u64, Block>,
    transactions: DashMap<String, Transaction>,
}

impl View for CacheStore {
    type V = StoreView;

    closed spec fn view(&self) -> StoreView {
        StoreView {
            blocks: block_entries(self.blocks),
            transactions: txn_entries(self.transactions),
        }
    }
}

impl CacheStore {
    /// Well-formedness: both stores hold finitely many entries.
    pub open spec fn wf(&self) -> bool {
        store_view_wf(self@)
    }

    /// Creates an empty store.
    ///
    /// Relies on dashmap::DashMap::new: a freshly created map holds no
    /// entries.
    #[verifier::external_body]
    pub fn new() -> (s: Self)
        ensures
            s@ == (StoreView {
                blocks: Map::<u64, Block>::empty(),
                transactions: Map::<Seq<char>, Transaction>::empty(),
            }),
    {
        CacheStore { blocks: DashMap::new(), transactions: DashMap::new() }
    }

    /// Stores a block under its height. Write-once: the height must not be
    /// present yet.
    pub fn put_block(&mut self, height: u64, block: Block)
        requires
            old(self).wf(),
            !old(self)@.blocks.contains_key(height),
        ensures
            final(self).wf(),
            final(self)@.blocks == old(self)@.blocks.insert(height, block),
            final(self)@.transactions == old(self)@.transactions,
    {
        block_map_insert(&mut self.blocks, height, block);
    }

    /// Stores a transaction under its hash. Write-once: the hash must not
    /// be present yet.
    pub fn put_transaction(&mut self, hash: String, txn: Transaction)
        requires
            old(self).wf(),
            !old(self)@.transactions.contains_key(hash@),
        ensures
            final(self).wf(),
            final(self)@.transactions == old(self)@.transactions.insert(hash@, txn),
            final(self)@.blocks == old(self)@.blocks,
    {
        txn_map_insert(&mut self.transactions, hash, txn);
    }

    /// The block stored under `height`, or nothing when the height was
    /// never written.
    pub fn get_block(&self, height: u64) -> (r: Option<Block>)
        ensures
            r == (if self@.blocks.contains_key(height) {
                Some(self@.blocks[height])
            } else {
                None::<Block>
            }),
    {
        block_map_get(&self.blocks, height)
    }

    /// The transaction stored under `hash`, or nothing when the hash was
    /// never written.
    pub fn get_transaction(&self, hash: &str) -> (r: Option<Transaction>)
        ensures
            r == (if self@.transactions.contains_key(hash@) {
                Some(self@.transactions[hash@])
            } else {
                None::<Transaction>
            }),
    {
        txn_map_get(&self.transactions, hash)
    }

    /// Whether a transaction is stored under `hash`.
    pub fn contains_transaction(&self, hash: &str) -> (r: bool)
        ensures
            r == self@.transactions.contains_key(hash@),
    {
        txn_map_contains(&self.transactions, hash)
    }

    /// How many blocks the store holds.
    pub fn block_count(&self) -> (n: usize)
        requires
            self.wf(),
        ensures
            n == self@.blocks.dom().len(),
    {
        block_map_len(&self.blocks)
    }

    /// How many transactions the store holds.
    pub fn transaction_count(&self) -> (n: usize)
        requires
            self.wf(),
        ensures
            n == self@.transactions.dom().len(),
    {
        txn_map_len(&self.transactions)
    }
}

} // verus!
