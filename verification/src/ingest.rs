//! The ingestion orchestrator: a single sequential pass over a contiguous
//! height range that fills the cache store.
//!
//! For each height the fetched block and its fully resolved transactions
//! are handed in together; the orchestrator validates that the block
//! carries the height it was fetched for and that the transactions line up
//! one for one, hash for hash, with the block's stub list, then stores the
//! transactions first and the block last, so no block is ever visible with
//! part of its transactions missing. Any failure — an exhausted fetch
//! reported by the caller, or a validation mismatch found here — aborts
//! the whole run at the current height, leaving the store a fully linked
//! prefix of the range.

use vstd::prelude::*;

use crate::data::Block;
use crate::data::Transaction;
use crate::store::CacheStore;
use crate::store::StoreView;
use crate::store::store_view_wf;

verus! {

/// Why an ingestion run ended before covering its whole range.
#[derive(Debug, PartialEq, Eq)]
pub enum AbortCause {
    /// Fetching the block at the abort height exhausted its retries.
    BlockFetchExhausted,
    /// Fetching the transaction with this hash exhausted its retries.
    TransactionFetchExhausted { transaction_hash: String },
    /// The remote returned a block whose number differs from the height it
    /// was asked for.
    BlockNumberMismatch,
    /// The resolved transactions do not line up one for one with the
    /// block's stub list.
    TransactionCountMismatch,
    /// The remote returned a transaction whose hash differs from this stub
    /// hash it was asked for.
    TransactionHashMismatch { transaction_hash: String },
}

impl Clone for AbortCause {
    fn clone(&self) -> (r: Self)
        ensures
            r == *self,
    {
        match self {
            AbortCause::BlockFetchExhausted => AbortCause::BlockFetchExhausted,
            AbortCause::TransactionFetchExhausted { transaction_hash } => (
                AbortCause::TransactionFetchExhausted {
                    transaction_hash: transaction_hash.clone(),
                }
            ),
            AbortCause::BlockNumberMismatch => AbortCause::BlockNumberMismatch,
            AbortCause::TransactionCountMismatch => AbortCause::TransactionCountMismatch,
            AbortCause::TransactionHashMismatch { transaction_hash } => (
                AbortCause::TransactionHashMismatch {
                    transaction_hash: transaction_hash.clone(),
                }
            ),
        }
    }
}

/// Where an ingestion run stands.
#[derive(Debug, PartialEq, Eq)]
pub enum IngestionStatus {
    /// Heights below the cursor are fully ingested; the cursor's height is
    /// being worked on.
    Running,
    /// Every height of the range was ingested.
    Completed,
    /// The run stopped while working on the cursor's height.
    Aborted(AbortCause),
}

/// The final report of a run: how much was cached and, for an aborted run,
/// at which height and why it stopped.
#[derive(Debug, PartialEq, Eq)]
pub struct IngestionReport {
    pub blocks_cached: usize,
    pub transactions_cached: usize,
    pub aborted: Option<(u64, AbortCause)>,
}

/// The abstract state of an ingestion run.
pub struct IngestionView {
    pub store: StoreView,
    pub start: u64,
    pub next: u64,
    pub end: u64,
    pub status: IngestionStatus,
}

/// Every stored block sits under its own number, and every stored
/// transaction under its own hash.
pub open spec fn keys_consistent(s: StoreView) -> bool {
    &&& forall|h: u64|
        s.blocks.contains_key(h) ==> (#[trigger] s.blocks[h]).header.number == h
    &&& forall|k: Seq<char>|
        s.transactions.contains_key(k) ==> (#[trigger] s.transactions[k]).transaction_hash@ == k
}

/// Every transaction referenced by a stored block's stub list is stored.
pub open spec fn blocks_linked(s: StoreView) -> bool {
    forall|h: u64, i: int|
        s.blocks.contains_key(h) && 0 <= i < s.blocks[h].body.full@.len()
            ==> s.transactions.contains_key(
                (#[trigger] s.blocks[h].body.full@[i]).transaction_hash@,
            )
}

/// The blocks stored are exactly the heights already traversed.
pub open spec fn prefix_ingested(s: StoreView, start: u64, next: u64) -> bool {
    forall|h: u64| #[trigger] s.blocks.contains_key(h) <==> start <= h < next
}

/// The run invariant: a well-formed store that holds exactly the fully
/// linked, key-consistent prefix of the range below the cursor, with the
/// cursor inside the range; a completed run has its cursor at the range's
/// end, a running one strictly below it.
pub open spec fn inv(v: IngestionView) -> bool {
    &&& store_view_wf(v.store)
    &&& keys_consistent(v.store)
    &&& blocks_linked(v.store)
    &&& prefix_ingested(v.store, v.start, v.next)
    &&& 1 <= v.start <= v.next <= v.end
    &&& (v.status is Completed ==> v.next == v.end)
    &&& (v.status is Running ==> v.next < v.end)
}

/// Whether `txns[i]` is the first transaction of the batch with its hash,
/// and that hash is not yet stored: the entry the batch creates for the
/// hash is then this very transaction.
pub open spec fn first_fresh_occurrence(s: StoreView, txns: Seq<Transaction>, i: int) -> bool {
    &&& !s.transactions.contains_key(txns[i].transaction_hash@)
    &&& forall|j: int|
        0 <= j < i ==> (#[trigger] txns[j]).transaction_hash@ != txns[i].transaction_hash@
}

/// Whether fetched inputs for `height` pass validation: the block carries
/// the height it was fetched for, and the resolved transactions line up
/// one for one, hash for hash, with the block's stub list.
pub open spec fn height_inputs_valid(height: u64, block: Block, txns: Seq<Transaction>) -> bool {
    &&& block.header.number == height
    &&& txns.len() == block.body.full@.len()
    &&& forall|i: int|
        0 <= i < txns.len() ==> (#[trigger] txns[i]).transaction_hash@
            == block.body.full@[i].transaction_hash@
}

/// One ingestion run over a height range, owning the store it fills.
pub struct Ingestion {
    store: CacheStore,
    start: u64,
    next: u64,
    end: u64,
    status: IngestionStatus,
}

impl View for Ingestion {
    type V = IngestionView;

    closed spec fn view(&self) -> IngestionView {
        IngestionView {
            store: self.store@,
            start: self.start,
            next: self.next,
            end: self.end,
            status: self.status,
        }
    }
}

impl Ingestion {
    /// The run invariant, over this run's state.
    pub open spec fn wf(&self) -> bool {
        inv(self@)
    }

    /// Starts a run over the heights `start <= h < end`, with an empty
    /// store; an empty range is complete at once.
    pub fn new(start: u64, end: u64) -> (r: Self)
        requires
            1 <= start <= end,
        ensures
            r.wf(),
            r@.start == start,
            r@.next == start,
            r@.end == end,
            r@.status == (if start == end {
                IngestionStatus::Completed
            } else {
                IngestionStatus::Running
            }),
            r@.store.blocks == Map::<u64, Block>::empty(),
            r@.store.transactions == Map::<Seq<char>, Transaction>::empty(),
    {
        let store = CacheStore::new();
        let status = if start == end {
            IngestionStatus::Completed
        } else {
            IngestionStatus::Running
        };
        Ingestion { store, start, next: start, end, status }
    }

    /// Whether the run is still working through its range.
    pub fn is_running(&self) -> (r: bool)
        ensures
            r == (self@.status is Running),
    {
        match self.status {
            IngestionStatus::Running => true,
            _ => false,
        }
    }

    /// The height the run is working on, or stopped at.
    pub fn next_height(&self) -> (h: u64)
        ensures
            h == self@.next,
    {
        self.next
    }

    /// The exclusive upper end of the run's height range.
    pub fn end_height(&self) -> (h: u64)
        ensures
            h == self@.end,
    {
        self.end
    }

    /// Records that a fetch for the current height failed unrecoverably,
    /// aborting the whole run: nothing of the current height is stored,
    /// and nothing already stored is touched.
    pub fn record_abort(&mut self, cause: AbortCause)
        requires
            old(self).wf(),
            old(self)@.status is Running,
        ensures
            final(self).wf(),
            final(self)@.store == old(self)@.store,
            final(self)@.start == old(self)@.start,
            final(self)@.next == old(self)@.next,
            final(self)@.end == old(self)@.end,
            final(self)@.status == IngestionStatus::Aborted(cause),
    {
        self.status = IngestionStatus::Aborted(cause);
    }

    /// Ingests the next height of the range from its fetched block and the
    /// transactions resolved for the block's stub list, draining `txns`.
    ///
    /// Validation comes first: the block must carry the height being
    /// worked on, and the transactions must line up one for one, hash for
    /// hash, with the stub list. Only then are the transactions stored —
    /// each under its own hash, hashes already present left untouched —
    /// and the block stored last, so no block is ever visible with part of
    /// its transactions missing. A validation failure aborts the run with
    /// the store unchanged.
    pub fn ingest_height(&mut self, block: Block, txns: &mut Vec<Transaction>) -> (r: Result<
        (),
        AbortCause,
    >)
        requires
            old(self).wf(),
            old(self)@.status is Running,
        ensures
            final(self).wf(),
            final(self)@.start == old(self)@.start,
            final(self)@.end == old(self)@.end,
            r is Ok <==> height_inputs_valid(old(self)@.next, block, old(txns)@),
            match r {
                Ok(()) => {
                    &&& final(self)@.next == old(self)@.next + 1
                    &&& final(self)@.status == (if old(self)@.next + 1 == old(self)@.end {
                        IngestionStatus::Completed
                    } else {
                        IngestionStatus::Running
                    })
                    &&& final(self)@.store.blocks == old(self)@.store.blocks.insert(
                        old(self)@.next,
                        block,
                    )
                    &&& forall|k: Seq<char>|
                        #[trigger] old(self)@.store.transactions.contains_key(k)
                            ==> final(self)@.store.transactions.contains_key(k)
                            && final(self)@.store.transactions[k]
                            == old(self)@.store.transactions[k]
                    &&& forall|i: int|
                        0 <= i < old(txns)@.len()
                            ==> final(self)@.store.transactions.contains_key(
                            (#[trigger] old(txns)@[i]).transaction_hash@,
                        )
                    &&& forall|k: Seq<char>|
                        #[trigger] final(self)@.store.transactions.contains_key(k)
                            ==> old(self)@.store.transactions.contains_key(k) || exists|i: int|
                            0 <= i < old(txns)@.len() && (#[trigger] old(
                                txns,
                            )@[i]).transaction_hash@ == k
                    &&& forall|i: int|
                        0 <= i < old(txns)@.len() && first_fresh_occurrence(
                            old(self)@.store,
                            old(txns)@,
                            i,
                        ) ==> final(self)@.store.transactions[(#[trigger] old(
                            txns,
                        )@[i]).transaction_hash@] == old(txns)@[i]
                },
                Err(cause) => {
                    &&& final(self)@.next == old(self)@.next
                    &&& final(self)@.store == old(self)@.store
                    &&& final(self)@.status == IngestionStatus::Aborted(cause)
                    &&& (cause is BlockNumberMismatch <==> block.header.number != old(
                        self,
                    )@.next)
                    &&& (cause is TransactionCountMismatch <==> block.header.number == old(
                        self,
                    )@.next && old(txns)@.len() != block.body.full@.len())
                    &&& (cause is TransactionHashMismatch ==> exists|i: int|
                        0 <= i < old(txns)@.len() && (#[trigger] old(txns)@[i]).transaction_hash@
                            != block.body.full@[i].transaction_hash@ && cause->TransactionHashMismatch_transaction_hash@
                            == block.body.full@[i].transaction_hash@)
                },
            },
    {
        let height = self.next;
        if block.header.number != height {
            self.status = IngestionStatus::Aborted(AbortCause::BlockNumberMismatch);
            return Err(AbortCause::BlockNumberMismatch);
        }
        let total = txns.len();
        if total != block.body.full.len() {
            self.status = IngestionStatus::Aborted(AbortCause::TransactionCountMismatch);
            return Err(AbortCause::TransactionCountMismatch);
        }
        let mut i: usize = 0;
        while i < total
            invariant
                inv(old(self)@),
                self@ == old(self)@,
                txns@ == old(txns)@,
                height == old(self)@.next,
                block.header.number == height,
                0 <= i <= total,
                total == txns@.len(),
                total == block.body.full@.len(),
                forall|j: int|
                    0 <= j < i ==> (#[trigger] txns@[j]).transaction_hash@
                        == block.body.full@[j].transaction_hash@,
            decreases total - i,
        {
            if txns[i].transaction_hash != block.body.full[i].transaction_hash {
                let stub_hash = block.body.full[i].transaction_hash.clone();
                self.status = IngestionStatus::Aborted(
                    AbortCause::TransactionHashMismatch {
                        transaction_hash: block.body.full[i].transaction_hash.clone(),
                    },
                );
                return Err(AbortCause::TransactionHashMismatch { transaction_hash: stub_hash });
            }
            i = i + 1;
        }
        let mut done: usize = 0;
        while done < total
            invariant
                inv(old(self)@),
                old(self)@.status is Running,
                height == old(self)@.next,
                height_inputs_valid(height, block, old(txns)@),
                0 <= done <= total,
                total == old(txns)@.len(),
                txns@ == old(txns)@.skip(done as int),
                store_view_wf(self@.store),
                keys_consistent(self@.store),
                blocks_linked(self@.store),
                self@.start == old(self)@.start,
                self@.next == old(self)@.next,
                self@.end == old(self)@.end,
                self@.status == old(self)@.status,
                self@.store.blocks == old(self)@.store.blocks,
                forall|k: Seq<char>|
                    #[trigger] old(self)@.store.transactions.contains_key(k)
                        ==> self@.store.transactions.contains_key(k)
                        && self@.store.transactions[k]
                        == old(self)@.store.transactions[k],
                forall|j: int|
                    0 <= j < done ==> self@.store.transactions.contains_key(
                        (#[trigger] old(txns)@[j]).transaction_hash@,
                    ),
                forall|k: Seq<char>|
                    #[trigger] self@.store.transactions.contains_key(k)
                        ==> old(self)@.store.transactions.contains_key(k) || exists|j: int|
                        0 <= j < done && (#[trigger] old(txns)@[j]).transaction_hash@ == k,
                forall|j: int|
                    0 <= j < done && first_fresh_occurrence(old(self)@.store, old(txns)@, j)
                        ==> self@.store.transactions[(#[trigger] old(
                        txns,
                    )@[j]).transaction_hash@] == old(txns)@[j],
            decreases total - done,
        {
            let txn = txns.remove(0);
            assert(txn == old(txns)@[done as int]);
            let ghost txn_hash = txn.transaction_hash@;
            let ghost before = self@.store.transactions;
            if !self.store.contains_transaction(txn.transaction_hash.as_str()) {
                let key = txn.transaction_hash.clone();
                self.store.put_transaction(key, txn);
            }
            proof {
                assert(txns@ =~= old(txns)@.skip(done as int + 1));
                assert(self@.store.transactions.contains_key(txn_hash));
                assert forall|k: Seq<char>| #[trigger] old(self)@.store.transactions.contains_key(
                    k,
                ) implies self@.store.transactions.contains_key(k)
                    && self@.store.transactions[k]
                    == old(self)@.store.transactions[k] by {
                    assert(before.contains_key(k));
                    assert(before[k] == old(self)@.store.transactions[k]);
                }
                assert forall|j: int| 0 <= j < done as int + 1 implies
                    self@.store.transactions.contains_key(
                        (#[trigger] old(txns)@[j]).transaction_hash@,
                    ) by {
                    if j < done as int {
                        assert(before.contains_key(old(txns)@[j].transaction_hash@));
                    } else {
                        assert(old(txns)@[j].transaction_hash@ == txn_hash);
                    }
                }
                assert forall|k: Seq<char>| #[trigger] self@.store.transactions.contains_key(
                    k,
                ) implies old(self)@.store.transactions.contains_key(k) || exists|j: int|
                    0 <= j < done as int + 1 && (#[trigger] old(txns)@[j]).transaction_hash@
                        == k by {
                    if k == txn_hash {
                        assert(old(txns)@[done as int].transaction_hash@ == k);
                    } else {
                        assert(before.contains_key(k));
                    }
                }
            }
            done = done + 1;
        }
        let ghost mid = self@.store;
        proof {
            assert(self@.store.blocks == old(self)@.store.blocks);
            assert(!self@.store.blocks.contains_key(height));
            assert forall|i: int| 0 <= i < block.body.full@.len() implies
                mid.transactions.contains_key(
                    (#[trigger] block.body.full@[i]).transaction_hash@,
                ) by {
                assert(old(txns)@[i].transaction_hash@ == block.body.full@[i].transaction_hash@);
                assert(mid.transactions.contains_key(old(txns)@[i].transaction_hash@));
            }
        }
        self.store.put_block(height, block);
        self.next = height + 1;
        if self.next == self.end {
            self.status = IngestionStatus::Completed;
        }
        proof {
            assert(self@.store.transactions == mid.transactions);
            assert(self@.store.blocks == mid.blocks.insert(height, block));
            assert forall|h: u64| #[trigger] self@.store.blocks.contains_key(h) <==> self@.start
                <= h < self@.next by {
                assert(prefix_ingested(old(self)@.store, old(self)@.start, old(self)@.next));
                if h != height {
                    assert(self@.store.blocks.contains_key(h) == mid.blocks.contains_key(h));
                }
            }
            assert forall|h: u64| self@.store.blocks.contains_key(h) implies (
            #[trigger] self@.store.blocks[h]).header.number == h by {
                if h != height {
                    assert(self@.store.blocks[h] == mid.blocks[h]);
                    assert(keys_consistent(mid));
                }
            }
            assert forall|h: u64, i: int|
                self@.store.blocks.contains_key(h) && 0 <= i
                    < self@.store.blocks[h].body.full@.len() implies
                self@.store.transactions.contains_key(
                    (#[trigger] self@.store.blocks[h].body.full@[i]).transaction_hash@,
                ) by {
                if h != height {
                    assert(self@.store.blocks[h] == mid.blocks[h]);
                    assert(blocks_linked(mid));
                    assert(mid.transactions.contains_key(
                        mid.blocks[h].body.full@[i].transaction_hash@,
                    ));
                }
            }
        }
        Ok(())
    }

    /// The run's report: the counts of cached blocks and transactions and,
    /// for an aborted run, the height it stopped at and why.
    pub fn report(&self) -> (r: IngestionReport)
        requires
            self.wf(),
        ensures
            r.blocks_cached == self@.store.blocks.dom().len(),
            r.transactions_cached == self@.store.transactions.dom().len(),
            match self@.status {
                IngestionStatus::Aborted(c) => r.aborted == Some((self@.next, c)),
                _ => r.aborted is None,
            },
    {
        let aborted = match &self.status {
            IngestionStatus::Aborted(cause) => Some((self.next, cause.clone())),
            _ => None,
        };
        IngestionReport {
            blocks_cached: self.store.block_count(),
            transactions_cached: self.store.transaction_count(),
            aborted,
        }
    }

    /// Hands the filled store out for serving; the run itself is over.
    /// An aborted run's partial store is served as it stands.
    pub fn into_store(self) -> (s: CacheStore)
        ensures
            s@ == self@.store,
    {
        self.store
    }
}

/// Law: completeness under success — once a height's ingestion has
/// completed, every stub hash in that block's body has a stored
/// transaction carrying that very hash.
pub proof fn lemma_completeness(v: IngestionView, h: u64, i: int)
    requires
        inv(v),
        v.store.blocks.contains_key(h),
        0 <= i < v.store.blocks[h].body.full@.len(),
    ensures
        v.store.transactions.contains_key(v.store.blocks[h].body.full@[i].transaction_hash@),
        v.store.transactions[v.store.blocks[h].body.full@[i].transaction_hash@].transaction_hash@
            == v.store.blocks[h].body.full@[i].transaction_hash@,
{
}

/// Law: abort prefix — a run that aborted while working on its cursor's
/// height holds exactly the heights of its range below the cursor, each
/// with every transaction its block references stored; no height at or
/// past the cursor is present.
pub proof fn lemma_abort_prefix(v: IngestionView)
    requires
        inv(v),
        v.status is Aborted,
    ensures
        forall|h: u64| #[trigger] v.store.blocks.contains_key(h) <==> v.start <= h < v.next,
        forall|h: u64, i: int|
            v.store.blocks.contains_key(h) && 0 <= i < v.store.blocks[h].body.full@.len()
                ==> v.store.transactions.contains_key(
                (#[trigger] v.store.blocks[h].body.full@[i]).transaction_hash@,
            ),
{
}

} // verus!
