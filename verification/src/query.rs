//! The query layer: point lookups against the cache store, plus the
//! parsing of a height path parameter.
//!
//! A lookup either finds the cached entry or reports it absent; absence is
//! the only failure a caller can see, and it is distinct from every
//! fetch-side error. The handlers are pure reads: they never write to the
//! store and never fetch.

use vstd::prelude::*;
use vstd::string::StrSliceExecFns;

use crate::data::Block;
use crate::data::Transaction;
use crate::ingest::keys_consistent;
use crate::store::CacheStore;
use crate::store::StoreView;

verus! {

/// The one failure a query can report: the key was never written.
#[derive(Debug, Clone, Copy, PartialEq, Eq)]
pub enum QueryError {
    NotFound,
}

impl QueryError {
    /// The HTTP status this failure is served as.
    pub fn status_code(&self) -> (c: u16)
        ensures
            c == 404u16,
    {
        404
    }
}

/// What a block lookup yields on a given store state.
pub open spec fn spec_block_lookup(s: StoreView, height: u64) -> Result<Block, QueryError> {
    if s.blocks.contains_key(height) {
        Ok(s.blocks[height])
    } else {
        Err(QueryError::NotFound)
    }
}

/// What a transaction lookup yields on a given store state.
pub open spec fn spec_transaction_lookup(s: StoreView, hash: Seq<char>) -> Result<
    Transaction,
    QueryError,
> {
    if s.transactions.contains_key(hash) {
        Ok(s.transactions[hash])
    } else {
        Err(QueryError::NotFound)
    }
}

/// Serves a block lookup by height: the cached block, or `NotFound` for a
/// height never written — never an error of any other kind.
pub fn get_block_handler(store: &CacheStore, height: u64) -> (r: Result<Block, QueryError>)
    ensures
        r == spec_block_lookup(store@, height),
{
    match store.get_block(height) {
        Some(block) => Ok(block),
        None => Err(QueryError::NotFound),
    }
}

/// Serves a transaction lookup by hash: the cached transaction, or
/// `NotFound` for a hash never written — never an error of any other kind.
pub fn get_transaction_handler(store: &CacheStore, txn_hash: &str) -> (r: Result<
    Transaction,
    QueryError,
>)
    ensures
        r == spec_transaction_lookup(store@, txn_hash@),
{
    match store.get_transaction(txn_hash) {
        Some(txn) => Ok(txn),
        None => Err(QueryError::NotFound),
    }
}

/// The HTTP status a lookup result is served as: the entry with 200, its
/// absence with 404.
pub fn lookup_status<T>(r: &Result<T, QueryError>) -> (c: u16)
    ensures
        r is Ok ==> c == 200u16,
        r is Err ==> c == 404u16,
{
    match r {
        Ok(_) => 200,
        Err(e) => e.status_code(),
    }
}

/// Law: idempotent lookup — a lookup is a function of the store state and
/// the key alone, so any two lookups of one key against one store state
/// yield the same result.
pub proof fn lemma_lookup_idempotent(
    s: StoreView,
    height: u64,
    r1: Result<Block, QueryError>,
    r2: Result<Block, QueryError>,
)
    requires
        r1 == spec_block_lookup(s, height),
        r2 == spec_block_lookup(s, height),
    ensures
        r1 == r2,
{
}

/// Law: key/content consistency — against a key-consistent store, a block
/// lookup that succeeds yields a block whose number is the queried height,
/// and a transaction lookup that succeeds yields a transaction carrying
/// the queried hash.
pub proof fn lemma_key_content_consistency(s: StoreView, height: u64, hash: Seq<char>)
    requires
        keys_consistent(s),
    ensures
        spec_block_lookup(s, height) is Ok ==> spec_block_lookup(
            s,
            height,
        )->Ok_0.header.number == height,
        spec_transaction_lookup(s, hash) is Ok ==> spec_transaction_lookup(
            s,
            hash,
        )->Ok_0.transaction_hash@ == hash,
{
}

/// Law: absence correctness — a lookup for a key never written reports
/// `NotFound`, and only such a lookup does; no made-up value is ever
/// served in place of a missing entry.
pub proof fn lemma_absence(s: StoreView, height: u64, hash: Seq<char>)
    ensures
        spec_block_lookup(s, height) == Err::<Block, QueryError>(QueryError::NotFound)
            <==> !s.blocks.contains_key(height),
        spec_transaction_lookup(s, hash) == Err::<Transaction, QueryError>(QueryError::NotFound)
            <==> !s.transactions.contains_key(hash),
{
}

/// Whether `c` is a decimal digit.
pub open spec fn is_digit(c: char) -> bool {
    48 <= c as int <= 57
}

/// The numeric value of a decimal digit character.
pub open spec fn digit_value(c: char) -> nat {
    (c as int - 48) as nat
}

/// The numeric value of a sequence of decimal digits.
pub open spec fn decimal_value(s: Seq<char>) -> nat
    decreases s.len(),
{
    if s.len() == 0 {
        0
    } else {
        decimal_value(s.drop_last()) * 10 + digit_value(s.last())
    }
}

/// Whether every character of `s` is a decimal digit.
pub open spec fn all_digits(s: Seq<char>) -> bool {
    forall|i: int| 0 <= i < s.len() ==> is_digit(#[trigger] s[i])
}

/// Parses a height path parameter: a non-empty string of decimal digits
/// whose value fits in a `u64`. Anything else — empty, a stray character,
/// a value too large — is rejected.
pub fn parse_height(s: &str) -> (r: Option<u64>)
    ensures
        match r {
            Some(v) => s@.len() > 0 && all_digits(s@) && decimal_value(s@) <= u64::MAX && v
                == decimal_value(s@),
            None => s@.len() == 0 || !all_digits(s@) || decimal_value(s@) > u64::MAX,
        },
{
    let n = s.unicode_len();
    if n == 0 {
        return None;
    }
    let mut value: u64 = 0;
    let mut i: usize = 0;
    while i < n
        invariant
            n == s@.len(),
            0 <= i <= n,
            all_digits(s@.take(i as int)),
            value == decimal_value(s@.take(i as int)),
        decreases n - i,
    {
        let c = s.get_char(i);
        let code = c as u32;
        if code < 48 || code > 57 {
            return None;
        }
        let digit = (code - 48) as u64;
        proof {
            assert(is_digit(s@[i as int]));
            assert(s@.take(i as int + 1).drop_last() =~= s@.take(i as int));
            assert(s@.take(i as int + 1).last() == s@[i as int]);
            assert(digit == digit_value(s@[i as int]));
        }
        let scaled = match value.checked_mul(10) {
            Some(x) => x,
            None => {
                proof {
                    lemma_decimal_value_grows(s@, i as int + 1);
                }
                return None;
            },
        };
        let total = match scaled.checked_add(digit) {
            Some(x) => x,
            None => {
                proof {
                    lemma_decimal_value_grows(s@, i as int + 1);
                }
                return None;
            },
        };
        value = total;
        i = i + 1;
    }
    proof {
        assert(s@.take(n as int) =~= s@);
    }
    Some(value)
}

/// Reading further digits never shrinks the value, so once a digit prefix
/// overflows, the whole string does.
proof fn lemma_decimal_value_grows(s: Seq<char>, i: int)
    requires
        0 <= i <= s.len(),
    ensures
        all_digits(s) ==> decimal_value(s) >= decimal_value(s.take(i)),
    decreases s.len() - i,
{
    if i < s.len() {
        assert(s.take(i + 1).drop_last() =~= s.take(i));
        assert(s.take(i + 1).last() == s[i]);
        if all_digits(s) {
            assert(all_digits(s.take(i + 1)));
            assert(decimal_value(s.take(i + 1)) == decimal_value(s.take(i)) * 10 + digit_value(
                s[i],
            ));
            assert(decimal_value(s.take(i)) * 10 >= decimal_value(s.take(i)))
                by (nonlinear_arith);
        }
        lemma_decimal_value_grows(s, i + 1);
    } else {
        assert(s.take(i) =~= s);
    }
}

} // verus!
