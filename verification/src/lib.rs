//! An in-memory cache of a bounded range of blockchain blocks and their
//! transactions, together with the ingestion pipeline that fills it and the
//! query layer that serves point lookups from it.
//!
//! Ingestion walks a contiguous height range in ascending order, fully
//! resolving every transaction referenced by a block before the block itself
//! becomes visible, and aborts the whole run on the first unrecoverable
//! fetch failure. Lookups by height or by transaction hash go straight to
//! the cache and report absence as such, never as an error.

pub mod data;
pub mod fetch;
pub mod ingest;
pub mod query;
pub mod store;

pub use data::Authenticator;
pub use data::Block;
pub use data::BlockBody;
pub use data::BlockHeader;
pub use data::Ed25519;
pub use data::Event;
pub use data::RawTxn;
pub use data::Transaction;
pub use data::TransactionStub;
pub use data::UserTransaction;
