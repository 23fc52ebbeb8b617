//! Concurrency-safe ledger core: a bounded connection pool's bookkeeping, a
//! per-account lock acquisition policy, and the balance mutation rules that
//! run while that lock is held.

pub mod config;
pub mod error;
pub mod ledger;
pub mod locker;
pub mod model;
pub mod pool;
pub mod queries;
pub mod statement;
pub mod text;
