//! State-transition logic for a minimal polling service kept on a shared,
//! append-only record store.
//!
//! The store holds one record per poll and one record per (poll, voter)
//! pair; the second record's existence is the double-vote guard. The
//! [`ledger::Ledger`] type models the store as a registry with unique keys,
//! and its three operations — `create_poll`, `vote` and `close_poll` —
//! carry the full rules: uniqueness of poll ids, at most one vote per
//! (poll, voter) pair, option membership, lifecycle gating and creator-only
//! closing.

pub mod error;
pub mod records;
pub mod ledger;
pub mod laws;
