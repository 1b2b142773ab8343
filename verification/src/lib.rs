//! Verified core of a disk-space reclamation and secure-erasure toolkit.
//!
//! The library holds the decision and accounting logic: directory statistics,
//! scan aggregation, bulk-reclaim tallies, the multi-pass secure-overwrite
//! planner, and human-readable size formatting. A thin unverified shell owns
//! the actual filesystem traversal and I/O and feeds plain values in.

pub mod format;
pub mod privacy;
pub mod reclaim;
pub mod saturate;
pub mod scanner;
pub mod shredder;
