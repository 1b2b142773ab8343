//! Bulk reclamation accounting: the disposal pass, the pruning decision,
//! and the privacy-clean dispatch.
//!
//! The unverified shell walks a tree and attempts one disposal per regular
//! file; it reports each entry as a [`DisposalRecord`]. This module folds
//! those reports into the caller-visible totals — bytes freed for a plain
//! cache clean, files disposed for secure cleaning — and keeps a separate
//! failure tally so that "failures are bounded and non-fatal" is a proved
//! statement rather than an assumption.

use vstd::prelude::*;
use crate::saturate::{sat64, sat_add, lemma_sat_absorb};

verus! {

/// How each regular file under a reclaimed root is disposed of.
#[derive(Debug, Clone, Copy, PartialEq, Eq, Structural)]
pub enum DisposalMode {
    /// Ordinary deletion: remove the directory entry.
    Plain,
    /// Multi-pass secure overwrite, then removal.
    Secure,
}

/// What happened at one walked entry during a disposal pass.
#[derive(Debug, Clone, Copy, PartialEq, Eq)]
pub struct DisposalRecord {
    /// The entry was a regular file (only those are disposed of).
    pub is_file: bool,
    /// Its metadata length, where the metadata could be read.
    pub len: Option<u64>,
    /// The disposal of this file succeeded.
    pub removed: bool,
}

/// Bytes a record contributes to a plain cache clean: the measured length
/// of a regular file that was actually removed. A file whose disposal
/// failed freed nothing and counts nothing.
pub open spec fn record_bytes(r: DisposalRecord) -> int {
    match r.len {
        Option::Some(l) => if r.is_file && r.removed {
            l as int
        } else {
            0
        },
        Option::None => 0,
    }
}

/// Whether a record is a regular file whose disposal succeeded.
pub open spec fn record_disposed(r: DisposalRecord) -> bool {
    r.is_file && r.removed
}

/// Whether a record is a regular file whose disposal failed.
pub open spec fn record_failed(r: DisposalRecord) -> bool {
    r.is_file && !r.removed
}

/// Total bytes freed by a plain cache clean over `rs`.
pub open spec fn tally_bytes(rs: Seq<DisposalRecord>) -> int
    decreases rs.len(),
{
    if rs.len() == 0 {
        0
    } else {
        tally_bytes(rs.drop_last()) + record_bytes(rs.last())
    }
}

/// Number of regular files among `rs` successfully disposed of.
pub open spec fn tally_disposed(rs: Seq<DisposalRecord>) -> int
    decreases rs.len(),
{
    if rs.len() == 0 {
        0
    } else {
        tally_disposed(rs.drop_last()) + if record_disposed(rs.last()) {
            1int
        } else {
            0int
        }
    }
}

/// Number of regular files among `rs` whose disposal failed.
pub open spec fn tally_failures(rs: Seq<DisposalRecord>) -> int
    decreases rs.len(),
{
    if rs.len() == 0 {
        0
    } else {
        tally_failures(rs.drop_last()) + if record_failed(rs.last()) {
            1int
        } else {
            0int
        }
    }
}

/// Number of regular files among `rs`.
pub open spec fn tally_files(rs: Seq<DisposalRecord>) -> int
    decreases rs.len(),
{
    if rs.len() == 0 {
        0
    } else {
        tally_files(rs.drop_last()) + if rs.last().is_file {
            1int
        } else {
            0int
        }
    }
}

/// All four tallies are non-negative and the three counts are bounded by
/// the number of records.
pub proof fn lemma_tally_bounds(rs: Seq<DisposalRecord>)
    ensures
        0 <= tally_bytes(rs),
        0 <= tally_disposed(rs) <= rs.len(),
        0 <= tally_failures(rs) <= rs.len(),
        0 <= tally_files(rs) <= rs.len(),
    decreases rs.len(),
{
    if rs.len() > 0 {
        lemma_tally_bounds(rs.drop_last());
    }
}

/// Outcome of one disposal pass.
#[derive(Debug, Clone, Copy, PartialEq, Eq)]
pub struct ReclaimTally {
    /// Bytes measured on the files actually removed (plain cache-clean
    /// convention).
    pub bytes_freed: u64,
    /// Regular files successfully disposed of (secure-clean convention).
    pub files_disposed: u64,
    /// Regular files whose disposal failed and was absorbed.
    pub failures: u64,
}

/// Fold a disposal pass's per-entry reports into its aggregate outcome.
///
/// Per-file failures are counted, never propagated: the fold total is the
/// whole result. Totals clamp at `u64::MAX` instead of wrapping.
pub fn reclaim_tally(records: &Vec<DisposalRecord>) -> (t: ReclaimTally)
    ensures
        t.bytes_freed == sat64(tally_bytes(records@)),
        t.files_disposed == sat64(tally_disposed(records@)),
        t.failures == sat64(tally_failures(records@)),
{
    let mut bytes_freed: u64 = 0;
    let mut files_disposed: u64 = 0;
    let mut failures: u64 = 0;
    let mut i: usize = 0;
    while i < records.len()
        invariant
            i <= records.len(),
            bytes_freed == sat64(tally_bytes(records@.subrange(0, i as int))),
            files_disposed == sat64(tally_disposed(records@.subrange(0, i as int))),
            failures == sat64(tally_failures(records@.subrange(0, i as int))),
        decreases records.len() - i,
    {
        let r = records[i];
        proof {
            let pre = records@.subrange(0, i as int);
            let post = records@.subrange(0, i + 1);
            assert(post.drop_last() =~= pre);
            assert(post.last() == r);
            lemma_tally_bounds(pre);
            lemma_sat_absorb(tally_bytes(pre), (record_bytes(r)) as u64);
            lemma_sat_absorb(tally_disposed(pre), if record_disposed(r) {
                1u64
            } else {
                0u64
            });
            lemma_sat_absorb(tally_failures(pre), if record_failed(r) {
                1u64
            } else {
                0u64
            });
        }
        if r.is_file {
            if r.removed {
                match r.len {
                    Option::Some(l) => {
                        bytes_freed = sat_add(bytes_freed, l);
                    },
                    Option::None => {},
                }
                files_disposed = sat_add(files_disposed, 1);
            } else {
                failures = sat_add(failures, 1);
            }
        }
        i = i + 1;
    }
    proof {
        assert(records@.subrange(0, records@.len() as int) =~= records@);
    }
    ReclaimTally { bytes_freed, files_disposed, failures }
}

/// A tree with no regular files yields a zero outcome: nothing is freed,
/// disposed or failed. Hence a second reclaim of a fully reclaimed tree —
/// whose files are gone — reports zero bytes freed.
pub proof fn lemma_no_files_zero_tally(rs: Seq<DisposalRecord>)
    requires
        forall|i: int| 0 <= i < rs.len() ==> !rs[i].is_file,
    ensures
        tally_bytes(rs) == 0,
        tally_disposed(rs) == 0,
        tally_failures(rs) == 0,
    decreases rs.len(),
{
    if rs.len() > 0 {
        lemma_no_files_zero_tally(rs.drop_last());
    }
}

/// A pass in which nothing was removed freed nothing: every byte of
/// `bytes_freed` belongs to a file that is gone. Hence a second reclaim
/// of an unchanged tree — where whatever survived the first pass, such as
/// a persistently locked file, fails again — reports zero bytes freed.
pub proof fn lemma_nothing_removed_frees_nothing(rs: Seq<DisposalRecord>)
    requires
        forall|i: int| 0 <= i < rs.len() ==> !rs[i].removed,
    ensures
        tally_bytes(rs) == 0,
        tally_disposed(rs) == 0,
    decreases rs.len(),
{
    if rs.len() > 0 {
        lemma_nothing_removed_frees_nothing(rs.drop_last());
    }
}

/// Every regular file is either disposed of or counted as a failure, so
/// the disposed count never exceeds the number of files walked — a locked
/// or undeletable file lowers the count but never surfaces as an error.
pub proof fn lemma_disposed_bounded_by_files(rs: Seq<DisposalRecord>)
    ensures
        tally_disposed(rs) + tally_failures(rs) == tally_files(rs),
        tally_disposed(rs) <= tally_files(rs),
    decreases rs.len(),
{
    if rs.len() > 0 {
        lemma_disposed_bounded_by_files(rs.drop_last());
        lemma_tally_bounds(rs.drop_last());
    }
}

/// The pruning pass removes a walked directory exactly when it is not the
/// reclaimed root itself; files and the root are left to the other passes.
pub fn should_prune(is_dir: bool, is_root: bool) -> (r: bool)
    ensures
        r == (is_dir && !is_root),
{
    is_dir && !is_root
}

/// What a privacy-clean target turned out to be when probed.
#[derive(Debug, Clone, Copy, PartialEq, Eq, Structural)]
pub enum CleanTarget {
    /// The path does not exist: the clean is a successful no-op.
    Missing,
    /// A single regular file: dispose of it directly, surfacing an error.
    RegularFile,
    /// A directory: run a best-effort disposal pass and then prune.
    Directory,
}

/// What the privacy cleaner has to do for a probed target.
#[derive(Debug, Clone, Copy, PartialEq, Eq, Structural)]
pub enum CleanPlan {
    /// Nothing to do; report zero items cleaned.
    Nothing,
    /// Dispose of the one file; its count is 1 and its error is the
    /// caller's.
    DisposeFile,
    /// Dispose of every file beneath, absorbing per-file failures, then
    /// prune emptied subdirectories.
    DisposeTree,
}

/// Dispatch a privacy clean on the probed state of its target path.
pub fn clean_plan(target: CleanTarget) -> (p: CleanPlan)
    ensures
        target is Missing ==> p is Nothing,
        target is RegularFile ==> p is DisposeFile,
        target is Directory ==> p is DisposeTree,
{
    match target {
        CleanTarget::Missing => CleanPlan::Nothing,
        CleanTarget::RegularFile => CleanPlan::DisposeFile,
        CleanTarget::Directory => CleanPlan::DisposeTree,
    }
}

} // verus!
