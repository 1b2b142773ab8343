//! Directory statistics and scan aggregation.
//!
//! The traversal itself is I/O and lives in the unverified shell; it reports
//! each visited entry as a plain [`WalkEntry`]. This module folds those
//! reports into byte/file totals and aggregates per-location statistics
//! into a [`ScanResult`], proving the totals are the (clamped) exact sums.

use vstd::prelude::*;
use crate::saturate::{sat64, sat_add, lemma_sat_absorb};

verus! {

/// One filesystem entry met during a recursive walk, reduced to what the
/// statistics fold reads: whether it is a regular file, and its metadata
/// length where the metadata could be read (`None` = unreadable, skipped).
#[derive(Debug, Clone, Copy, PartialEq, Eq)]
pub struct WalkEntry {
    pub is_file: bool,
    pub len: Option<u64>,
}

/// Bytes one entry contributes: the length of a readable regular file.
pub open spec fn entry_bytes(e: WalkEntry) -> int {
    match e.len {
        Option::Some(l) => if e.is_file {
            l as int
        } else {
            0
        },
        Option::None => 0,
    }
}

/// Whether one entry counts as a measured file: regular and readable.
pub open spec fn entry_counted(e: WalkEntry) -> bool {
    e.is_file && e.len is Some
}

/// Total bytes of the readable regular files among `es`.
pub open spec fn tree_bytes(es: Seq<WalkEntry>) -> int
    decreases es.len(),
{
    if es.len() == 0 {
        0
    } else {
        tree_bytes(es.drop_last()) + entry_bytes(es.last())
    }
}

/// Number of readable regular files among `es`.
pub open spec fn tree_files(es: Seq<WalkEntry>) -> int
    decreases es.len(),
{
    if es.len() == 0 {
        0
    } else {
        tree_files(es.drop_last()) + if entry_counted(es.last()) {
            1int
        } else {
            0int
        }
    }
}

/// Both tree sums are non-negative, and the file count never exceeds the
/// number of walked entries.
pub proof fn lemma_tree_sums_bounds(es: Seq<WalkEntry>)
    ensures
        0 <= tree_bytes(es),
        0 <= tree_files(es) <= es.len(),
    decreases es.len(),
{
    if es.len() > 0 {
        lemma_tree_sums_bounds(es.drop_last());
    }
}

/// Fold the walk report of one location into `(total_bytes, file_count)`.
///
/// Mirrors the statistics walker's contract: every readable regular file
/// adds its length and one to the count; everything else adds nothing;
/// totals clamp at `u64::MAX` instead of wrapping.
pub fn get_dir_stats(entries: &Vec<WalkEntry>) -> (r: (u64, u64))
    ensures
        r.0 == sat64(tree_bytes(entries@)),
        r.1 == sat64(tree_files(entries@)),
{
    let mut total_size: u64 = 0;
    let mut file_count: u64 = 0;
    let mut i: usize = 0;
    while i < entries.len()
        invariant
            i <= entries.len(),
            total_size == sat64(tree_bytes(entries@.subrange(0, i as int))),
            file_count == sat64(tree_files(entries@.subrange(0, i as int))),
        decreases entries.len() - i,
    {
        let e = entries[i];
        proof {
            let pre = entries@.subrange(0, i as int);
            let post = entries@.subrange(0, i + 1);
            assert(post.drop_last() =~= pre);
            assert(post.last() == e);
            lemma_tree_sums_bounds(pre);
            lemma_sat_absorb(tree_bytes(pre), (entry_bytes(e)) as u64);
            lemma_sat_absorb(tree_files(pre), if entry_counted(e) {
                1u64
            } else {
                0u64
            });
        }
        if e.is_file {
            match e.len {
                Option::Some(l) => {
                    total_size = sat_add(total_size, l);
                    file_count = sat_add(file_count, 1);
                },
                Option::None => {},
            }
        }
        i = i + 1;
    }
    proof {
        assert(entries@.subrange(0, entries@.len() as int) =~= entries@);
    }
    (total_size, file_count)
}

/// One catalog location to scan: where it is, its category label, and the
/// walk report of every entry beneath it.
#[derive(Debug, Clone)]
pub struct Location {
    pub path: String,
    pub category: String,
    pub entries: Vec<WalkEntry>,
}

/// Mathematical image of a [`Location`].
pub ghost struct LocationV {
    pub path: Seq<char>,
    pub category: Seq<char>,
    pub entries: Seq<WalkEntry>,
}

impl View for Location {
    type V = LocationV;

    open spec fn view(&self) -> LocationV {
        LocationV { path: self.path@, category: self.category@, entries: self.entries@ }
    }
}

/// Statistics of one location that held data, kept by a scan.
#[derive(Debug, Clone)]
pub struct CacheItem {
    pub path: String,
    pub size: u64,
    pub file_count: u64,
    pub category: String,
}

/// Mathematical image of a [`CacheItem`].
pub ghost struct CacheItemV {
    pub path: Seq<char>,
    pub size: u64,
    pub file_count: u64,
    pub category: Seq<char>,
}

impl View for CacheItem {
    type V = CacheItemV;

    open spec fn view(&self) -> CacheItemV {
        CacheItemV {
            path: self.path@,
            size: self.size,
            file_count: self.file_count,
            category: self.category@,
        }
    }
}

/// The record a scan keeps for one non-empty location.
pub open spec fn record_of(l: LocationV) -> CacheItemV {
    CacheItemV {
        path: l.path,
        size: sat64(tree_bytes(l.entries)),
        file_count: sat64(tree_files(l.entries)),
        category: l.category,
    }
}

/// The records a scan keeps: one per location with a positive byte total,
/// in catalog order; empty or absent locations are dropped.
pub open spec fn scan_records(locs: Seq<LocationV>) -> Seq<CacheItemV>
    decreases locs.len(),
{
    if locs.len() == 0 {
        Seq::empty()
    } else {
        let rest = scan_records(locs.drop_last());
        if tree_bytes(locs.last().entries) > 0 {
            rest.push(record_of(locs.last()))
        } else {
            rest
        }
    }
}

/// Sum of the byte totals of kept records.
pub open spec fn records_bytes(rs: Seq<CacheItemV>) -> int
    decreases rs.len(),
{
    if rs.len() == 0 {
        0
    } else {
        records_bytes(rs.drop_last()) + rs.last().size
    }
}

/// Sum of the file counts of kept records.
pub open spec fn records_files(rs: Seq<CacheItemV>) -> int
    decreases rs.len(),
{
    if rs.len() == 0 {
        0
    } else {
        records_files(rs.drop_last()) + rs.last().file_count
    }
}

proof fn lemma_records_sums_nonneg(rs: Seq<CacheItemV>)
    ensures
        0 <= records_bytes(rs),
        0 <= records_files(rs),
    decreases rs.len(),
{
    if rs.len() > 0 {
        lemma_records_sums_nonneg(rs.drop_last());
    }
}

/// Every record a scan keeps stands for a location that held data: its
/// byte total is positive.
pub proof fn lemma_scan_keeps_only_nonempty(locs: Seq<LocationV>)
    ensures
        forall|i: int|
            0 <= i < scan_records(locs).len() ==> #[trigger] scan_records(locs)[i].size > 0,
    decreases locs.len(),
{
    if locs.len() > 0 {
        lemma_scan_keeps_only_nonempty(locs.drop_last());
        lemma_tree_sums_bounds(locs.last().entries);
        let rest = scan_records(locs.drop_last());
        if tree_bytes(locs.last().entries) > 0 {
            assert(scan_records(locs) == rest.push(record_of(locs.last())));
            assert forall|i: int| 0 <= i < scan_records(locs).len() implies #[trigger] scan_records(
                locs,
            )[i].size > 0 by {
                if i < rest.len() {
                    assert(scan_records(locs)[i] == rest[i]);
                } else {
                    assert(scan_records(locs)[i] == record_of(locs.last()));
                }
            }
        } else {
            assert(scan_records(locs) == rest);
        }
    }
}

/// Result of scanning the whole catalog.
#[derive(Debug, Clone)]
pub struct ScanResult {
    pub items: Vec<CacheItem>,
    pub total_size: u64,
    pub total_files: u64,
}

impl ScanResult {
    /// The totals are the (clamped) sums over the kept records.
    pub open spec fn wf(self) -> bool {
        &&& self.total_size == sat64(records_bytes(self.items@.map_values(|c: CacheItem| c@)))
        &&& self.total_files == sat64(records_files(self.items@.map_values(|c: CacheItem| c@)))
    }
}

/// Aggregate a scan over every catalog location.
///
/// Keeps, in catalog order, a record for each location whose walk shows a
/// positive byte total; drops empty or absent ones; sums bytes and file
/// counts over the kept records.
pub fn scan_all_caches(locations: &Vec<Location>) -> (r: ScanResult)
    ensures
        r.items@.map_values(|c: CacheItem| c@) =~= scan_records(
            locations@.map_values(|l: Location| l@),
        ),
        r.total_size == sat64(
            records_bytes(scan_records(locations@.map_values(|l: Location| l@))),
        ),
        r.total_files == sat64(
            records_files(scan_records(locations@.map_values(|l: Location| l@))),
        ),
        r.wf(),
{
    let mut items: Vec<CacheItem> = Vec::new();
    let mut total_size: u64 = 0;
    let mut total_files: u64 = 0;
    let mut i: usize = 0;
    while i < locations.len()
        invariant
            i <= locations.len(),
            items@.map_values(|c: CacheItem| c@) =~= scan_records(
                locations@.subrange(0, i as int).map_values(|l: Location| l@),
            ),
            total_size == sat64(
                records_bytes(items@.map_values(|c: CacheItem| c@)),
            ),
            total_files == sat64(
                records_files(items@.map_values(|c: CacheItem| c@)),
            ),
        decreases locations.len() - i,
    {
        let loc = &locations[i];
        let (size, count) = get_dir_stats(&loc.entries);
        proof {
            let pre = locations@.subrange(0, i as int).map_values(|l: Location| l@);
            let post = locations@.subrange(0, i + 1).map_values(|l: Location| l@);
            assert(post.drop_last() =~= pre);
            assert(post.last() == locations@[i as int]@);
            lemma_tree_sums_bounds(locations@[i as int]@.entries);
        }
        if size > 0 {
            let item = CacheItem {
                path: loc.path.clone(),
                size,
                file_count: count,
                category: loc.category.clone(),
            };
            proof {
                let kept = items@.map_values(|c: CacheItem| c@);
                assert(item@ == record_of(locations@[i as int]@));
                lemma_records_sums_nonneg(kept);
                lemma_sat_absorb(records_bytes(kept), item.size);
                lemma_sat_absorb(records_files(kept), item.file_count);
                assert(kept.push(item@).drop_last() =~= kept);
                assert(kept.push(item@).last() == item@);
            }
            let ghost old_map = items@.map_values(|c: CacheItem| c@);
            let ghost itemv = item@;
            items.push(item);
            proof {
                assert(items@.map_values(|c: CacheItem| c@) =~= old_map.push(itemv));
            }
            total_size = sat_add(total_size, size);
            total_files = sat_add(total_files, count);
        }
        i = i + 1;
    }
    proof {
        assert(locations@.subrange(0, locations@.len() as int) =~= locations@);
    }
    ScanResult { items, total_size, total_files }
}

} // verus!
