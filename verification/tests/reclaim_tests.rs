use cleansweep::reclaim::{
    clean_plan, reclaim_tally, should_prune, CleanPlan, CleanTarget, DisposalRecord,
};

fn removed_file(len: u64) -> DisposalRecord {
    DisposalRecord { is_file: true, len: Some(len), removed: true }
}

fn locked_file(len: u64) -> DisposalRecord {
    DisposalRecord { is_file: true, len: Some(len), removed: false }
}

fn dir_entry() -> DisposalRecord {
    DisposalRecord { is_file: false, len: None, removed: false }
}

#[test]
fn tally_counts_bytes_files_and_failures() {
    let records = vec![
        dir_entry(),
        removed_file(100),
        locked_file(40),
        removed_file(0),
        dir_entry(),
        removed_file(60),
    ];
    let t = reclaim_tally(&records);
    // Plain cache-clean convention: only files actually removed free
    // their bytes; the locked 40-byte file frees nothing.
    assert_eq!(t.bytes_freed, 160);
    // Secure-clean convention: only successful disposals count.
    assert_eq!(t.files_disposed, 3);
    assert_eq!(t.failures, 1);
}

#[test]
fn tree_without_files_reclaims_nothing() {
    // A tree already reclaimed holds only directories: a second reclaim
    // frees 0 bytes and disposes of nothing.
    let records = vec![dir_entry(), dir_entry(), dir_entry()];
    let t = reclaim_tally(&records);
    assert_eq!(t.bytes_freed, 0);
    assert_eq!(t.files_disposed, 0);
    assert_eq!(t.failures, 0);
}

#[test]
fn empty_walk_reclaims_nothing() {
    let records: Vec<DisposalRecord> = Vec::new();
    let t = reclaim_tally(&records);
    assert_eq!(t.bytes_freed, 0);
    assert_eq!(t.files_disposed, 0);
}

#[test]
fn locked_files_lower_the_count_without_failing() {
    // Five files, two locked: the count is below five and the call still
    // returns a tally rather than an error.
    let records = vec![
        removed_file(1),
        locked_file(2),
        removed_file(3),
        locked_file(4),
        removed_file(5),
    ];
    let t = reclaim_tally(&records);
    assert!(t.files_disposed <= 5);
    assert_eq!(t.files_disposed, 3);
    assert_eq!(t.failures, 2);
}

#[test]
fn locked_files_free_no_bytes_twice() {
    // A rerun over an unchanged tree: the only files left are the ones
    // whose removal failed before and fails again, so nothing is freed.
    let records = vec![locked_file(40), dir_entry(), locked_file(7)];
    let t = reclaim_tally(&records);
    assert_eq!(t.bytes_freed, 0);
    assert_eq!(t.files_disposed, 0);
    assert_eq!(t.failures, 2);
}

#[test]
fn unreadable_metadata_counts_no_bytes_but_still_disposes() {
    let records = vec![DisposalRecord { is_file: true, len: None, removed: true }];
    let t = reclaim_tally(&records);
    assert_eq!(t.bytes_freed, 0);
    assert_eq!(t.files_disposed, 1);
    assert_eq!(t.failures, 0);
}

#[test]
fn bytes_saturate_instead_of_wrapping() {
    let records = vec![removed_file(u64::MAX), removed_file(1)];
    let t = reclaim_tally(&records);
    assert_eq!(t.bytes_freed, u64::MAX);
}

#[test]
fn pruning_spares_the_root_and_files() {
    assert!(should_prune(true, false));
    assert!(!should_prune(true, true));
    assert!(!should_prune(false, false));
    assert!(!should_prune(false, true));
}

#[test]
fn privacy_clean_dispatch() {
    assert_eq!(clean_plan(CleanTarget::Missing), CleanPlan::Nothing);
    assert_eq!(clean_plan(CleanTarget::RegularFile), CleanPlan::DisposeFile);
    assert_eq!(clean_plan(CleanTarget::Directory), CleanPlan::DisposeTree);
}
