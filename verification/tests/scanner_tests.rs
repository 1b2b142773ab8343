use cleansweep::scanner::{get_dir_stats, scan_all_caches, Location, WalkEntry};

fn file(len: u64) -> WalkEntry {
    WalkEntry { is_file: true, len: Some(len) }
}

fn dir() -> WalkEntry {
    WalkEntry { is_file: false, len: None }
}

fn unreadable_file() -> WalkEntry {
    WalkEntry { is_file: true, len: None }
}

#[test]
fn stats_of_empty_walk() {
    let entries: Vec<WalkEntry> = Vec::new();
    assert_eq!(get_dir_stats(&entries), (0, 0));
}

#[test]
fn stats_sum_files_and_skip_the_rest() {
    // A tree of three files totalling 600 bytes, with directories and an
    // unreadable entry interleaved: depth and non-file entries change nothing.
    let entries = vec![dir(), file(100), dir(), file(250), unreadable_file(), file(250), dir()];
    assert_eq!(get_dir_stats(&entries), (600, 3));
}

#[test]
fn stats_count_zero_length_files() {
    let entries = vec![file(0), file(0)];
    assert_eq!(get_dir_stats(&entries), (0, 2));
}

#[test]
fn stats_saturate_instead_of_wrapping() {
    let entries = vec![file(u64::MAX), file(1)];
    assert_eq!(get_dir_stats(&entries), (u64::MAX, 2));
}

#[test]
fn scan_keeps_nonempty_locations_in_order() {
    let locations = vec![
        Location {
            path: String::from("/var/tmp"),
            category: String::from("temp"),
            entries: vec![file(10), file(30)],
        },
        Location {
            path: String::from("/var/empty"),
            category: String::from("temp"),
            entries: Vec::new(),
        },
        Location {
            path: String::from("/home/u/.cache"),
            category: String::from("cache"),
            entries: vec![dir(), file(60)],
        },
    ];
    let result = scan_all_caches(&locations);
    assert_eq!(result.items.len(), 2);
    assert_eq!(result.items[0].path, "/var/tmp");
    assert_eq!(result.items[0].size, 40);
    assert_eq!(result.items[0].file_count, 2);
    assert_eq!(result.items[0].category, "temp");
    assert_eq!(result.items[1].path, "/home/u/.cache");
    assert_eq!(result.items[1].size, 60);
    assert_eq!(result.items[1].file_count, 1);
    assert_eq!(result.total_size, 100);
    assert_eq!(result.total_files, 3);
}

#[test]
fn scan_drops_zero_size_location_with_empty_files() {
    // A location holding only zero-length files has size 0 and is dropped,
    // so its files do not reach the totals either.
    let locations = vec![
        Location {
            path: String::from("/a"),
            category: String::from("cache"),
            entries: vec![file(0), file(0)],
        },
        Location {
            path: String::from("/b"),
            category: String::from("cache"),
            entries: vec![file(5)],
        },
    ];
    let result = scan_all_caches(&locations);
    assert_eq!(result.items.len(), 1);
    assert_eq!(result.items[0].path, "/b");
    assert_eq!(result.total_size, 5);
    assert_eq!(result.total_files, 1);
}

#[test]
fn scan_of_nothing() {
    let locations: Vec<Location> = Vec::new();
    let result = scan_all_caches(&locations);
    assert_eq!(result.items.len(), 0);
    assert_eq!(result.total_size, 0);
    assert_eq!(result.total_files, 0);
}
