use std::collections::HashMap;
use storage_usage::paths::fallback_path;
use storage_usage::paths::try_build_full_path;
use storage_usage::paths::DirectoryEntry;
use storage_usage::resolver::DiscoveredFile;
use storage_usage::resolver::NamedRecord;
use storage_usage::resolver::PathResolver;

fn entry(name: &str, parent: Option<u64>) -> DirectoryEntry {
    DirectoryEntry { name: name.to_string(), parent }
}

fn named(record_number: u64, filename: &str, parent_ref: Option<u64>) -> NamedRecord {
    NamedRecord {
        record_number,
        filename: filename.to_string(),
        parent_ref,
        created: 1,
        modified: 2,
        accessed: 3,
    }
}

fn paths(files: &[DiscoveredFile]) -> Vec<String> {
    files.iter().map(|f| f.full_path.clone()).collect()
}

#[test]
fn path_without_parent_is_the_name_under_the_drive() {
    let dirs = HashMap::new();
    assert_eq!(try_build_full_path("a.txt", None, &dirs, 'C'), Ok("C:\\a.txt".to_string()));
    assert_eq!(try_build_full_path("a.txt", None, &dirs, '?'), Ok("\\a.txt".to_string()));
}

#[test]
fn path_ends_at_the_root_record() {
    let mut dirs = HashMap::new();
    dirs.insert(5, entry("never used", Some(5)));
    assert_eq!(try_build_full_path("a.txt", Some(5), &dirs, 'C'), Ok("C:\\a.txt".to_string()));
}

#[test]
fn path_has_one_component_for_each_ancestor() {
    let mut dirs = HashMap::new();
    dirs.insert(10, entry("Users", Some(5)));
    dirs.insert(11, entry("me", Some(10)));
    dirs.insert(12, entry("docs", Some(11)));
    let path = try_build_full_path("report.txt", Some(12), &dirs, 'D').unwrap();
    assert_eq!(path, "D:\\Users\\me\\docs\\report.txt");
    assert_eq!(path["D:\\".len()..].split('\\').count(), 3 + 1);
}

#[test]
fn path_ends_at_a_directory_named_dot() {
    let mut dirs = HashMap::new();
    dirs.insert(10, entry(".", Some(99)));
    dirs.insert(11, entry("me", Some(10)));
    assert_eq!(try_build_full_path("a", Some(11), &dirs, 'C'), Ok("C:\\me\\a".to_string()));
}

#[test]
fn first_missing_ancestor_is_reported() {
    let mut dirs = HashMap::new();
    dirs.insert(11, entry("me", Some(10)));
    assert_eq!(try_build_full_path("a", Some(11), &dirs, 'C'), Err(10));
    assert_eq!(try_build_full_path("a", Some(77), &dirs, 'C'), Err(77));
}

#[test]
fn cycle_is_cut_off_by_the_hop_guard() {
    let mut dirs = HashMap::new();
    dirs.insert(20, entry("a", Some(21)));
    dirs.insert(21, entry("b", Some(20)));
    let path = try_build_full_path("leaf", Some(20), &dirs, 'C').unwrap();
    let components: Vec<&str> = path["C:\\".len()..].split('\\').collect();
    // 4096 ancestors and the name itself
    assert_eq!(components.len(), 4096 + 1);
    assert_eq!(components[components.len() - 1], "leaf");
    assert_eq!(components[components.len() - 2], "a");
    assert_eq!(components[components.len() - 3], "b");
    assert!(path.starts_with("C:\\"));
}

#[test]
fn self_parent_is_cut_off_too() {
    let mut dirs = HashMap::new();
    dirs.insert(30, entry("loop", Some(30)));
    let path = try_build_full_path("x", Some(30), &dirs, '?').unwrap();
    assert!(path.starts_with("\\loop\\loop\\"));
    assert_eq!(path[1..].split('\\').count(), 4097);
}

#[test]
fn fallback_path_is_prefix_and_name() {
    assert_eq!(fallback_path("orphan.txt", 'E'), "E:\\orphan.txt");
    assert_eq!(fallback_path("orphan.txt", '?'), "\\orphan.txt");
}

#[test]
fn record_with_complete_chain_is_emitted_at_once() {
    let mut r = PathResolver::new('C');
    assert_eq!(r.drive_letter(), 'C');
    let out = r.accept(named(10, "Users", Some(5)));
    assert_eq!(paths(&out), vec!["C:\\Users"]);
    assert_eq!(out[0].filename, "Users");
    assert_eq!(out[0].parent_ref, Some(5));
    assert_eq!(out[0].created, Some(1));
    assert_eq!(out[0].modified, Some(2));
    assert_eq!(out[0].accessed, Some(3));
    let out = r.accept(named(11, "me", Some(10)));
    assert_eq!(paths(&out), vec!["C:\\Users\\me"]);
    assert!(r.knows(10));
    assert!(r.knows(11));
    assert!(!r.knows(12));
    assert_eq!(r.deferred(), 0);
    assert!(r.finish().is_empty());
}

#[test]
fn record_nine_waits_for_record_eight() {
    let mut r = PathResolver::new('C');
    let out = r.accept(named(9, "name9", Some(8)));
    assert!(out.is_empty());
    assert_eq!(r.deferred(), 1);
    let out = r.accept(named(8, "name8", Some(5)));
    assert_eq!(paths(&out), vec!["C:\\name8", "C:\\name8\\name9"]);
    assert!(r.finish().is_empty());
}

#[test]
fn chain_of_waiting_records_unwinds() {
    let mut r = PathResolver::new('C');
    assert!(r.accept(named(3, "c", Some(2))).is_empty());
    assert!(r.accept(named(2, "b", Some(1))).is_empty());
    assert!(r.accept(named(4, "d", Some(2))).is_empty());
    let out = r.accept(named(1, "a", Some(5)));
    // what waited on the new record is worked off last first
    assert_eq!(paths(&out), vec!["C:\\a", "C:\\a\\b\\d", "C:\\a\\b", "C:\\a\\b\\c"]);
    assert_eq!(r.deferred(), 3);
    assert!(r.finish().is_empty());
}

#[test]
fn record_waits_again_on_the_next_missing_ancestor() {
    let mut r = PathResolver::new('C');
    assert!(r.accept(named(3, "c", Some(2))).is_empty());
    // 2 arrives and resolves: its own parent is the root; 3 follows
    // but 4 hangs below 9, which never comes
    assert!(r.accept(named(4, "d", Some(9))).is_empty());
    let out = r.accept(named(2, "b", Some(5)));
    assert_eq!(paths(&out), vec!["C:\\b", "C:\\b\\c"]);
    let rest = r.finish();
    assert_eq!(paths(&rest), vec!["C:\\d"]);
}

#[test]
fn stranded_records_come_out_in_the_order_of_arrival() {
    let mut r = PathResolver::new('?');
    assert!(r.accept(named(1, "one", Some(100))).is_empty());
    assert!(r.accept(named(2, "two", Some(200))).is_empty());
    assert!(r.accept(named(3, "three", Some(100))).is_empty());
    assert_eq!(paths(&r.finish()), vec!["\\one", "\\two", "\\three"]);
}

#[test]
fn every_record_is_emitted_exactly_once() {
    let mut r = PathResolver::new('C');
    let mut emitted = 0;
    let records = vec![
        named(7, "g", Some(6)),
        named(6, "f", Some(5)),
        named(9, "i", Some(8)),
        named(10, "j", Some(77)),
        named(8, "h", Some(7)),
    ];
    let accepted = records.len();
    for record in records {
        emitted += r.accept(record).len();
    }
    emitted += r.finish().len();
    assert_eq!(emitted, accepted);
}

#[test]
fn cycle_among_records_is_resolved_with_truncated_paths() {
    let mut r = PathResolver::new('C');
    assert!(r.accept(named(20, "a", Some(21))).is_empty());
    let out = r.accept(named(21, "b", Some(20)));
    assert_eq!(out.len(), 2);
    assert!(out[0].full_path.ends_with("\\a\\b"));
    assert!(out[1].full_path.ends_with("\\b\\a"));
    assert!(out.iter().all(|f| f.full_path.starts_with("C:\\")));
    assert!(r.finish().is_empty());
}
