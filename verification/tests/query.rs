use storage_usage::fuzzy::FuzzyIndex;
use storage_usage::fuzzy::IndexEntry;
use storage_usage::mft_query::entry_lines;
use storage_usage::mft_query::preview_header;
use storage_usage::mft_query::preview_lines;
use storage_usage::mft_query::query_mft_files_fuzzy;
use storage_usage::mft_query::report_lines;
use storage_usage::mft_query::shown;
use storage_usage::mft_query::time_string;
use storage_usage::mft_query::QueryError;
use storage_usage::mft_query::QuerySession;
use storage_usage::mft_query::QueryStep;
use storage_usage::resolver::DiscoveredFile;
use storage_usage::tui::mainbound_message::MainboundMessage;
use storage_usage::tui::worker::process_mft_bytes;

fn entry(path: &str, time: Option<i64>) -> IndexEntry {
    IndexEntry { path: path.to_string(), created: time, modified: time, accessed: None }
}

fn settle(index: &mut FuzzyIndex, items: usize) {
    for _ in 0..500 {
        let running = index.tick(10);
        if !running && index.item_count() == items {
            return;
        }
    }
    panic!("the index did not settle");
}

#[test]
fn search_needs_a_query_and_a_cached_dump() {
    let drives = vec!['C', 'D', 'E'];
    assert_eq!(
        query_mft_files_fuzzy("report", &drives, &vec![false, true, true]),
        Ok(vec!['D', 'E'])
    );
    assert_eq!(
        query_mft_files_fuzzy("report", &drives, &vec![false, false, false]),
        Err(QueryError::NoCachedFiles)
    );
    assert_eq!(query_mft_files_fuzzy("report", &drives, &vec![true]), Ok(vec!['C']));
    assert_eq!(query_mft_files_fuzzy("  ", &drives, &vec![true, true, true]), Err(QueryError::EmptyQuery));
    assert_eq!(query_mft_files_fuzzy("x", &Vec::new(), &Vec::new()), Err(QueryError::NoCachedFiles));
}

#[test]
fn previews_come_at_once_and_then_at_intervals() {
    let mut s = QuerySession::new(1000, 500, None);
    assert_eq!(s.poll(1000, false), QueryStep::Preview { is_final: false });
    assert_eq!(s.poll(1100, false), QueryStep::Wait);
    assert_eq!(s.poll(1499, true), QueryStep::Wait);
    assert_eq!(s.poll(1500, false), QueryStep::Preview { is_final: false });
    assert_eq!(s.last_display, Some(1500));
    assert_eq!(s.poll(1999, false), QueryStep::Wait);
    assert_eq!(s.poll(2000, true), QueryStep::Preview { is_final: true });
}

#[test]
fn time_limit_ends_the_search() {
    let mut s = QuerySession::new(1000, 500, Some(2000));
    assert!(!s.is_timed_out(2999));
    assert!(s.is_timed_out(3000));
    assert_eq!(s.poll(1000, false), QueryStep::Preview { is_final: false });
    assert_eq!(s.poll(3000, false), QueryStep::TimedOut);
    assert_eq!(s.last_display, Some(1000));
    let mut at_once = QuerySession::new(5, 500, Some(0));
    assert_eq!(at_once.poll(5, false), QueryStep::TimedOut);
}

#[test]
fn preview_lines_show_the_best_matches() {
    assert_eq!(shown(3, 10), 3);
    assert_eq!(shown(30, 10), 10);
    assert_eq!(
        preview_header(false, 1234, 5000, 4000, 17),
        "--- Preview (1234 ms elapsed, entries processed: 5000, files collected: 4000, matches: 17) ---"
    );
    let lines = preview_lines(true, 10, 2, 2, 0, Vec::new());
    assert_eq!(
        lines,
        vec![
            "--- Final preview (10 ms elapsed, entries processed: 2, files collected: 2, matches: 0) ---",
            "(no matches yet)",
            ""
        ]
    );
    let top = vec!["C:\\a".to_string(), "C:\\b".to_string()];
    let lines = preview_lines(false, 10, 9, 8, 5, top.clone());
    assert_eq!(lines[1], "C:\\a");
    assert_eq!(lines[2], "C:\\b");
    assert_eq!(lines[3], "... (3 more preview matches)");
    assert_eq!(lines[4], "");
    assert_eq!(lines.len(), 5);
    let lines = preview_lines(false, 10, 9, 8, 2, top);
    assert_eq!(lines.len(), 4);
    assert_eq!(lines[3], "");
}

#[test]
fn times_are_written_in_utc() {
    assert_eq!(time_string(Some(1_370_144_608)), "2013-06-02 03:43:28");
    assert_eq!(time_string(Some(0)), "1970-01-01 00:00:00");
    assert_eq!(time_string(Some(-1)), "1969-12-31 23:59:59");
    assert_eq!(time_string(None), "N/A");
    assert_eq!(time_string(Some(i64::MAX)), "N/A");
}

#[test]
fn result_lines_of_one_entry() {
    let e = IndexEntry {
        path: "C:\\report.txt".to_string(),
        created: Some(1_370_144_608),
        modified: Some(86_400),
        accessed: None,
    };
    assert_eq!(
        entry_lines(&e),
        vec![
            "C:\\report.txt",
            "  Created:  2013-06-02 03:43:28 UTC",
            "  Modified: 1970-01-02 00:00:00 UTC",
            "  Accessed: N/A UTC",
            ""
        ]
    );
}

#[test]
fn report_without_matches() {
    assert_eq!(
        report_lines("zzz", 10, 0, 42, 99, 2, &Vec::new(), None),
        vec![
            "No files found matching the search query 'zzz'",
            "Searched 42 files (99 entries) total."
        ]
    );
}

#[test]
fn report_with_matches_and_limit() {
    let results = vec![entry("C:\\a", Some(0)), entry("C:\\b", None)];
    let lines = report_lines("a", 2, 5, 42, 99, 1, &results, Some(1500));
    assert_eq!(lines[0], "Found 5 matching files (processed 42 files / 99 entries across 1 drives):");
    assert_eq!(lines[1], "");
    assert_eq!(lines[2], "C:\\a");
    assert_eq!(lines[3], "  Created:  1970-01-01 00:00:00 UTC");
    assert_eq!(lines[7], "C:\\b");
    assert_eq!(lines[12], "");
    assert_eq!(lines[13], "... and 3 more results (showing first 2 due to limit)");
    assert_eq!(lines[14], "");
    assert_eq!(lines[15], "Found 5 files matching 'a' (limit: 2)");
    assert_eq!(lines[16], "Timeout reached after 1500 ms");
    assert_eq!(lines.len(), 17);
    let lines = report_lines("a", 10, 2, 42, 99, 1, &results, None);
    assert_eq!(lines.len(), 2 + 10 + 2);
    assert_eq!(lines[13], "Found 2 files matching 'a' (limit: 10)");
}

#[test]
fn index_ranks_what_was_pushed() {
    let mut index = FuzzyIndex::new();
    assert_eq!(index.matched_count(), 0);
    assert!(index.matched_item(0).is_none());
    index.push(entry("C:\\Users\\me\\report.txt", Some(7)));
    index.push_path("C:\\Windows\\notepad.exe".to_string());
    index.push(entry("C:\\Users\\me\\reporting\\old.txt", None));
    index.reparse_pattern("report");
    settle(&mut index, 3);
    assert_eq!(index.item_count(), 3);
    assert_eq!(index.matched_count(), 2);
    let items = index.matched_items(0, 10);
    let mut paths: Vec<String> = items.iter().map(|e| e.path.clone()).collect();
    paths.sort();
    assert_eq!(paths, vec!["C:\\Users\\me\\report.txt", "C:\\Users\\me\\reporting\\old.txt"]);
    let first = index.matched_item(0).expect("a match");
    assert!(first.path.contains("report"));
    let with_time = items.iter().find(|e| e.path.ends_with("report.txt")).unwrap();
    assert_eq!(with_time.created, Some(7));
    assert_eq!(with_time.accessed, None);
    assert!(index.matched_item(2).is_none());
    assert!(index.matched_item(usize::MAX).is_none());
    assert_eq!(index.matched_items(1, 2).len(), 1);
    assert!(index.matched_items(5, 2).is_empty());
}

#[test]
fn index_matches_with_smart_case() {
    let mut index = FuzzyIndex::new();
    index.push_path("C:\\Readme.md".to_string());
    index.push_path("C:\\readme.txt".to_string());
    index.reparse_pattern("readme");
    settle(&mut index, 2);
    assert_eq!(index.matched_count(), 2);
    index.reparse_pattern("Readme");
    settle(&mut index, 2);
    assert_eq!(index.matched_count(), 1);
    assert_eq!(index.matched_item(0).unwrap().path, "C:\\Readme.md");
    index.reparse_pattern("");
    settle(&mut index, 2);
    assert_eq!(index.matched_count(), 2);
}

#[test]
fn discovered_files_are_indexed_under_their_full_path() {
    let files = vec![
        DiscoveredFile {
            filename: "report.txt".to_string(),
            parent_ref: Some(5),
            full_path: "C:\\report.txt".to_string(),
            created: Some(1),
            modified: Some(2),
            accessed: Some(3),
        },
        DiscoveredFile {
            filename: "other.bin".to_string(),
            parent_ref: None,
            full_path: "C:\\other.bin".to_string(),
            created: None,
            modified: None,
            accessed: None,
        },
    ];
    let mut index = FuzzyIndex::new();
    index.push_discovered(&files);
    index.reparse_pattern("report");
    settle(&mut index, 2);
    assert_eq!(index.matched_count(), 1);
    let hit = index.matched_item(0).unwrap();
    assert_eq!(hit.path, "C:\\report.txt");
    assert_eq!((hit.created, hit.modified, hit.accessed), (Some(1), Some(2), Some(3)));
}

#[test]
fn query_over_a_synthetic_dump_finds_the_report() {
    // two records of 1024 bytes: the root and a file below it
    fn put(b: &mut [u8], off: usize, bytes: &[u8]) {
        b[off..off + bytes.len()].copy_from_slice(bytes);
    }
    fn record(name: &str, parent: u64) -> Vec<u8> {
        let units: Vec<u16> = name.encode_utf16().collect();
        let content = 66 + 2 * units.len();
        let len = (24 + content + 7) / 8 * 8;
        let mut r = vec![0u8; 1024];
        put(&mut r, 0, b"FILE");
        put(&mut r, 4, &48u16.to_le_bytes());
        put(&mut r, 6, &3u16.to_le_bytes());
        put(&mut r, 20, &56u16.to_le_bytes());
        put(&mut r, 22, &1u16.to_le_bytes());
        put(&mut r, 28, &1024u32.to_le_bytes());
        put(&mut r, 56, &0x30u32.to_le_bytes());
        put(&mut r, 60, &(len as u32).to_le_bytes());
        put(&mut r, 72, &(content as u32).to_le_bytes());
        put(&mut r, 76, &24u16.to_le_bytes());
        put(&mut r, 80, &parent.to_le_bytes());
        for i in 0..4 {
            put(&mut r, 88 + 8 * i, &((1_370_144_608u64 + 11_644_473_600) * 10_000_000).to_le_bytes());
        }
        r[144] = units.len() as u8;
        r[145] = 1;
        for (i, u) in units.iter().enumerate() {
            put(&mut r, 146 + 2 * i, &u.to_le_bytes());
        }
        put(&mut r, 56 + len, &0xFFFF_FFFFu32.to_le_bytes());
        put(&mut r, 48, &[1, 0]);
        for k in 0..2 {
            let tail = (k + 1) * 512 - 2;
            let saved = [r[tail], r[tail + 1]];
            put(&mut r, 50 + 2 * k, &saved);
            put(&mut r, tail, &[1, 0]);
        }
        r
    }
    let mut bytes = record(".", 5);
    bytes.extend(record("report.txt", 5));
    let mut index = FuzzyIndex::new();
    for event in process_mft_bytes(0, &bytes, 'C') {
        if let MainboundMessage::DiscoveredFiles { files, .. } = event {
            index.push_discovered(&files);
        }
    }
    index.reparse_pattern("report");
    settle(&mut index, 1);
    assert_eq!(index.matched_count(), 1);
    let results = index.matched_items(0, shown(index.matched_count(), 10));
    let lines = report_lines("report", 10, 1, 1, 2, 1, &results, None);
    assert!(lines.contains(&"C:\\report.txt".to_string()));
    assert!(lines.contains(&"  Created:  2013-06-02 03:43:28 UTC".to_string()));
    assert_eq!(lines[lines.len() - 1], "Found 1 files matching 'report' (limit: 10)");
}

#[test]
fn matches_come_in_the_order_of_their_ranks() {
    let mut index = FuzzyIndex::new();
    for name in ["C:\\a\\report.txt", "C:\\b\\rep.txt", "C:\\c\\annual-report-final.txt", "C:\\d\\x.txt"] {
        index.push_path(name.to_string());
    }
    index.reparse_pattern("report");
    settle(&mut index, 4);
    let n = index.matched_count();
    assert_eq!(n, 2);
    let all: Vec<String> = index.matched_items(0, n).into_iter().map(|e| e.path).collect();
    let one_by_one: Vec<String> =
        (0..n).map(|rank| index.matched_item(rank).expect("a match").path).collect();
    assert_eq!(all, one_by_one);
    assert_ne!(all[0], all[1]);
    let tail: Vec<String> = index.matched_items(1, 10).into_iter().map(|e| e.path).collect();
    assert_eq!(tail, vec![all[1].clone()]);
}
