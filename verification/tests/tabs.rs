use storage_usage::mft_show::expand_glob_pattern;
use storage_usage::mft_show::is_glob_pattern;
use storage_usage::mft_show::needs_cache_dir;
use storage_usage::mft_show::resolve_show_pattern;
use storage_usage::mft_show::show_mft_file;
use storage_usage::mft_show::show_mft_files;
use storage_usage::mft_show::Candidate;
use storage_usage::mft_show::PathKind;
use storage_usage::mft_show::ShowError;
use storage_usage::tui::app::AppReaction;
use storage_usage::tui::app::MftShowApp;
use storage_usage::tui::mainbound_message::HandleError;
use storage_usage::tui::mainbound_message::MainboundMessage;
use storage_usage::tui::progress::count_true;
use storage_usage::tui::progress::MftFileProgress;
use storage_usage::tui::tabs::app_tab::AppTab;
use storage_usage::tui::tabs::app_tab::Prepared;
use storage_usage::tui::tabs::app_tabs::AppTabs;
use storage_usage::tui::tabs::errors_tab::group_errors;
use storage_usage::tui::tabs::errors_tab::ErrorsTab;
use storage_usage::tui::tabs::keys::KeyCode;
use storage_usage::tui::tabs::keys::KeyboardResponse;
use storage_usage::tui::tabs::overview_tab::file_name_of;
use storage_usage::tui::tabs::overview_tab::OverviewTab;
use storage_usage::tui::tabs::search_tab::SearchTab;
use storage_usage::tui::tabs::visualizer_tab::VisualizerTab;
use storage_usage::resolver::DiscoveredFile;

fn file(path: &str) -> DiscoveredFile {
    DiscoveredFile {
        filename: path.rsplit('\\').next().unwrap().to_string(),
        parent_ref: Some(5),
        full_path: path.to_string(),
        created: None,
        modified: None,
        accessed: None,
    }
}

fn progress_with_errors(path: &str, errors: &[&str]) -> MftFileProgress {
    let mut p = MftFileProgress::new(path.to_string());
    for e in errors {
        p.errors.push(e.to_string());
    }
    p
}

#[test]
fn fresh_progress_is_empty() {
    let p = MftFileProgress::new("C.mft".to_string());
    assert_eq!(p.path, "C.mft");
    assert_eq!(p.total_size, None);
    assert_eq!(p.entry_size, None);
    assert_eq!(p.processed_size, 0);
    assert!(!p.is_complete());
    assert_eq!(p.processed_entries(), None);
    assert_eq!(p.total_entries(), None);
    assert_eq!(p.healthy_entries(), 0);
}

#[test]
fn messages_update_the_file_they_name() {
    let mut files = vec![
        MftFileProgress::new("C.mft".to_string()),
        MftFileProgress::new("D.mft".to_string()),
    ];
    let send = |files: &mut Vec<MftFileProgress>, m: MainboundMessage| m.handle(files, 42);
    assert_eq!(send(&mut files, MainboundMessage::FileSizeDiscovered { file_index: 1, file_size: 4096 }), Ok(()));
    assert_eq!(send(&mut files, MainboundMessage::EntrySizeDiscovered { file_index: 1, entry_size: 1024 }), Ok(()));
    assert_eq!(send(&mut files, MainboundMessage::Progress { file_index: 1, processed_size: 1024 }), Ok(()));
    assert_eq!(send(&mut files, MainboundMessage::Progress { file_index: 1, processed_size: 1024 }), Ok(()));
    assert_eq!(send(&mut files, MainboundMessage::EntryStatus { file_index: 1, is_healthy: true }), Ok(()));
    assert_eq!(send(&mut files, MainboundMessage::EntryStatus { file_index: 1, is_healthy: false }), Ok(()));
    assert_eq!(send(&mut files, MainboundMessage::Error { file_index: 1, error: "bad".to_string() }), Ok(()));
    assert_eq!(
        send(
            &mut files,
            MainboundMessage::DiscoveredFiles {
                file_index: 1,
                files: vec![file("D:\\a"), file("D:\\b\\c")]
            }
        ),
        Ok(())
    );
    assert_eq!(files[1].total_size, Some(4096));
    assert_eq!(files[1].entry_size, Some(1024));
    assert_eq!(files[1].processed_size, 2048);
    assert_eq!(files[1].processed_entries(), Some(2));
    assert_eq!(files[1].total_entries(), Some(4));
    assert_eq!(files[1].entry_health_statuses, vec![true, false]);
    assert_eq!(files[1].healthy_entries(), 1);
    assert_eq!(files[1].errors, vec!["bad"]);
    assert_eq!(files[1].files_within, vec!["D:\\a", "D:\\b\\c"]);
    assert!(!files[1].is_complete());
    assert_eq!(send(&mut files, MainboundMessage::Complete { file_index: 1 }), Ok(()));
    assert_eq!(files[1].processing_end, Some(42));
    // the other file is untouched
    assert_eq!(files[0].processed_size, 0);
    assert_eq!(files[0].total_size, None);
    assert!(files[0].entry_health_statuses.is_empty());
}

#[test]
fn message_for_an_unknown_file_changes_nothing() {
    let mut files = vec![MftFileProgress::new("C.mft".to_string())];
    let r = MainboundMessage::Complete { file_index: 1 }.handle(&mut files, 1);
    assert_eq!(r, Err(HandleError::UnknownFile));
    assert_eq!(files[0].processing_end, None);
    let mut none: Vec<MftFileProgress> = Vec::new();
    let r = MainboundMessage::Progress { file_index: 0, processed_size: 1 }.handle(&mut none, 1);
    assert_eq!(r, Err(HandleError::UnknownFile));
}

#[test]
fn progress_that_overflows_is_refused() {
    let mut files = vec![MftFileProgress::new("C.mft".to_string())];
    files[0].processed_size = u64::MAX - 1;
    let r = MainboundMessage::Progress { file_index: 0, processed_size: 2 }.handle(&mut files, 1);
    assert_eq!(r, Err(HandleError::Overflow));
    assert_eq!(files[0].processed_size, u64::MAX - 1);
    let r = MainboundMessage::Progress { file_index: 0, processed_size: 1 }.handle(&mut files, 1);
    assert_eq!(r, Ok(()));
    assert_eq!(files[0].processed_size, u64::MAX);
}

#[test]
fn healthy_bits_are_counted() {
    assert_eq!(count_true(&vec![]), 0);
    assert_eq!(count_true(&vec![true, false, true, true]), 3);
}

#[test]
fn errors_tab_opens_grouped_at_the_top() {
    let tab = ErrorsTab::new();
    assert_eq!(tab, ErrorsTab { scroll_offset: 0, selected_index: 0, show_grouped: true });
    assert_eq!(ErrorsTab::default(), tab);
}

#[test]
fn errors_tab_keys_move_the_selection() {
    let mut tab = ErrorsTab::new();
    assert_eq!(tab.on_key(KeyCode::Char('g')), KeyboardResponse::Consume);
    assert!(!tab.show_grouped);
    assert_eq!(tab.on_key(KeyCode::Char('x')), KeyboardResponse::Pass);
    assert_eq!(tab.on_key(KeyCode::Left), KeyboardResponse::Pass);
    assert_eq!(tab.on_key(KeyCode::Up), KeyboardResponse::Consume);
    assert_eq!(tab.selected_index, 0);
    tab.on_key(KeyCode::Down);
    tab.on_key(KeyCode::Down);
    assert_eq!(tab.selected_index, 2);
    tab.on_key(KeyCode::PageDown);
    assert_eq!(tab.selected_index, 12);
    tab.scroll_offset = 12;
    tab.on_key(KeyCode::Up);
    assert_eq!((tab.selected_index, tab.scroll_offset), (11, 11));
    tab.on_key(KeyCode::PageUp);
    assert_eq!((tab.selected_index, tab.scroll_offset), (1, 1));
    tab.on_key(KeyCode::PageUp);
    assert_eq!((tab.selected_index, tab.scroll_offset), (0, 0));
    tab.on_key(KeyCode::End);
    assert_eq!(tab.selected_index, usize::MAX);
    tab.on_key(KeyCode::Down);
    assert_eq!(tab.selected_index, usize::MAX);
    tab.on_key(KeyCode::Home);
    assert_eq!((tab.selected_index, tab.scroll_offset), (0, 0));
}

#[test]
fn errors_tab_fits_its_window_to_the_list() {
    let mut tab = ErrorsTab::new();
    tab.on_key(KeyCode::End);
    tab.fit(30, 10);
    assert_eq!((tab.selected_index, tab.scroll_offset), (29, 20));
    tab.scroll_offset = 100;
    tab.selected_index = 3;
    tab.fit(30, 10);
    assert_eq!((tab.selected_index, tab.scroll_offset), (3, 20));
    let before = tab;
    tab.fit(0, 10);
    assert_eq!(tab, before);
    tab.fit(30, 0);
    assert_eq!(tab, before);
    let mut tab = ErrorsTab::new();
    tab.selected_index = 5;
    tab.fit(3, 10);
    assert_eq!((tab.selected_index, tab.scroll_offset), (2, 0));
}

#[test]
fn errors_are_grouped_by_message_most_frequent_first() {
    let files = vec![
        progress_with_errors("C.mft", &["torn", "bad signature", "torn"]),
        progress_with_errors("D.mft", &["bad signature", "torn", "odd"]),
        progress_with_errors("E.mft", &[]),
    ];
    let groups = group_errors(&files);
    assert_eq!(groups.len(), 3);
    assert_eq!(groups[0].message, "torn");
    assert_eq!(groups[0].count, 3);
    assert_eq!(groups[0].files, vec![0, 1]);
    assert_eq!(groups[1].message, "bad signature");
    assert_eq!(groups[1].count, 2);
    assert_eq!(groups[1].files, vec![0, 1]);
    assert_eq!(groups[2].message, "odd");
    assert_eq!(groups[2].count, 1);
    assert_eq!(groups[2].files, vec![1]);
    assert_eq!(groups.iter().map(|g| g.count).sum::<usize>(), 6);
    assert!(group_errors(&Vec::new()).is_empty());
}

#[test]
fn groups_with_the_same_count_keep_their_order() {
    let files = vec![progress_with_errors("C.mft", &["a", "b", "c", "b", "c", "d"])];
    let groups = group_errors(&files);
    let order: Vec<&str> = groups.iter().map(|g| g.message.as_str()).collect();
    assert_eq!(order, vec!["b", "c", "a", "d"]);
}

#[test]
fn visualizer_selects_a_file() {
    let mut tab = VisualizerTab::new();
    assert_eq!(tab.selected_file, 0);
    assert_eq!(tab.on_key(KeyCode::Up), KeyboardResponse::Consume);
    assert_eq!(tab.selected_file, 0);
    assert_eq!(tab.on_key(KeyCode::Down), KeyboardResponse::Consume);
    tab.on_key(KeyCode::Down);
    tab.on_key(KeyCode::Down);
    assert_eq!(tab.selected_file, 3);
    assert_eq!(tab.on_key(KeyCode::Home), KeyboardResponse::Pass);
    assert!(tab.clamp(2));
    assert_eq!(tab.selected_file, 1);
    assert!(!tab.clamp(0));
    assert_eq!(tab.selected_file, 1);
    tab.selected_file = usize::MAX;
    tab.on_key(KeyCode::Down);
    assert_eq!(tab.selected_file, usize::MAX);
    assert_eq!(VisualizerTab::default().selected_file, 0);
}

#[test]
fn overview_formats_numbers_with_commas() {
    assert_eq!(OverviewTab::format_number(0), "0");
    assert_eq!(OverviewTab::format_number(999), "999");
    assert_eq!(OverviewTab::format_number(1000), "1,000");
    assert_eq!(OverviewTab::format_number(12345), "12,345");
    assert_eq!(OverviewTab::format_number(123456), "123,456");
    assert_eq!(OverviewTab::format_number(1234567), "1,234,567");
    assert_eq!(OverviewTab::format_number(u64::MAX), "18,446,744,073,709,551,615");
    let mut tab = OverviewTab::new();
    assert_eq!(tab.on_key(KeyCode::Down), KeyboardResponse::Pass);
}

#[test]
fn overview_rows_show_sizes_rates_and_estimates() {
    let mut p = MftFileProgress::new("D:\\cache\\C.mft".to_string());
    let row = OverviewTab::row(&p, 0);
    assert_eq!(row.status, "...");
    assert_eq!(row.file_name, "C.mft");
    assert_eq!(row.progress.base, "0 B/? bytes");
    assert_eq!(row.progress.rate, None);
    assert_eq!(row.entries.base, "?/?");
    assert_eq!(row.time, "0s");
    assert_eq!(row.eta, "-");
    p.total_size = Some(2_000_000);
    p.entry_size = Some(1000);
    p.processed_size = 500_000;
    let row = OverviewTab::row(&p, 0);
    assert_eq!(row.progress.base, "500 kB/2 MB");
    assert_eq!(row.entries.base, "500/2,000");
    assert_eq!(row.entries.rate, None);
    assert_eq!(row.eta, "Processing...");
    let row = OverviewTab::row(&p, 2000);
    assert_eq!(row.progress.rate.as_deref(), Some(" (+250 kB/s)"));
    assert_eq!(row.progress.remaining.as_deref(), Some(" (1.50 MB)"));
    assert_eq!(row.entries.rate.as_deref(), Some(" (+250/s)"));
    assert_eq!(row.entries.remaining.as_deref(), Some(" (1,500)"));
    assert_eq!(row.time, "2s");
    assert_eq!(row.eta, "6s");
    p.errors.push("bad".to_string());
    p.errors.push("worse".to_string());
    assert_eq!(OverviewTab::row(&p, 2000).eta, "6s (Errors: 2)");
    p.processed_size = 0;
    assert_eq!(OverviewTab::row(&p, 2000).eta, "Calculating rate... (Errors: 2)");
    p.processed_size = 2_000_000;
    p.processing_end = Some(61_500);
    let row = OverviewTab::row(&p, 70_000);
    assert_eq!(row.status, "OK");
    assert_eq!(row.progress.base, "2 MB");
    assert_eq!(row.progress.rate, None);
    assert_eq!(row.entries.base, "2,000");
    assert_eq!(row.time, "1m 1s 500ms");
    assert_eq!(row.eta, "- (Errors: 2)");
}

#[test]
fn file_name_is_the_last_component() {
    assert_eq!(file_name_of("D:\\cache\\C.mft"), "C.mft");
    assert_eq!(file_name_of("cache/C.mft"), "C.mft");
    assert_eq!(file_name_of("C.mft"), "C.mft");
    assert_eq!(file_name_of("D:\\cache\\"), "Unknown file \"D:\\cache\\\"");
    assert_eq!(file_name_of(""), "Unknown file \"\"");
}

#[test]
fn search_tab_types_a_query() {
    let mut tab = SearchTab::new();
    assert_eq!(tab.query(), "");
    assert_eq!(tab.on_key(KeyCode::Char('a')), KeyboardResponse::Consume);
    assert_eq!(tab.on_key(KeyCode::Char('b')), KeyboardResponse::Consume);
    assert_eq!(tab.query(), "ab");
    assert_eq!(tab.on_key(KeyCode::Backspace), KeyboardResponse::Consume);
    assert_eq!(tab.query(), "a");
    tab.on_key(KeyCode::Backspace);
    tab.on_key(KeyCode::Backspace);
    assert_eq!(tab.query(), "");
    assert_eq!(tab.on_key(KeyCode::Left), KeyboardResponse::Pass);
    assert_eq!(tab.on_key(KeyCode::Esc), KeyboardResponse::Pass);
}

#[test]
fn search_tab_without_matches_stays_at_the_top() {
    let mut tab = SearchTab::new();
    for key in [KeyCode::Down, KeyCode::PageDown, KeyCode::End, KeyCode::Up, KeyCode::PageUp] {
        assert_eq!(tab.on_key(key), KeyboardResponse::Consume);
        assert_eq!((tab.selected_index(), tab.scroll_offset()), (0, 0));
    }
    assert_eq!(tab.fit(), (0, 0));
    assert!(tab.get_selected_file().is_none());
    assert!(tab.results(0, 5).is_empty());
}

#[test]
fn search_tab_finds_what_was_discovered() {
    let mut files = vec![MftFileProgress::new("C.mft".to_string())];
    files[0].files_within = vec![
        "C:\\Users\\me\\report.txt".to_string(),
        "C:\\Windows\\notepad.exe".to_string(),
        "C:\\Users\\me\\notes.md".to_string(),
    ];
    let mut tab = SearchTab::new();
    for c in "notepad".chars() {
        tab.on_key(KeyCode::Char(c));
    }
    tab.update_file_entries(&files);
    let mut matched = 0;
    for _ in 0..200 {
        tab.tick();
        matched = tab.get_stats().1;
        if matched == 1 && tab.get_stats().0 == 3 {
            break;
        }
    }
    assert_eq!(matched, 1);
    assert_eq!(tab.fit(), (0, 1));
    let results = tab.results(0, 10);
    assert_eq!(results.len(), 1);
    assert_eq!(results[0].path, "C:\\Windows\\notepad.exe");
    assert_eq!(results[0].created, None);
    assert_eq!(tab.get_selected_file().map(|e| e.path), Some("C:\\Windows\\notepad.exe".to_string()));
    // nothing new: nothing is indexed twice
    tab.update_file_entries(&files);
    for _ in 0..20 {
        tab.tick();
    }
    assert_eq!(tab.get_stats(), (3, 1));
    tab.clear_files();
    assert_eq!(tab.query(), "notepad");
    assert_eq!(tab.get_stats().1, 0);
}

#[test]
fn search_tab_moves_through_its_matches() {
    let mut files = vec![MftFileProgress::new("C.mft".to_string())];
    files[0].files_within = (0..50).map(|i| format!("C:\\dir\\file{}.txt", i)).collect();
    let mut tab = SearchTab::new();
    tab.set_visible_height(10);
    tab.update_file_entries(&files);
    for _ in 0..200 {
        tab.tick();
        if tab.get_stats() == (50, 50) {
            break;
        }
    }
    assert_eq!(tab.get_stats(), (50, 50));
    assert_eq!(tab.fit(), (0, 10));
    tab.on_key(KeyCode::Down);
    assert_eq!((tab.selected_index(), tab.scroll_offset()), (1, 0));
    tab.on_key(KeyCode::PageDown);
    assert_eq!((tab.selected_index(), tab.scroll_offset()), (11, 2));
    tab.on_key(KeyCode::End);
    assert_eq!((tab.selected_index(), tab.scroll_offset()), (49, 40));
    tab.on_key(KeyCode::Down);
    assert_eq!(tab.selected_index(), 49);
    tab.on_key(KeyCode::PageDown);
    assert_eq!(tab.selected_index(), 49);
    assert_eq!(tab.fit(), (40, 50));
    tab.on_key(KeyCode::PageUp);
    assert_eq!((tab.selected_index(), tab.scroll_offset()), (39, 30));
    tab.on_key(KeyCode::Home);
    assert_eq!((tab.selected_index(), tab.scroll_offset()), (0, 0));
    tab.on_key(KeyCode::Char('z'));
    assert_eq!((tab.selected_index(), tab.scroll_offset()), (0, 0));
}

#[test]
fn row_of_tabs_selects_its_neighbours() {
    let mut tabs = AppTabs::new();
    assert_eq!(tabs.len(), 4);
    assert_eq!(tabs.selected(), 0);
    assert_eq!(tabs.title(0), "Overview");
    assert_eq!(tabs.title(1), "Visualizer");
    assert_eq!(tabs.title(2), "Search");
    assert_eq!(tabs.title(3), "Errors");
    assert_eq!(tabs.on_key(KeyCode::Left), KeyboardResponse::Consume);
    assert_eq!(tabs.selected(), 0);
    assert_eq!(tabs.on_key(KeyCode::Down), KeyboardResponse::Pass);
    for expected in [1, 2, 3, 3] {
        assert_eq!(tabs.on_key(KeyCode::Right), KeyboardResponse::Consume);
        assert_eq!(tabs.selected(), expected);
    }
    // the errors tab takes the key
    assert_eq!(tabs.on_key(KeyCode::Char('g')), KeyboardResponse::Consume);
    match tabs.tab(3) {
        AppTab::Errors(t) => assert!(!t.show_grouped),
        _ => panic!("not the errors tab"),
    }
    tabs.on_key(KeyCode::Left);
    assert_eq!(tabs.on_key(KeyCode::Char('g')), KeyboardResponse::Consume);
    match tabs.tab(2) {
        AppTab::Search(t) => assert_eq!(t.query(), "g"),
        _ => panic!("not the search tab"),
    }
    assert_eq!(AppTabs::default().selected(), 0);
}

#[test]
fn front_end_quits_on_q_and_escape() {
    let mut app = MftShowApp::new(vec!["C.mft".to_string(), "D.mft".to_string()]);
    assert_eq!(app.mft_files().len(), 2);
    assert_eq!(app.mft_files()[1].path, "D.mft");
    assert!(!app.is_quitting());
    assert!(!app.should_exit(false));
    assert_eq!(app.poll_timeout_ms(true, false), 1);
    assert_eq!(app.poll_timeout_ms(false, true), 10);
    assert_eq!(app.poll_timeout_ms(false, false), 10);
    assert_eq!(app.on_key(KeyCode::Right), AppReaction::Tabs(KeyboardResponse::Consume));
    assert_eq!(app.selected(), 1);
    assert_eq!(app.on_key(KeyCode::Char('x')), AppReaction::Tabs(KeyboardResponse::Pass));
    assert_eq!(app.on_key(KeyCode::Char('q')), AppReaction::BeginQuit);
    assert!(app.is_quitting());
    assert_eq!(app.on_key(KeyCode::Esc), AppReaction::StillQuitting);
    assert_eq!(app.on_key(KeyCode::Right), AppReaction::Ignored);
    assert_eq!(app.selected(), 1);
    assert_eq!(app.poll_timeout_ms(false, true), 1);
    assert!(!app.should_exit(true));
    assert!(app.should_exit(false));
}

#[test]
fn front_end_takes_in_messages_and_prepares_frames() {
    let mut app = MftShowApp::new(vec!["C.mft".to_string()]);
    assert_eq!(app.tab_count(), 4);
    assert_eq!(
        app.handle_message(MainboundMessage::Error { file_index: 0, error: "torn".to_string() }, 5),
        Ok(())
    );
    assert_eq!(
        app.handle_message(MainboundMessage::Complete { file_index: 9 }, 5),
        Err(HandleError::UnknownFile)
    );
    assert!(matches!(app.prepare_frame(20), Prepared::Overview));
    app.on_key(KeyCode::Right);
    assert!(matches!(app.prepare_frame(20), Prepared::Visualizer { any_file: true }));
    app.on_key(KeyCode::Right);
    assert!(matches!(app.prepare_frame(20), Prepared::Search { start: 0, end: 0 }));
    app.on_key(KeyCode::Right);
    match app.prepare_frame(20) {
        Prepared::Errors { groups, total } => {
            assert_eq!(total, 1);
            assert_eq!(groups.len(), 1);
            assert_eq!(groups[0].message, "torn");
        }
        other => panic!("not the errors tab: {:?}", other),
    }
}

#[test]
fn glob_patterns_are_told_from_paths() {
    assert!(is_glob_pattern("*.mft"));
    assert!(is_glob_pattern("dump-?.mft"));
    assert!(is_glob_pattern("dump-[CD].mft"));
    assert!(!is_glob_pattern("C:\\cache\\C.mft"));
    assert!(!is_glob_pattern(""));
}

#[test]
fn glob_pattern_stands_for_the_files_among_its_matches() {
    let matches = vec![
        Candidate { path: "a.mft".to_string(), kind: PathKind::File },
        Candidate { path: "b.mft".to_string(), kind: PathKind::Other },
        Candidate { path: "c.mft".to_string(), kind: PathKind::File },
    ];
    assert_eq!(
        expand_glob_pattern("*.mft", PathKind::Missing, &matches),
        Ok(vec!["a.mft".to_string(), "c.mft".to_string()])
    );
    assert_eq!(expand_glob_pattern("*.mft", PathKind::Missing, &Vec::new()), Ok(Vec::new()));
}

#[test]
fn plain_path_stands_for_itself() {
    let none = Vec::new();
    assert_eq!(expand_glob_pattern("C.mft", PathKind::File, &none), Ok(vec!["C.mft".to_string()]));
    assert_eq!(expand_glob_pattern("C.mft", PathKind::Missing, &none), Err(ShowError::FileNotFound));
    assert_eq!(expand_glob_pattern("cache", PathKind::Other, &none), Err(ShowError::NotAFile));
}

#[test]
fn show_needs_at_least_one_dump() {
    let app = show_mft_file("C.mft".to_string(), false, false, None);
    assert_eq!(app.mft_files().len(), 1);
    assert_eq!(app.mft_files()[0].path, "C.mft");
    let matches = vec![
        Candidate { path: "a.mft".to_string(), kind: PathKind::File },
        Candidate { path: "b.mft".to_string(), kind: PathKind::File },
    ];
    let app = show_mft_files("*.mft", PathKind::Missing, &matches, false, false, None, None)
        .ok()
        .expect("an app");
    assert_eq!(app.mft_files().len(), 2);
    assert_eq!(app.mft_files()[1].path, "b.mft");
    assert!(matches!(
        show_mft_files("*.mft", PathKind::Missing, &Vec::new(), false, false, None, None),
        Err(ShowError::NoFiles)
    ));
    assert!(matches!(
        show_mft_files("x.mft", PathKind::Missing, &Vec::new(), false, false, None, None),
        Err(ShowError::FileNotFound)
    ));
}

#[test]
fn expanded_dumps_come_in_alphabetical_order() {
    let matches = vec![
        Candidate { path: "cache/D.mft".to_string(), kind: PathKind::File },
        Candidate { path: "cache/old".to_string(), kind: PathKind::Other },
        Candidate { path: "cache/C.mft".to_string(), kind: PathKind::File },
        Candidate { path: "cache/C.mft.bak".to_string(), kind: PathKind::File },
        Candidate { path: "cache/A.mft".to_string(), kind: PathKind::File },
        Candidate { path: "cache/C.mft".to_string(), kind: PathKind::File },
    ];
    assert_eq!(
        expand_glob_pattern("cache/*", PathKind::Missing, &matches),
        Ok(vec![
            "cache/A.mft".to_string(),
            "cache/C.mft".to_string(),
            "cache/C.mft".to_string(),
            "cache/C.mft.bak".to_string(),
            "cache/D.mft".to_string(),
        ])
    );
    let app = show_mft_files("cache/*", PathKind::Missing, &matches, false, false, None, None)
        .ok()
        .expect("an app");
    let paths: Vec<&str> = app.mft_files().iter().map(|f| f.path.as_str()).collect();
    assert_eq!(
        paths,
        vec!["cache/A.mft", "cache/C.mft", "cache/C.mft", "cache/C.mft.bak", "cache/D.mft"]
    );
}

#[test]
fn missing_pattern_stands_for_the_cached_dumps() {
    assert!(needs_cache_dir(&None));
    assert!(!needs_cache_dir(&Some("x".to_string())));
    assert_eq!(resolve_show_pattern(None, "C:\\cache"), "C:\\cache/*.mft");
    assert_eq!(resolve_show_pattern(None, "/var/cache"), "/var/cache/*.mft");
    assert_eq!(resolve_show_pattern(None, "C:\\cache\\"), "C:\\cache\\*.mft");
    assert_eq!(resolve_show_pattern(None, "cache/"), "cache/*.mft");
    assert_eq!(resolve_show_pattern(None, ""), "*.mft");
    assert_eq!(resolve_show_pattern(Some("dump-*.mft".to_string()), "C:\\cache"), "dump-*.mft");
    assert_eq!(resolve_show_pattern(Some(String::new()), "C:\\cache"), "");
}
