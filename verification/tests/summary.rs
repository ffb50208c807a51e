use storage_usage::summary::analysis::analyze_mft_in_background;
use storage_usage::summary::analysis::attribute_type_name;
use storage_usage::summary::analysis::estimate_records;
use storage_usage::summary::analysis::is_sample_name;
use storage_usage::summary::analysis::summarize_mft_file;
use storage_usage::summary::app::errors_window;
use storage_usage::summary::app::ApplicationState;
use storage_usage::summary::app::ErrorWindow;
use storage_usage::summary::app::MftSummaryApp;
use storage_usage::summary::progress::AnalysisProgress;
use storage_usage::summary::progress::AttributeCount;
use storage_usage::summary::progress::ErrorKind;
use storage_usage::summary::progress::ProgressMessage;
use storage_usage::summary::progress::SummaryError;
use storage_usage::summary::selected_tab::SelectedTab;
use storage_usage::tui::health::entries_per_pixel;
use storage_usage::tui::health::get_quality_color;
use storage_usage::tui::health::get_quality_score;
use storage_usage::tui::health::health_grid;
use storage_usage::tui::health::is_region_start;
use storage_usage::tui::health::pixel_quality;
use storage_usage::tui::health::Rgb;
use storage_usage::tui::tabs::keys::KeyCode;

fn entry(is_valid: bool, name: Option<&str>, attribute_type: Option<u32>) -> ProgressMessage {
    ProgressMessage::EntryProcessed {
        is_valid,
        filename_found: name.map(|n| n.to_string()),
        attribute_type,
    }
}

fn error(kind: &str, message: &str) -> SummaryError {
    AnalysisProgress::create_styled_error(kind, message.to_string())
}

#[test]
fn tabs_of_the_summary() {
    let progress = SelectedTab::Progress;
    let text = SelectedTab::TextSummary;
    let visualization = SelectedTab::Visualization;
    let errors = SelectedTab::Errors;
    assert_eq!(SelectedTab::available_tabs(false), vec![progress, text, visualization]);
    assert_eq!(SelectedTab::available_tabs(true), vec![progress, text, visualization, errors]);
    assert_eq!(progress.next(false), text);
    assert_eq!(text.next(false), visualization);
    assert_eq!(visualization.next(false), progress);
    assert_eq!(visualization.next(true), errors);
    assert_eq!(errors.next(true), progress);
    assert_eq!(errors.next(false), progress);
    assert_eq!(progress.previous(true), progress);
    assert_eq!(text.previous(true), progress);
    assert_eq!(errors.previous(true), visualization);
    assert_eq!(errors.previous(false), progress);
    assert_eq!(text.name(), "Text Summary");
    assert_eq!(errors.name(), "Errors");
}

#[test]
fn errors_are_made_by_kind() {
    assert_eq!(error("attribute", "x").kind, ErrorKind::Attribute);
    assert_eq!(error("ENTRY", "x").kind, ErrorKind::Entry);
    assert_eq!(error("Critical", "x").kind, ErrorKind::Critical);
    assert_eq!(error("entries", "x").kind, ErrorKind::Other);
    assert_eq!(error("", "x").kind, ErrorKind::Other);
    assert_eq!(error("attribute", "bad run list").tagged_text(), "[ATTR] bad run list");
    assert_eq!(error("entry", "torn").tagged_text(), "[ENTRY] torn");
    assert_eq!(error("critical", "no file").tagged_text(), "[CRITICAL] no file");
    assert_eq!(error("other", "hm").tagged_text(), "[ERROR] hm");
}

#[test]
fn statistics_count_records_names_and_types() {
    let mut p = AnalysisProgress::new(1000);
    assert!(!p.has_errors());
    assert_eq!(p.progress_percentage(), 0);
    p.update_with_message(ProgressMessage::EstimatedTotal(8), 1000);
    p.update_with_message(entry(true, Some("report.txt"), Some(0x10)), 1001);
    p.update_with_message(entry(false, None, None), 1002);
    p.update_with_message(entry(true, None, Some(0x30)), 1003);
    p.update_with_message(entry(true, Some("notes.md"), Some(0x10)), 1004);
    assert_eq!(p.total_entries, 4);
    assert_eq!(p.valid_entries, 3);
    assert_eq!(p.error_entries, 1);
    assert_eq!(p.filename_entries, 2);
    assert_eq!(p.sample_paths, vec!["report.txt", "notes.md"]);
    assert_eq!(p.entry_statuses, vec![true, false, true, true]);
    assert_eq!(
        p.attribute_counts,
        vec![
            AttributeCount { type_code: 0x10, count: 2 },
            AttributeCount { type_code: 0x30, count: 1 }
        ]
    );
    assert_eq!(p.progress_percentage(), 50);
    assert!(!p.is_complete);
    p.update_with_message(ProgressMessage::Complete, 5000);
    assert!(p.is_complete);
    assert_eq!(p.completion_time, Some(5000));
    assert_eq!(p.eta_seconds, Some(0));
}

#[test]
fn percentage_stops_at_a_hundred() {
    let mut p = AnalysisProgress::new(0);
    p.update_with_message(ProgressMessage::EstimatedTotal(2), 0);
    for _ in 0..5 {
        p.update_with_message(entry(true, None, None), 1);
    }
    assert_eq!(p.progress_percentage(), 100);
    let mut q = AnalysisProgress::new(0);
    q.update_with_message(ProgressMessage::EstimatedTotal(0), 0);
    q.update_with_message(entry(true, None, None), 1);
    assert_eq!(q.progress_percentage(), 0);
    let mut r = AnalysisProgress::new(0);
    r.update_with_message(ProgressMessage::EstimatedTotal(3), 0);
    r.update_with_message(entry(true, None, None), 1);
    assert_eq!(r.progress_percentage(), 33);
}

#[test]
fn only_twenty_samples_are_kept() {
    let mut p = AnalysisProgress::new(0);
    for i in 0..25 {
        p.update_with_message(entry(true, Some(&format!("file{}.txt", i)), None), 1);
    }
    assert_eq!(p.filename_entries, 25);
    assert_eq!(p.sample_paths.len(), 20);
    assert_eq!(p.sample_paths[19], "file19.txt");
}

#[test]
fn rate_is_worked_out_every_hundred_records() {
    let mut p = AnalysisProgress::new(1000);
    p.update_with_message(ProgressMessage::EstimatedTotal(1100), 1000);
    assert_eq!(p.entries_per_second, 0);
    assert_eq!(p.eta_seconds, None);
    for _ in 0..99 {
        p.update_with_message(entry(true, None, None), 1500);
    }
    assert_eq!(p.entries_per_second, 0);
    p.update_with_message(entry(true, None, None), 3000);
    // 100 records in two seconds; a thousand are left
    assert_eq!(p.entries_per_second, 50);
    assert_eq!(p.eta_seconds, Some(20));
    assert_eq!(p.last_update, 3000);
    p.recalculate_rate_and_eta(1000);
    assert_eq!(p.entries_per_second, 50);
    assert_eq!(p.last_update, 1000);
}

#[test]
fn errors_are_counted_by_kind() {
    let mut p = AnalysisProgress::new(0);
    p.update_with_message(ProgressMessage::ParseError(error("attribute", "a")), 1);
    p.update_with_message(ProgressMessage::ParseError(error("entry", "b")), 1);
    p.update_with_message(ProgressMessage::ParseError(error("entry", "c")), 1);
    p.update_with_message(ProgressMessage::ParseError(error("something", "d")), 1);
    assert!(p.has_errors());
    assert!(!p.is_complete);
    assert_eq!(p.errors.len(), 4);
    assert_eq!(p.error_summary(), (0, 2, 1));
    p.update_with_message(ProgressMessage::Error(error("critical", "gone")), 9);
    assert_eq!(p.error_summary(), (1, 2, 1));
    assert!(p.is_complete);
    assert_eq!(p.completion_time, Some(9));
}

#[test]
fn summary_keys() {
    let mut app = MftSummaryApp::new("C.mft".to_string(), 0);
    assert!(app.is_running());
    assert_eq!(app.controls.selected_tab, SelectedTab::Progress);
    app.on_key(KeyCode::Down);
    assert_eq!(app.controls.text_scroll_position, 0);
    app.on_key(KeyCode::Char('l'));
    assert_eq!(app.controls.selected_tab, SelectedTab::TextSummary);
    app.on_key(KeyCode::Down);
    app.on_key(KeyCode::Char('j'));
    assert_eq!(app.controls.text_scroll_position, 2);
    app.on_key(KeyCode::Char('k'));
    assert_eq!(app.controls.text_scroll_position, 1);
    app.on_key(KeyCode::Up);
    app.on_key(KeyCode::Up);
    assert_eq!(app.controls.text_scroll_position, 0);
    app.set_text_area_height(30);
    app.on_key(KeyCode::PageDown);
    assert_eq!(app.controls.text_scroll_position, 15);
    app.on_key(KeyCode::End);
    assert_eq!(app.controls.text_scroll_position, 1000);
    app.on_key(KeyCode::PageUp);
    assert_eq!(app.controls.text_scroll_position, 985);
    app.on_key(KeyCode::Home);
    assert_eq!(app.controls.text_scroll_position, 0);
    app.on_key(KeyCode::Down);
    app.on_key(KeyCode::Right);
    assert_eq!(app.controls.selected_tab, SelectedTab::Visualization);
    assert_eq!(app.controls.text_scroll_position, 0);
    app.on_key(KeyCode::Char('h'));
    assert!(app.controls.show_legend);
    assert_eq!(app.controls.selected_tab, SelectedTab::Visualization);
    app.on_key(KeyCode::Right);
    assert_eq!(app.controls.selected_tab, SelectedTab::Progress);
    app.on_key(KeyCode::Char('h'));
    assert_eq!(app.controls.selected_tab, SelectedTab::Progress);
    app.on_key(KeyCode::Char('p'));
    assert!(app.controls.is_paused);
    app.on_key(KeyCode::Char('z'));
    app.on_key(KeyCode::Esc);
    assert_eq!(app.controls.application_state, ApplicationState::Quitting);
    assert!(!app.is_running());
}

#[test]
fn errors_tab_of_the_summary_scrolls_faster_when_crowded() {
    let mut app = MftSummaryApp::new("C.mft".to_string(), 0);
    for i in 0..101 {
        let kept = app.update_progress(
            ProgressMessage::ParseError(error("entry", &format!("e{}", i))),
            1,
        );
        assert!(kept.is_none());
    }
    app.on_key(KeyCode::Left);
    assert_eq!(app.controls.selected_tab, SelectedTab::Progress);
    app.on_key(KeyCode::Right);
    app.on_key(KeyCode::Right);
    app.on_key(KeyCode::Right);
    assert_eq!(app.controls.selected_tab, SelectedTab::Errors);
    app.on_key(KeyCode::Down);
    assert_eq!(app.controls.text_scroll_position, 2);
    app.set_text_area_height(4);
    app.on_key(KeyCode::PageDown);
    assert_eq!(app.controls.text_scroll_position, 12);
    app.set_text_area_height(40);
    app.on_key(KeyCode::PageDown);
    assert_eq!(app.controls.text_scroll_position, 52);
    app.on_key(KeyCode::End);
    assert_eq!(app.controls.text_scroll_position, 202 - 20);
}

#[test]
fn paused_summary_keeps_its_messages() {
    let mut app = MftSummaryApp::new("C.mft".to_string(), 0);
    app.on_key(KeyCode::Char('p'));
    let kept = app.update_progress(entry(true, None, None), 1);
    assert!(matches!(kept, Some(ProgressMessage::EntryProcessed { is_valid: true, .. })));
    assert_eq!(app.analysis_progress.total_entries, 0);
    app.on_key(KeyCode::Char('p'));
    assert!(app.update_progress(kept.unwrap(), 2).is_none());
    assert_eq!(app.analysis_progress.total_entries, 1);
}

#[test]
fn window_of_errors() {
    // 22 lines: two of border, four of header, 16 for eight errors
    assert_eq!(
        errors_window(0, 22, 4, 100),
        ErrorWindow { visible_errors: 8, start: 0, end: 8 }
    );
    assert_eq!(
        errors_window(11, 22, 4, 7),
        ErrorWindow { visible_errors: 8, start: 5, end: 7 }
    );
    assert_eq!(
        errors_window(0, 1, 4, 7),
        ErrorWindow { visible_errors: 0, start: 0, end: 0 }
    );
    assert_eq!(
        errors_window(0, u16::MAX, 0, 5000),
        ErrorWindow { visible_errors: 32766, start: 0, end: 1000 }
    );
}

#[test]
fn names_worth_showing() {
    assert!(is_sample_name(&"report.txt".to_string()));
    assert!(is_sample_name(&"a.b".to_string()));
    assert!(is_sample_name(&"Documents".to_string()));
    assert!(!is_sample_name(&"Document".to_string()));
    assert!(!is_sample_name(&"ab".to_string()));
    assert!(!is_sample_name(&".".to_string()));
    assert!(!is_sample_name(&"..".to_string()));
    assert!(!is_sample_name(&"$MFT.x".to_string()));
    assert!(!is_sample_name(&"".to_string()));
    // the length is counted in bytes
    assert!(is_sample_name(&"ééééé".to_string()));
}

#[test]
fn names_of_attribute_types() {
    assert_eq!(attribute_type_name(0x10), "StandardInformation");
    assert_eq!(attribute_type_name(0x30), "FileName");
    assert_eq!(attribute_type_name(0x80), "DATA");
    assert_eq!(attribute_type_name(0x100), "LoggedUtilityStream");
    assert_eq!(attribute_type_name(0x11), "Unknown");
}

#[test]
fn analysis_of_a_blank_stream() {
    assert_eq!(estimate_records(10 * 1024 + 5), 10);
    let messages = analyze_mft_in_background(2048, &[0u8; 2048]);
    assert_eq!(messages.len(), 1 + 2 * 2 + 1);
    assert!(matches!(messages[0], ProgressMessage::EstimatedTotal(2)));
    match &messages[1] {
        ProgressMessage::ParseError(e) => {
            assert_eq!(e.kind, ErrorKind::Entry);
            assert_eq!(e.message, "Error processing entry: the signature is not FILE");
        }
        other => panic!("not an error: {:?}", other),
    }
    assert!(matches!(
        messages[2],
        ProgressMessage::EntryProcessed { is_valid: false, filename_found: None, attribute_type: None }
    ));
    assert!(matches!(messages[5], ProgressMessage::Complete));
    let empty = analyze_mft_in_background(0, &[]);
    assert_eq!(empty.len(), 2);
    let app = summarize_mft_file("C.mft".to_string(), false, false, None, 7);
    assert_eq!(app.mft_file, "C.mft");
    assert_eq!(app.analysis_progress.start_time, 7);
}

#[test]
fn quality_bands() {
    assert_eq!(get_quality_score(100, 100), 0);
    assert_eq!(get_quality_score(99, 100), 1);
    assert_eq!(get_quality_score(95, 100), 1);
    assert_eq!(get_quality_score(94, 100), 2);
    assert_eq!(get_quality_score(90, 100), 2);
    assert_eq!(get_quality_score(89, 100), 3);
    assert_eq!(get_quality_score(80, 100), 3);
    assert_eq!(get_quality_score(79, 100), 4);
    assert_eq!(get_quality_score(70, 100), 4);
    assert_eq!(get_quality_score(69, 100), 5);
    assert_eq!(get_quality_score(60, 100), 5);
    assert_eq!(get_quality_score(59, 100), 6);
    assert_eq!(get_quality_score(50, 100), 6);
    assert_eq!(get_quality_score(49, 100), 7);
    assert_eq!(get_quality_score(30, 100), 7);
    assert_eq!(get_quality_score(29, 100), 8);
    assert_eq!(get_quality_score(10, 100), 8);
    assert_eq!(get_quality_score(9, 100), 9);
    assert_eq!(get_quality_score(0, 100), 9);
    assert_eq!(get_quality_score(19, 20), 1);
    assert_eq!(get_quality_score(usize::MAX, usize::MAX), 0);
}

#[test]
fn quality_colors() {
    assert_eq!(get_quality_color(1, 1), Rgb { red: 0, green: 255, blue: 0 });
    assert_eq!(get_quality_color(96, 100), Rgb { red: 50, green: 255, blue: 50 });
    assert_eq!(get_quality_color(45, 100), Rgb { red: 255, green: 100, blue: 0 });
    assert_eq!(get_quality_color(35, 100), Rgb { red: 255, green: 50, blue: 0 });
    assert_eq!(get_quality_color(5, 100), Rgb { red: 200, green: 0, blue: 0 });
    assert_eq!(get_quality_color(0, 100), Rgb { red: 150, green: 0, blue: 0 });
}

#[test]
fn records_are_spread_over_the_pixels() {
    assert_eq!(entries_per_pixel(100, 10), 10);
    assert_eq!(entries_per_pixel(101, 10), 11);
    assert_eq!(entries_per_pixel(5, 10), 1);
    assert_eq!(entries_per_pixel(0, 10), 1);
    assert_eq!(entries_per_pixel(100, 0), 1);
    assert_eq!(entries_per_pixel(usize::MAX, 1), usize::MAX);
}

#[test]
fn pixels_score_their_records() {
    let statuses = vec![true, true, true, false, false, false, true];
    assert_eq!(pixel_quality(&statuses, 0, 3), 0);
    assert_eq!(pixel_quality(&statuses, 1, 3), 9);
    assert_eq!(pixel_quality(&statuses, 2, 3), 0);
    assert_eq!(pixel_quality(&statuses, 3, 3), 10);
    assert_eq!(pixel_quality(&statuses, 0, 7), 6);
    assert_eq!(pixel_quality(&statuses, usize::MAX, 3), 10);
    assert_eq!(health_grid(&statuses, 2, 2), vec![0, 6, 9, 0]);
    assert_eq!(health_grid(&statuses, 4, 2), vec![0, 0, 0, 9, 9, 9, 0, 10]);
    assert!(health_grid(&statuses, 0, 5).is_empty());
    assert!(health_grid(&statuses, usize::MAX, 2).is_empty());
    assert_eq!(health_grid(&Vec::new(), 2, 1), vec![10, 10]);
}

#[test]
fn regions_start_at_their_top_left_corner() {
    // 3 wide:  0 0 1
    //          0 1 1
    let scores = vec![0, 0, 1, 0, 1, 1];
    assert!(is_region_start(&scores, 0, 3, 0));
    assert!(!is_region_start(&scores, 1, 3, 0));
    assert!(is_region_start(&scores, 2, 3, 1));
    assert!(!is_region_start(&scores, 3, 3, 0));
    assert!(is_region_start(&scores, 4, 3, 1));
    assert!(!is_region_start(&scores, 5, 3, 1));
    assert!(!is_region_start(&scores, 0, 0, 0));
    // beyond the scores every neighbour is missing
    assert!(is_region_start(&scores, 100, 3, 0));
}
