use storage_usage::fuzzy::IndexEntry;
use storage_usage::numbers::hundredths;
use storage_usage::numbers::is_above;
use storage_usage::numbers::scale_share;
use storage_usage::numbers::tenths;
use storage_usage::numbers::to_millis;
use storage_usage::styled::Line;
use storage_usage::styled::Paint;
use storage_usage::summary::figures::largest_counts;
use storage_usage::summary::lines::scroll_bar;
use storage_usage::summary::lines::text_summary;
use storage_usage::summary::progress::AnalysisProgress;
use storage_usage::summary::progress::AttributeCount;
use storage_usage::summary::progress::ProgressMessage;
use storage_usage::summary::selected_tab::SelectedTab;
use storage_usage::summary::tab_text::errors_scroll;
use storage_usage::summary::tab_text::errors_tab;
use storage_usage::summary::tab_text::gauge;
use storage_usage::summary::tab_text::legend;
use storage_usage::summary::tab_text::progress_tab;
use storage_usage::summary::tab_text::tab_title;
use storage_usage::text::framed;
use storage_usage::text::numbered;
use storage_usage::tui::health::health_canvas;
use storage_usage::tui::health::pixel_paint;
use storage_usage::tui::health::Rgb;
use storage_usage::tui::health::EMPTY_PIXEL;
use storage_usage::tui::progress::MftFileProgress;
use storage_usage::tui::tabs::errors_tab::group_errors;
use storage_usage::tui::tabs::errors_tab::ErrorsTab;
use storage_usage::tui::tabs::rows::errors_heading;
use storage_usage::tui::tabs::rows::file_selector;
use storage_usage::tui::tabs::rows::group_lines;
use storage_usage::tui::tabs::rows::health_gauge;
use storage_usage::tui::tabs::rows::no_matches;
use storage_usage::tui::tabs::rows::paint_of_matches;
use storage_usage::tui::tabs::rows::raw_lines;
use storage_usage::tui::tabs::rows::search_prompt;
use storage_usage::tui::tabs::rows::search_rows;
use storage_usage::tui::tabs::rows::window_rows;

fn plain_text(line: &Line) -> String {
    line.spans.iter().map(|s| s.text.as_str()).collect()
}

fn texts_of(lines: &[Line]) -> Vec<String> {
    lines.iter().map(plain_text).collect()
}

fn record(is_valid: bool, name: Option<&str>, attribute_type: Option<u32>) -> ProgressMessage {
    ProgressMessage::EntryProcessed {
        is_valid,
        filename_found: name.map(|n| n.to_string()),
        attribute_type,
    }
}

fn analysis(valid: usize, invalid: usize) -> AnalysisProgress {
    let mut p = AnalysisProgress::new(0);
    for i in 0..valid {
        let name = format!("file{i}.txt");
        p.update_with_message(record(true, Some(&name), Some(if i % 3 == 0 { 0x30 } else { 0x10 })), 10);
    }
    for _ in 0..invalid {
        p.update_with_message(record(false, None, None), 10);
    }
    p
}

fn with_errors(n: usize) -> AnalysisProgress {
    let mut p = analysis(1, 0);
    for i in 0..n {
        let kind = ["critical", "entry", "attribute"][i % 3];
        let e = AnalysisProgress::create_styled_error(kind, format!("failure {i}"));
        p.update_with_message(ProgressMessage::ParseError(e), 10);
    }
    p
}

fn files_with(path: &str, errors: &[&str], health: &[bool]) -> MftFileProgress {
    let mut f = MftFileProgress::new(path.to_string());
    f.errors = errors.iter().map(|e| e.to_string()).collect();
    f.entry_health_statuses = health.to_vec();
    f
}

#[test]
fn shares_are_rounded_down() {
    assert_eq!(tenths(1, 3), "33.3%");
    assert_eq!(tenths(2, 3), "66.6%");
    assert_eq!(tenths(3, 3), "100.0%");
    assert_eq!(tenths(0, 7), "0.0%");
    assert_eq!(tenths(5, 0), "0.0%");
    assert_eq!(tenths(3, 2), "150.0%");
    assert_eq!(hundredths(1, 3), "33.33%");
    assert_eq!(hundredths(1, 20), "5.00%");
    assert_eq!(hundredths(1, 16), "6.25%");
    assert_eq!(hundredths(7, 7), "100.00%");
    assert_eq!(hundredths(1, 1000), "0.10%");
    assert_eq!(hundredths(1, 10000), "0.01%");
    assert_eq!(hundredths(0, 0), "0.00%");
    assert_eq!(scale_share(1, 3, 100), 33);
    assert_eq!(scale_share(u64::MAX, 1, 1000), u64::MAX);
}

#[test]
fn thresholds_are_strict() {
    assert!(is_above(81, 100, 80));
    assert!(!is_above(80, 100, 80));
    assert!(is_above(4, 5, 50));
    assert!(!is_above(1, 2, 50));
    assert!(!is_above(0, 0, 0));
    assert!(is_above(1, 1, 99));
}

#[test]
fn seconds_become_milliseconds() {
    assert_eq!(to_millis(0), 0);
    assert_eq!(to_millis(90), 90_000);
    assert_eq!(to_millis(u64::MAX / 1000), u64::MAX / 1000 * 1000);
    assert_eq!(to_millis(u64::MAX / 1000 + 1), u64::MAX);
}

#[test]
fn texts_are_put_together() {
    assert_eq!(framed("[", "a.mft", "] "), "[a.mft] ");
    assert_eq!(framed("", "", ""), "");
    assert_eq!(numbered("File ", 12, "/"), "File 12/");
    assert_eq!(numbered("", 0, ""), "0");
}

#[test]
fn largest_counts_come_first_and_ties_keep_their_order() {
    let counts = vec![
        AttributeCount { type_code: 0x10, count: 5 },
        AttributeCount { type_code: 0x30, count: 9 },
        AttributeCount { type_code: 0x80, count: 5 },
        AttributeCount { type_code: 0x90, count: 1 },
        AttributeCount { type_code: 0xA0, count: 9 },
        AttributeCount { type_code: 0xB0, count: 2 },
    ];
    let top: Vec<u32> = largest_counts(&counts, 5).iter().map(|c| c.type_code).collect();
    assert_eq!(top, vec![0x30, 0xA0, 0x10, 0x80, 0xB0]);
    assert_eq!(largest_counts(&counts, 0), vec![]);
    assert_eq!(largest_counts(&counts, 10).len(), 6);
    assert_eq!(largest_counts(&vec![], 5), vec![]);
}

#[test]
fn text_summary_of_a_running_analysis() {
    let p = analysis(3, 1);
    let lines = text_summary(&p);
    let text = texts_of(&lines);
    assert_eq!(text[0], "=== MFT Summary ===");
    assert_eq!(text[1], "");
    assert_eq!(text[2], "Entry Statistics:");
    assert!(text[3].starts_with("  Total entries processed: 4"));
    assert_eq!(text[4], "  Valid entries: 3");
    assert_eq!(text[5], "  Error entries: 1");
    assert_eq!(text[6], "  Success rate: 75.00%");
    assert_eq!(lines[6].spans[1].paint, Paint::Yellow);
    assert!(lines[6].spans[1].bold);
    assert_eq!(text[7], "");
    assert_eq!(text[8], "File System Structure:");
    assert_eq!(text[9], "  Filename attributes: 3");
    assert_eq!(text[10], "");
    assert_eq!(text[11], "Attribute Statistics:");
    assert_eq!(text[12], "  Total attributes found: 3");
    assert_eq!(text[13], "  Top attribute types:");
    assert_eq!(text[14], "    StandardInformation: 2");
    assert_eq!(text[15], "    FileName: 1");
    assert_eq!(text[16], "");
    assert_eq!(text[17], "Sample File Paths (first 3 found):");
    assert_eq!(text[18], "  1: file0.txt");
    assert_eq!(text[20], "  3: file2.txt");
    assert_eq!(lines[18].spans[1].paint, Paint::LightBlue);
    assert_eq!(text[21], "");
    assert_eq!(text[22], "Analysis in progress...");
    assert!(lines[22].spans[0].italic);
    assert_eq!(text.len(), 23);
}

#[test]
fn text_summary_of_a_finished_analysis() {
    let mut p = analysis(30, 0);
    p.update_with_message(ProgressMessage::Complete, 2000);
    let lines = text_summary(&p);
    let text = texts_of(&lines);
    assert_eq!(text[6], "  Success rate: 100.00%");
    assert_eq!(lines[6].spans[1].paint, Paint::Green);
    assert!(text.contains(&"Sample File Paths (first 10 found):".to_string()));
    assert!(text.contains(&"  10: file9.txt".to_string()));
    assert!(!text.iter().any(|t| t.starts_with("  11: ")));
    assert!(!text.iter().any(|t| t.starts_with("  ETA: ")));
    assert_eq!(text.last().unwrap(), "\u{2713} Analysis complete!");
    assert_eq!(lines.last().unwrap().spans[0].paint, Paint::Green);
}

#[test]
fn text_summary_of_nothing() {
    let p = AnalysisProgress::new(0);
    let text = texts_of(&text_summary(&p));
    assert_eq!(text[3], "  Total entries processed: 0");
    assert_eq!(text[6], "  Success rate: 0.00%");
    assert_eq!(text[12], "  Total attributes found: 0");
    assert_eq!(text[13], "");
    assert_eq!(text[15], "Analysis in progress...");
    assert_eq!(text.len(), 16);
}

#[test]
fn estimated_time_is_shown_while_the_analysis_runs() {
    let mut p = analysis(2, 0);
    p.eta_seconds = Some(90);
    let text = texts_of(&text_summary(&p));
    assert_eq!(text[7], "  ETA: 1m 30s");
    let progress = texts_of(&progress_tab(&p, 10));
    assert!(progress.contains(&"  Estimated time remaining: 1m 30s".to_string()));
    p.eta_seconds = Some(0);
    assert!(!texts_of(&text_summary(&p)).iter().any(|t| t.starts_with("  ETA")));
    p.eta_seconds = Some(90);
    p.is_complete = true;
    assert!(!texts_of(&text_summary(&p)).iter().any(|t| t.starts_with("  ETA")));
}

#[test]
fn progress_tab_counts_and_shares() {
    let mut p = analysis(3, 1);
    p.update_with_message(ProgressMessage::EstimatedTotal(16), 10);
    let text = texts_of(&progress_tab(&p, 1500));
    assert_eq!(text[0], "=== Analysis Progress ===");
    assert_eq!(text[2], "Progress: 4/16 entries (25.0%)");
    assert_eq!(text[4], "Performance:");
    assert!(text[5].starts_with("  Processing rate: "));
    assert_eq!(text[6], "  Elapsed time: 1s 500ms");
    assert_eq!(text[7], "");
    assert_eq!(text[8], "Current Statistics:");
    assert_eq!(text[9], "  Valid entries: 3 (75.0%)");
    assert_eq!(text[10], "  Error entries: 1 (25.0%)");
    assert_eq!(text[11], "  Filename attributes found: 3");
    assert_eq!(text.len(), 12);
    let mut q = analysis(1, 0);
    assert_eq!(texts_of(&progress_tab(&q, 0))[2], "Progress: 1 entries processed");
    q.update_with_message(ProgressMessage::Complete, 3000);
    let done = progress_tab(&q, 99_000);
    let text = texts_of(&done);
    assert_eq!(text[6], "  Elapsed time: 3s");
    assert_eq!(text[text.len() - 1], "Analysis complete!");
    assert_eq!(done[done.len() - 1].spans[0].paint, Paint::Green);
}

#[test]
fn gauge_needs_room() {
    let mut p = analysis(3, 1);
    p.update_with_message(ProgressMessage::EstimatedTotal(16), 10);
    assert_eq!(gauge(&p, 15), None);
    assert_eq!(gauge(&p, 16), Some(25));
    assert_eq!(gauge(&AnalysisProgress::new(0), 40), Some(0));
}

#[test]
fn titles_of_the_summary_tabs() {
    let mut p = analysis(3, 1);
    p.update_with_message(ProgressMessage::EstimatedTotal(16), 10);
    assert_eq!(tab_title(SelectedTab::Progress, &p, false), "  Progress (25%)  ");
    assert_eq!(tab_title(SelectedTab::Progress, &p, true), "  Progress (25%) [PAUSED]  ");
    assert_eq!(tab_title(SelectedTab::TextSummary, &p, true), "  Text Summary  ");
    assert_eq!(tab_title(SelectedTab::Visualization, &p, false), "  Visualization  ");
    assert_eq!(tab_title(SelectedTab::Errors, &p, false), "  Errors  ");
    let e = with_errors(4);
    assert_eq!(tab_title(SelectedTab::Errors, &e, false), "  Errors (4)  ");
    p.update_with_message(ProgressMessage::Complete, 20);
    assert_eq!(tab_title(SelectedTab::Progress, &p, true), "  Progress  ");
}

#[test]
fn legend_counts_the_records() {
    let lines = legend(&analysis(3, 1));
    let text = texts_of(&lines);
    assert_eq!(text[0], "Quality: 0-2=Good 3-6=Fair 7-9=Poor");
    assert_eq!(text[1], "Total: 4 | Valid: 3 | Invalid: 1");
    assert_eq!(text[2], "Press h to hide");
    assert_eq!(lines[0].spans[1].paint, Paint::Green);
    assert_eq!(lines[0].spans[3].paint, Paint::Yellow);
    assert_eq!(lines[0].spans[5].paint, Paint::Red);
}

#[test]
fn errors_tab_without_errors() {
    let text = texts_of(&errors_tab(&analysis(1, 0), 0, 30));
    assert_eq!(text, vec!["=== Errors ===", "", "No errors recorded."]);
}

#[test]
fn errors_tab_lists_what_fits() {
    let p = with_errors(7);
    // 8 header lines; 16 lines of area leave 6 for errors: three of them
    let text = texts_of(&errors_tab(&p, 0, 16));
    assert_eq!(text[0], "=== Errors ===");
    assert_eq!(text[2], "Total errors encountered: 7");
    assert_eq!(text[3], "Error breakdown:");
    assert_eq!(text[4], "  Critical: 3");
    assert_eq!(text[5], "  Entry parsing: 2");
    assert_eq!(text[6], "  Attribute parsing: 2");
    assert_eq!(text[7], "");
    assert_eq!(text[8], "1. [CRITICAL] failure 0");
    assert_eq!(text[9], "");
    assert_eq!(text[10], "2. [ENTRY] failure 1");
    assert_eq!(text[12], "3. [ATTR] failure 2");
    assert_eq!(text[14], "");
    assert_eq!(
        text[15],
        "Showing errors 1-3 of 7 (use \u{2191}\u{2193} or PgUp/PgDn to scroll)"
    );
    assert_eq!(text.len(), 16);
    // scrolled by four lines: from the third error on
    let text = texts_of(&errors_tab(&p, 4, 16));
    assert_eq!(text[8], "3. [ATTR] failure 2");
    assert_eq!(text[12], "5. [ENTRY] failure 4");
    assert!(text[15].starts_with("Showing errors 3-5 of 7"));
    // scrolled past the end: no error is listed
    let text = texts_of(&errors_tab(&p, 100, 16));
    assert_eq!(text.len(), 10);
    assert!(text[9].starts_with("Showing errors 51-7 of 7"));
    // everything fits: no note
    let text = texts_of(&errors_tab(&p, 0, 60));
    assert_eq!(text.len(), 8 + 14);
    assert_eq!(text[text.len() - 2], "7. [CRITICAL] failure 6");
}

#[test]
fn scroll_bars() {
    let info = scroll_bar(23, 12, 4);
    assert_eq!(info.content_length, 23);
    assert_eq!(info.viewport_length, 10);
    assert_eq!(info.position, 4);
    assert!(info.scrollable);
    assert!(!scroll_bar(10, 12, 0).scrollable);
    assert_eq!(scroll_bar(3, 1, 0).viewport_length, 0);
    let e = errors_scroll(&with_errors(7), 6, 16);
    assert_eq!(e.content_length, 8 + 14);
    assert_eq!(e.viewport_length, 14);
    assert_eq!(e.position, 6);
    assert!(e.scrollable);
}

#[test]
fn canvas_has_scores_colours_and_labels() {
    let mut health = vec![true; 8];
    health.extend(vec![false; 4]);
    // 4 by 2 pixels over 12 records: two records per pixel, two pixels empty
    let pixels = health_canvas(&health, 4, 2);
    assert_eq!(pixels.len(), 8);
    let scores: Vec<u8> = pixels.iter().map(|p| p.score).collect();
    assert_eq!(scores, vec![0, 0, 0, 0, 9, 9, EMPTY_PIXEL, EMPTY_PIXEL]);
    let labelled: Vec<bool> = pixels.iter().map(|p| p.labelled).collect();
    assert_eq!(labelled, vec![true, false, false, false, true, false, false, false]);
    assert!(pixels[0].dark_label);
    assert!(!pixels[4].dark_label);
    assert_eq!(pixels[0].color, Rgb { red: 0, green: 255, blue: 0 });
    assert_eq!(pixels[6].color, Rgb { red: 0, green: 0, blue: 0 });
    assert_eq!(pixels[4].color, pixel_paint(&health, 4, 2));
    assert_ne!(pixels[4].color, pixels[0].color);
    assert_eq!(health_canvas(&health, 0, 5).len(), 0);
    assert_eq!(health_canvas(&health, usize::MAX, 2).len(), 0);
    assert!(health_canvas(&vec![], 2, 2).iter().all(|p| p.score == EMPTY_PIXEL && !p.labelled));
}

#[test]
fn windows_of_rows() {
    let lines: Vec<String> = (0..6).map(|i| format!("row {i}")).collect();
    let rows = window_rows(&lines, 2, 3, 3);
    let text: Vec<&str> = rows.iter().map(|r| r.text.as_str()).collect();
    assert_eq!(text, vec!["row 2", "row 3", "row 4"]);
    let selected: Vec<bool> = rows.iter().map(|r| r.selected).collect();
    assert_eq!(selected, vec![false, true, false]);
    assert_eq!(window_rows(&lines, 4, 0, 10).len(), 2);
    assert_eq!(window_rows(&lines, 6, 0, 10).len(), 0);
    assert_eq!(window_rows(&lines, 9, 0, 10).len(), 0);
    assert_eq!(window_rows(&lines, 0, 0, 0).len(), 0);
    assert_eq!(window_rows(&lines, usize::MAX, 0, usize::MAX).len(), 0);
}

#[test]
fn rows_of_the_errors_tab() {
    let files = vec![
        files_with("C:\\cache\\C.mft", &["torn sector", "bad signature"], &[]),
        files_with("D.mft", &["torn sector"], &[]),
    ];
    let groups = group_errors(&files);
    assert_eq!(
        group_lines(&groups),
        vec!["[2x across 2 file(s)] torn sector", "[1x across 1 file(s)] bad signature"]
    );
    assert_eq!(
        raw_lines(&files),
        vec!["[C.mft] torn sector", "[C.mft] bad signature", "[D.mft] torn sector"]
    );
    let mut tab = ErrorsTab::new();
    let rows = tab.rows(&files, &groups, 5);
    assert_eq!(rows.len(), 2);
    assert!(rows[0].selected && !rows[1].selected);
    tab.show_grouped = false;
    tab.selected_index = 2;
    tab.scroll_offset = 1;
    let rows = tab.rows(&files, &groups, 5);
    assert_eq!(rows.len(), 2);
    assert_eq!(rows[0].text, "[C.mft] bad signature");
    assert_eq!(rows[1].text, "[D.mft] torn sector");
    assert!(!rows[0].selected && rows[1].selected);
    assert_eq!(tab.rows(&files, &groups, 1).len(), 1);
    assert_eq!(errors_heading(true), "Errors (grouped, press 'g' to toggle)");
    assert_eq!(errors_heading(false), "Errors (raw, press 'g' to toggle)");
    assert_eq!(raw_lines(&vec![]), Vec::<String>::new());
}

#[test]
fn texts_of_the_search_tab() {
    assert_eq!(
        search_prompt("report"),
        "Search: report (Type to search, \u{2191}\u{2193} to navigate, PgUp/PgDn to scroll)"
    );
    assert_eq!(
        no_matches(""),
        "No files discovered yet. Files will appear here as MFT processing progresses."
    );
    assert_eq!(no_matches("x"), "No files found matching search criteria.");
    assert_eq!(paint_of_matches(""), Paint::Plain);
    assert_eq!(paint_of_matches("x"), Paint::White);
    let items: Vec<IndexEntry> = ["C:\\a.txt", "C:\\b.txt", "C:\\c.txt"]
        .iter()
        .map(|p| IndexEntry { path: p.to_string(), created: None, modified: None, accessed: None })
        .collect();
    let rows = search_rows(&items, 10, 11);
    let text: Vec<&str> = rows.iter().map(|r| r.text.as_str()).collect();
    assert_eq!(text, vec!["C:\\a.txt", "C:\\b.txt", "C:\\c.txt"]);
    let selected: Vec<bool> = rows.iter().map(|r| r.selected).collect();
    assert_eq!(selected, vec![false, true, false]);
    assert!(search_rows(&items, usize::MAX, 0).iter().all(|r| !r.selected));
}

#[test]
fn texts_of_the_visualizer_tab() {
    let files = vec![
        files_with("C:\\cache\\C.mft", &[], &[true, true, true, false]),
        files_with("D.mft", &[], &[true; 20]),
        files_with("E.mft", &[], &[]),
    ];
    assert_eq!(
        file_selector(0, &files).unwrap(),
        "File 1/3: C.mft (Use \u{2191}\u{2193} to navigate)"
    );
    assert_eq!(
        file_selector(2, &files).unwrap(),
        "File 3/3: E.mft (Use \u{2191}\u{2193} to navigate)"
    );
    assert_eq!(file_selector(3, &files), None);
    assert_eq!(file_selector(0, &vec![]), None);
    let g = health_gauge(&files[0]);
    assert_eq!(g.label, "Healthy entries: 3/4 (75.0%)");
    assert_eq!(g.paint, Paint::Yellow);
    assert_eq!(g.percent, 75);
    let g = health_gauge(&files[1]);
    assert_eq!(g.label, "Healthy entries: 20/20 (100.0%)");
    assert_eq!(g.paint, Paint::Green);
    let g = health_gauge(&files[2]);
    assert_eq!(g.label, "Healthy entries: 0/0 (0.0%)");
    assert_eq!(g.paint, Paint::Red);
    assert_eq!(g.percent, 0);
}
