//! The text of the progress tab, of the errors tab, of the tab titles and
//! of the legend.

use vstd::prelude::*;
use vstd::string::*;
use crate::cli::mft_query_action::format_interval;
use crate::cli::mft_query_action::millis_text;
use crate::styled::line_views;
use crate::styled::no_lines;
use crate::styled::painted;
use crate::styled::plain;
use crate::styled::push_line;
use crate::styled::slanted;
use crate::styled::strong;
use crate::styled::Line;
use crate::styled::Paint;
use crate::styled::Span;
use crate::styled::SpanView;
use crate::summary::app::error_window;
use crate::summary::app::errors_window;
use crate::summary::app::ErrorWindow;
use crate::summary::app::WINDOW_LIMIT;
use crate::numbers::in_millis;
use crate::numbers::tenths;
use crate::numbers::tenths_text;
use crate::numbers::to_millis;
use crate::summary::lines::eta_shown;
use crate::summary::lines::label;
use crate::summary::lines::scroll_bar;
use crate::summary::lines::scroll_info;
use crate::summary::lines::ScrollInfo;
use crate::summary::progress::percentage;
use crate::summary::progress::tag_text;
use crate::summary::progress::AnalysisModel;
use crate::summary::progress::AnalysisProgress;
use crate::summary::progress::SummaryErrorView;
use crate::summary::selected_tab::SelectedTab;
use crate::text::decimal;
use crate::text::framed;
use crate::text::numbered;
use crate::text::decimal_string;

verus! {

/// The least height of the area in which the progress tab has a gauge.
pub const GAUGE_HEIGHT: u16 = 15;

/// A line of one piece of text without a style.
pub open spec fn text_line(text: Seq<char>) -> Seq<SpanView> {
    seq![plain(text)]
}

fn write_text_line(lines: &mut Vec<Line>, text: String)
    ensures
        line_views(final(lines)@) == line_views(old(lines)@).push(text_line(text@)),
{
    push_line(lines, Line::of(Span::plain(text)));
}

/// The time that the analysis has taken: up to its end, or up to now while
/// it runs.
pub open spec fn elapsed_millis(m: AnalysisModel, now: u64) -> u64 {
    let end = match m.completion_time {
        Some(t) => t,
        None => now,
    };
    if end >= m.start_time {
        (end - m.start_time) as u64
    } else {
        0
    }
}

/// How far the analysis has come.
pub open spec fn progress_text(m: AnalysisModel) -> Seq<char> {
    match m.estimated_total {
        Some(estimated) => "Progress: "@ + decimal(m.total_entries as nat) + "/"@ + decimal(
            estimated as nat,
        ) + " entries ("@ + tenths_text(m.total_entries as u64, estimated as u64) + ")"@,
        None => "Progress: "@ + decimal(m.total_entries as nat) + " entries processed"@,
    }
}

/// A number of records with its share of all records.
pub open spec fn share_text(name: Seq<char>, part: usize, whole: usize) -> Seq<char> {
    name + decimal(part as nat) + " ("@ + tenths_text(part as u64, whole as u64) + ")"@
}

/// The progress tab: how far the analysis has come, how fast it is, and
/// what it has found.
pub open spec fn progress_lines(m: AnalysisModel, now: u64) -> Seq<Seq<SpanView>> {
    let head = seq![
        text_line("=== Analysis Progress ==="@),
        Seq::empty(),
        text_line(progress_text(m)),
        Seq::empty(),
        text_line("Performance:"@),
        text_line(
            "  Processing rate: "@ + decimal(m.entries_per_second as nat) + " entries/second"@,
        ),
        text_line("  Elapsed time: "@ + millis_text(elapsed_millis(m, now))),
    ];
    let timed = if eta_shown(m) {
        head.push(
            text_line(
                "  Estimated time remaining: "@ + millis_text(in_millis(m.eta_seconds->0)),
            ),
        )
    } else {
        head
    };
    let counted = timed + seq![
        Seq::empty(),
        text_line("Current Statistics:"@),
        text_line(share_text("  Valid entries: "@, m.valid_entries, m.total_entries)),
        text_line(share_text("  Error entries: "@, m.error_entries, m.total_entries)),
        text_line("  Filename attributes found: "@ + decimal(m.filename_entries as nat)),
    ];
    if m.is_complete {
        counted + seq![Seq::empty(), seq![painted("Analysis complete!"@, Paint::Green)]]
    } else {
        counted
    }
}

fn write_share(name: &str, part: usize, whole: usize) -> (s: String)
    ensures
        s@ == share_text(name@, part, whole),
{
    let mut s = numbered(name, part, " (");
    let share = tenths(part as u64, whole as u64);
    s.append(share.as_str());
    s.append(")");
    s
}

/// Writes the progress tab.
pub fn progress_tab(p: &AnalysisProgress, now: u64) -> (lines: Vec<Line>)
    ensures
        line_views(lines@) == progress_lines(p@, now),
{
    let mut lines = no_lines();
    write_text_line(&mut lines, String::from_str("=== Analysis Progress ==="));
    push_line(&mut lines, Line::blank());
    let progress = match p.estimated_total {
        Some(estimated) => {
            let mut s = numbered("Progress: ", p.total_entries, "/");
            let second = numbered("", estimated, " entries (");
            proof {
                reveal_strlit("");
                assert(""@ + decimal(estimated as nat) =~= decimal(estimated as nat));
            }
            s.append(second.as_str());
            let share = tenths(p.total_entries as u64, estimated as u64);
            s.append(share.as_str());
            s.append(")");
            assert(s@ =~= progress_text(p@));
            s
        },
        None => numbered("Progress: ", p.total_entries, " entries processed"),
    };
    write_text_line(&mut lines, progress);
    push_line(&mut lines, Line::blank());
    write_text_line(&mut lines, String::from_str("Performance:"));
    let rate = decimal_string(p.entries_per_second);
    write_text_line(&mut lines, framed("  Processing rate: ", rate.as_str(), " entries/second"));
    let end = match p.completion_time {
        Some(t) => t,
        None => now,
    };
    let elapsed = if end >= p.start_time {
        end - p.start_time
    } else {
        0
    };
    let taken = format_interval(elapsed);
    proof {
        reveal_strlit("");
        assert(millis_text(elapsed) + ""@ =~= millis_text(elapsed));
    }
    write_text_line(&mut lines, framed("  Elapsed time: ", taken.as_str(), ""));
    match p.eta_seconds {
        Some(eta) => {
            if eta > 0 && !p.is_complete {
                let left = format_interval(to_millis(eta));
                proof {
                    assert(millis_text(in_millis(eta)) + ""@ =~= millis_text(in_millis(eta)));
                }
                write_text_line(
                    &mut lines,
                    framed("  Estimated time remaining: ", left.as_str(), ""),
                );
            }
        },
        None => {},
    }
    let ghost timed = line_views(lines@);
    push_line(&mut lines, Line::blank());
    write_text_line(&mut lines, String::from_str("Current Statistics:"));
    write_text_line(&mut lines, write_share("  Valid entries: ", p.valid_entries, p.total_entries));
    write_text_line(&mut lines, write_share("  Error entries: ", p.error_entries, p.total_entries));
    proof {
        assert(decimal(p.filename_entries as nat) + ""@ =~= decimal(p.filename_entries as nat));
    }
    write_text_line(&mut lines, numbered("  Filename attributes found: ", p.filename_entries, ""));
    let ghost counted = line_views(lines@);
    assert(counted =~= timed + seq![
        Seq::empty(),
        text_line("Current Statistics:"@),
        text_line(share_text("  Valid entries: "@, p@.valid_entries, p@.total_entries)),
        text_line(share_text("  Error entries: "@, p@.error_entries, p@.total_entries)),
        text_line("  Filename attributes found: "@ + decimal(p@.filename_entries as nat)),
    ]);
    if p.is_complete {
        push_line(&mut lines, Line::blank());
        push_line(
            &mut lines,
            Line::of(Span::painted(String::from_str("Analysis complete!"), Paint::Green)),
        );
        assert(line_views(lines@) =~= counted + seq![
            Seq::empty(),
            seq![painted("Analysis complete!"@, Paint::Green)],
        ]);
    }
    lines
}

/// The share that the gauge of the progress tab shows, in per cent; none
/// where the area is too low for a gauge.
pub open spec fn gauge_share(m: AnalysisModel, area_height: u16) -> Option<u16> {
    if area_height > GAUGE_HEIGHT {
        Some(percentage(m))
    } else {
        None
    }
}

/// Works out what the gauge of the progress tab shows.
pub fn gauge(p: &AnalysisProgress, area_height: u16) -> (share: Option<u16>)
    ensures
        share == gauge_share(p@, area_height),
        share is Some ==> share->0 <= 100,
{
    if area_height > GAUGE_HEIGHT {
        Some(p.progress_percentage())
    } else {
        None
    }
}

/// The title of a tab: the progress tab says how far the analysis is and
/// whether it is paused, while it runs; the errors tab says how many errors
/// there are, where there are any.
pub open spec fn title_text(tab: SelectedTab, m: AnalysisModel, paused: bool) -> Seq<char> {
    if tab == SelectedTab::Progress && !m.is_complete {
        "  Progress ("@ + decimal(percentage(m) as nat) + "%)"@ + (if paused {
            " [PAUSED]"@
        } else {
            ""@
        }) + "  "@
    } else if tab == SelectedTab::Errors && m.errors.len() > 0 {
        "  Errors ("@ + decimal(m.errors.len()) + ")  "@
    } else {
        "  "@ + tab.name_text() + "  "@
    }
}

/// Writes the title of a tab.
pub fn tab_title(tab: SelectedTab, p: &AnalysisProgress, paused: bool) -> (s: String)
    ensures
        s@ == title_text(tab, p@, paused),
{
    match tab {
        SelectedTab::Progress => {
            if !p.is_complete {
                let mut s = numbered("  Progress (", p.progress_percentage() as usize, "%)");
                s.append(
                    if paused {
                        " [PAUSED]"
                    } else {
                        ""
                    },
                );
                s.append("  ");
                return s;
            }
        },
        SelectedTab::Errors => {
            if p.errors.len() > 0 {
                return numbered("  Errors (", p.errors.len(), ")  ");
            }
        },
        _ => {},
    }
    framed("  ", tab.name(), "  ")
}

/// The legend of the visualization.
pub open spec fn legend_lines(m: AnalysisModel) -> Seq<Seq<SpanView>> {
    seq![
        seq![
            plain("Quality: 0-2="@),
            painted("Good "@, Paint::Green),
            plain("3-6="@),
            painted("Fair "@, Paint::Yellow),
            plain("7-9="@),
            painted("Poor"@, Paint::Red),
        ],
        text_line(
            "Total: "@ + decimal(m.total_entries as nat) + " | Valid: "@ + decimal(
                m.valid_entries as nat,
            ) + " | Invalid: "@ + decimal(m.error_entries as nat),
        ),
        seq![painted("Press h to hide"@, Paint::Cyan)],
    ]
}

/// Writes the legend of the visualization.
pub fn legend(p: &AnalysisProgress) -> (lines: Vec<Line>)
    ensures
        line_views(lines@) == legend_lines(p@),
{
    let mut lines = no_lines();
    let mut spans: Vec<Span> = Vec::new();
    spans.push(label("Quality: 0-2="));
    spans.push(Span::painted(String::from_str("Good "), Paint::Green));
    spans.push(label("3-6="));
    spans.push(Span::painted(String::from_str("Fair "), Paint::Yellow));
    spans.push(label("7-9="));
    spans.push(Span::painted(String::from_str("Poor"), Paint::Red));
    let scale = Line { spans };
    assert(scale@ =~= seq![
        plain("Quality: 0-2="@),
        painted("Good "@, Paint::Green),
        plain("3-6="@),
        painted("Fair "@, Paint::Yellow),
        plain("7-9="@),
        painted("Poor"@, Paint::Red),
    ]);
    push_line(&mut lines, scale);
    let mut counts = numbered("Total: ", p.total_entries, " | Valid: ");
    let valid = decimal_string(p.valid_entries as u64);
    counts.append(valid.as_str());
    counts.append(" | Invalid: ");
    let invalid = decimal_string(p.error_entries as u64);
    counts.append(invalid.as_str());
    write_text_line(&mut lines, counts);
    push_line(
        &mut lines,
        Line::of(Span::painted(String::from_str("Press h to hide"), Paint::Cyan)),
    );
    assert(line_views(lines@) =~= legend_lines(p@));
    lines
}

/// How many errors of each kind there are, for the kinds of which there
/// are any.
pub open spec fn breakdown_lines(m: AnalysisModel) -> Seq<Seq<SpanView>> {
    if m.critical_errors > 0 || m.entry_errors > 0 || m.attr_errors > 0 {
        let head = seq![seq![painted("Error breakdown:"@, Paint::Cyan)]];
        let critical = if m.critical_errors > 0 {
            head.push(
                seq![
                    strong("  Critical: "@, Paint::Red),
                    painted(decimal(m.critical_errors as nat), Paint::White),
                ],
            )
        } else {
            head
        };
        let entry = if m.entry_errors > 0 {
            critical.push(
                seq![
                    painted("  Entry parsing: "@, Paint::Red),
                    painted(decimal(m.entry_errors as nat), Paint::White),
                ],
            )
        } else {
            critical
        };
        if m.attr_errors > 0 {
            entry.push(
                seq![
                    painted("  Attribute parsing: "@, Paint::Yellow),
                    painted(decimal(m.attr_errors as nat), Paint::White),
                ],
            )
        } else {
            entry
        }
    } else {
        Seq::empty()
    }
}

/// What stands above the errors: their number, and how many there are of
/// each kind.
pub open spec fn errors_header(m: AnalysisModel) -> Seq<Seq<SpanView>> {
    seq![
        seq![strong("=== Errors ==="@, Paint::Red)],
        Seq::empty(),
        seq![
            strong("Total errors encountered: "@ + decimal(m.errors.len()), Paint::Red),
        ],
    ] + breakdown_lines(m) + seq![Seq::empty()]
}

/// The line of the error at place `i`: its number, its tag and its message.
pub open spec fn error_line(i: int, e: SummaryErrorView) -> Seq<SpanView> {
    seq![
        strong(decimal((i + 1) as nat) + ". "@, Paint::Red),
        painted(tag_text(e.kind) + e.message, Paint::White),
    ]
}

/// The errors from `start` up to `end`, each followed by an empty line.
pub open spec fn listed_errors(errors: Seq<SummaryErrorView>, start: int, end: int) -> Seq<
    Seq<SpanView>,
>
    decreases end - start,
{
    if start >= end {
        Seq::empty()
    } else {
        listed_errors(errors, start, end - 1).push(error_line(end - 1, errors[end - 1])).push(
            Seq::empty(),
        )
    }
}

/// The note below the errors, where not all of them fit: which of them are
/// shown.
pub open spec fn window_note(w: ErrorWindow, errors: int) -> Seq<Seq<SpanView>> {
    if errors > w.visible_errors {
        let shown = "Showing errors "@ + decimal((w.start + 1) as nat) + "-"@ + decimal(
            w.end as nat,
        ) + " of "@ + decimal(errors as nat);
        seq![
            Seq::empty(),
            seq![
                slanted(
                    shown + (if errors > WINDOW_LIMIT {
                        " (limited to 1000 for performance)"@
                    } else {
                        " (use \u{2191}\u{2193} or PgUp/PgDn to scroll)"@
                    }),
                    Paint::Cyan,
                ),
            ],
        ]
    } else {
        Seq::empty()
    }
}

/// The errors tab in an area of `area_height` lines, scrolled to line
/// `scroll_position`: the header, the errors that fit from the scroll
/// position on, and the note on which of them are shown.
pub open spec fn errors_lines(m: AnalysisModel, scroll_position: u16, area_height: u16) -> Seq<
    Seq<SpanView>,
> {
    if m.errors.len() == 0 {
        seq![
            seq![strong("=== Errors ==="@, Paint::Red)],
            Seq::empty(),
            seq![painted("No errors recorded."@, Paint::Green)],
        ]
    } else {
        let header = errors_header(m);
        let w = error_window(
            scroll_position,
            area_height,
            header.len() as u16,
            m.errors.len() as int,
        );
        header + listed_errors(m.errors, w.start as int, w.end as int) + window_note(
            w,
            m.errors.len() as int,
        )
    }
}

fn counted_line(name: Span, n: usize) -> (l: Line)
    ensures
        l@ == seq![name@, painted(decimal(n as nat), Paint::White)],
{
    Line::pair(name, Span::painted(decimal_string(n as u64), Paint::White))
}

fn write_errors_header(p: &AnalysisProgress) -> (lines: Vec<Line>)
    ensures
        line_views(lines@) == errors_header(p@),
        4 <= lines@.len() <= 8,
{
    let mut lines = no_lines();
    push_line(&mut lines, Line::of(Span::strong(String::from_str("=== Errors ==="), Paint::Red)));
    push_line(&mut lines, Line::blank());
    proof {
        reveal_strlit("");
        assert(decimal(p.errors@.len()) + ""@ =~= decimal(p.errors@.len()));
    }
    push_line(
        &mut lines,
        Line::of(Span::strong(numbered("Total errors encountered: ", p.errors.len(), ""), Paint::Red)),
    );
    let ghost head = line_views(lines@);
    if p.critical_errors > 0 || p.entry_errors > 0 || p.attr_errors > 0 {
        push_line(
            &mut lines,
            Line::of(Span::painted(String::from_str("Error breakdown:"), Paint::Cyan)),
        );
        if p.critical_errors > 0 {
            push_line(
                &mut lines,
                counted_line(
                    Span::strong(String::from_str("  Critical: "), Paint::Red),
                    p.critical_errors,
                ),
            );
        }
        if p.entry_errors > 0 {
            push_line(
                &mut lines,
                counted_line(
                    Span::painted(String::from_str("  Entry parsing: "), Paint::Red),
                    p.entry_errors,
                ),
            );
        }
        if p.attr_errors > 0 {
            push_line(
                &mut lines,
                counted_line(
                    Span::painted(String::from_str("  Attribute parsing: "), Paint::Yellow),
                    p.attr_errors,
                ),
            );
        }
    }
    assert(line_views(lines@) =~= head + breakdown_lines(p@));
    push_line(&mut lines, Line::blank());
    assert(line_views(lines@) =~= errors_header(p@));
    assert(line_views(lines@).len() == lines@.len());
    lines
}

/// Writes the errors tab.
pub fn errors_tab(p: &AnalysisProgress, scroll_position: u16, area_height: u16) -> (lines: Vec<
    Line,
>)
    ensures
        line_views(lines@) == errors_lines(p@, scroll_position, area_height),
{
    if p.errors.len() == 0 {
        let mut lines = no_lines();
        push_line(
            &mut lines,
            Line::of(Span::strong(String::from_str("=== Errors ==="), Paint::Red)),
        );
        push_line(&mut lines, Line::blank());
        push_line(
            &mut lines,
            Line::of(Span::painted(String::from_str("No errors recorded."), Paint::Green)),
        );
        assert(line_views(lines@) =~= errors_lines(p@, scroll_position, area_height));
        return lines;
    }
    let mut lines = write_errors_header(p);
    let ghost header = line_views(lines@);
    assert(header.len() == lines@.len());
    let w = errors_window(scroll_position, area_height, lines.len() as u16, p.errors.len());
    let ghost errors = p@.errors;
    let mut i: usize = w.start;
    assert(header + listed_errors(errors, w.start as int, w.start as int) =~= header);
    while i < w.end
        invariant
            w.start <= i,
            i <= w.end || i == w.start,
            w.end <= p.errors.len(),
            errors == p@.errors,
            line_views(lines@) == header + listed_errors(errors, w.start as int, i as int),
        decreases w.end - i,
    {
        let ghost before = line_views(lines@);
        let mut number = decimal_string((i + 1) as u64);
        number.append(". ");
        let message = p.errors[i].tagged_text();
        proof {
            assert(errors[i as int] == p.errors@[i as int]@);
            assert(message@ == tag_text(errors[i as int].kind) + errors[i as int].message);
        }
        push_line(
            &mut lines,
            Line::pair(Span::strong(number, Paint::Red), Span::painted(message, Paint::White)),
        );
        push_line(&mut lines, Line::blank());
        proof {
            assert(line_views(lines@) == before.push(error_line(i as int, errors[i as int])).push(
                Seq::empty(),
            ));
            assert(header + listed_errors(errors, w.start as int, i + 1) =~= before.push(
                error_line(i as int, errors[i as int]),
            ).push(Seq::empty()));
        }
        i += 1;
    }
    proof {
        if w.end <= w.start {
            assert(listed_errors(errors, w.start as int, w.end as int) =~= listed_errors(
                errors,
                w.start as int,
                w.start as int,
            ));
        } else {
            assert(i == w.end);
        }
    }
    let ghost listed = line_views(lines@);
    assert(listed == header + listed_errors(errors, w.start as int, w.end as int));
    if p.errors.len() > w.visible_errors {
        push_line(&mut lines, Line::blank());
        let mut shown = numbered("Showing errors ", w.start + 1, "-");
        let end = decimal_string(w.end as u64);
        shown.append(end.as_str());
        shown.append(" of ");
        let all = decimal_string(p.errors.len() as u64);
        shown.append(all.as_str());
        if p.errors.len() > WINDOW_LIMIT {
            shown.append(" (limited to 1000 for performance)");
        } else {
            shown.append(" (use \u{2191}\u{2193} or PgUp/PgDn to scroll)");
        }
        push_line(&mut lines, Line::of(Span::slanted(shown, Paint::Cyan)));
        assert(line_views(lines@) =~= listed + window_note(w, p.errors@.len() as int));
    } else {
        assert(listed + window_note(w, p.errors@.len() as int) =~= listed);
    }
    lines
}

/// The number of lines of the errors tab if all errors were drawn, as far as
/// the machine counts.
pub open spec fn errors_content(m: AnalysisModel) -> usize {
    let lines = errors_header(m).len() + 2 * m.errors.len();
    if lines > usize::MAX {
        usize::MAX
    } else {
        lines as usize
    }
}

/// Works out the scroll bar of the errors tab.
pub fn errors_scroll(p: &AnalysisProgress, scroll_position: u16, area_height: u16) -> (info:
    ScrollInfo)
    requires
        p@.errors.len() > 0,
    ensures
        info == scroll_info(errors_content(p@), area_height, scroll_position),
{
    let header = write_errors_header(p);
    assert(line_views(header@).len() == header@.len());
    let errors = p.errors.len();
    let content = if errors > (usize::MAX - header.len()) / 2 {
        usize::MAX
    } else {
        header.len() + 2 * errors
    };
    scroll_bar(content, area_height, scroll_position)
}

} // verus!
