//! The text of the summary tabs, line by line, as the front end draws it.

use vstd::prelude::*;
use vstd::string::*;
use crate::cli::mft_query_action::format_interval;
use crate::cli::mft_query_action::millis_text;
use crate::styled::line_views;
use crate::styled::no_lines;
use crate::styled::painted;
use crate::styled::plain;
use crate::styled::push_line;
use crate::styled::push_lines;
use crate::styled::slanted;
use crate::styled::strong;
use crate::styled::Line;
use crate::styled::Paint;
use crate::styled::Span;
use crate::styled::SpanView;
use crate::summary::analysis::attribute_type_name;
use crate::summary::analysis::type_name_text;
use crate::numbers::above;
use crate::numbers::hundredths;
use crate::numbers::hundredths_text;
use crate::numbers::in_millis;
use crate::numbers::is_above;
use crate::numbers::to_millis;
use crate::summary::figures::largest_counts;
use crate::summary::figures::top_counts;
use crate::summary::progress::counted;
use crate::summary::progress::AnalysisModel;
use crate::summary::progress::AnalysisProgress;
use crate::summary::progress::AttributeCount;
use crate::text::decimal;
use crate::text::framed;
use crate::text::numbered;
use crate::text::decimal_string;

verus! {

/// Number of attribute types that the summary lists.
pub const TOP_TYPES: usize = 5;

/// Number of sample paths that the summary lists.
pub const SHOWN_SAMPLES: usize = 10;

pub(crate) fn label(text: &str) -> (s: Span)
    ensures
        s@ == plain(text@),
{
    Span::plain(String::from_str(text))
}

/// The note on the rate behind the number of records: none while the rate
/// is zero.
pub open spec fn rate_note(rate: u64) -> SpanView {
    if rate > 0 {
        painted(" (+"@ + decimal(rate as nat) + " entries/s)"@, Paint::Green)
    } else {
        plain(Seq::empty())
    }
}

/// The colour of the share of valid records: green above 80 in a hundred,
/// yellow above 50, red otherwise.
pub open spec fn share_paint(valid: usize, total: usize) -> Paint {
    if above(valid as u64, total as u64, 80) {
        Paint::Green
    } else if above(valid as u64, total as u64, 50) {
        Paint::Yellow
    } else {
        Paint::Red
    }
}

/// Whether the time to the end is shown: while the analysis runs and some
/// time is left.
pub open spec fn eta_shown(m: AnalysisModel) -> bool {
    m.eta_seconds is Some && m.eta_seconds->0 > 0 && !m.is_complete
}

/// The statistics of the records.
pub open spec fn entry_lines(m: AnalysisModel) -> Seq<Seq<SpanView>> {
    let head = seq![
        seq![strong("=== MFT Summary ==="@, Paint::Yellow)],
        Seq::empty(),
        seq![strong("Entry Statistics:"@, Paint::Cyan)],
        seq![
            plain("  Total entries processed: "@),
            strong(decimal(m.total_entries as nat), Paint::White),
            rate_note(m.entries_per_second),
        ],
        seq![
            plain("  Valid entries: "@),
            painted(decimal(m.valid_entries as nat), Paint::Green),
        ],
        seq![plain("  Error entries: "@), painted(decimal(m.error_entries as nat), Paint::Red)],
        seq![
            plain("  Success rate: "@),
            strong(
                hundredths_text(m.valid_entries as u64, m.total_entries as u64),
                share_paint(m.valid_entries, m.total_entries),
            ),
        ],
    ];
    let timed = if eta_shown(m) {
        head.push(
            seq![
                plain("  ETA: "@),
                strong(millis_text(in_millis(m.eta_seconds->0)), Paint::Magenta),
            ],
        )
    } else {
        head
    };
    timed.push(Seq::empty())
}

fn write_entry_lines(p: &AnalysisProgress) -> (lines: Vec<Line>)
    ensures
        line_views(lines@) == entry_lines(p@),
{
    let mut lines = no_lines();
    push_line(&mut lines, Line::of(Span::strong(String::from_str("=== MFT Summary ==="), Paint::Yellow)));
    push_line(&mut lines, Line::blank());
    push_line(&mut lines, Line::of(Span::strong(String::from_str("Entry Statistics:"), Paint::Cyan)));
    let note = if p.entries_per_second > 0 {
        let digits = decimal_string(p.entries_per_second);
        Span::painted(framed(" (+", digits.as_str(), " entries/s)"), Paint::Green)
    } else {
        Span::plain(String::new())
    };
    push_line(
        &mut lines,
        Line::triple(
            label("  Total entries processed: "),
            Span::strong(decimal_string(p.total_entries as u64), Paint::White),
            note,
        ),
    );
    push_line(
        &mut lines,
        Line::pair(
            label("  Valid entries: "),
            Span::painted(decimal_string(p.valid_entries as u64), Paint::Green),
        ),
    );
    push_line(
        &mut lines,
        Line::pair(
            label("  Error entries: "),
            Span::painted(decimal_string(p.error_entries as u64), Paint::Red),
        ),
    );
    let paint = if is_above(p.valid_entries as u64, p.total_entries as u64, 80) {
        Paint::Green
    } else if is_above(p.valid_entries as u64, p.total_entries as u64, 50) {
        Paint::Yellow
    } else {
        Paint::Red
    };
    push_line(
        &mut lines,
        Line::pair(
            label("  Success rate: "),
            Span::strong(hundredths(p.valid_entries as u64, p.total_entries as u64), paint),
        ),
    );
    match p.eta_seconds {
        Some(eta) => {
            if eta > 0 && !p.is_complete {
                push_line(
                    &mut lines,
                    Line::pair(
                        label("  ETA: "),
                        Span::strong(format_interval(to_millis(eta)), Paint::Magenta),
                    ),
                );
            }
        },
        None => {},
    }
    push_line(&mut lines, Line::blank());
    assert(line_views(lines@) =~= entry_lines(p@));
    lines
}

/// The sum of the counts, as far as the machine counts.
pub open spec fn total_counted(counts: Seq<AttributeCount>) -> usize {
    if counted(counts) > usize::MAX {
        usize::MAX
    } else {
        counted(counts) as usize
    }
}

/// The line of one attribute type.
pub open spec fn count_line(c: AttributeCount) -> Seq<SpanView> {
    seq![
        plain("    "@),
        painted(type_name_text(c.type_code) + ": "@, Paint::White),
        painted(decimal(c.count as nat), Paint::Yellow),
    ]
}

/// The statistics of the attributes: how many were counted, and the types
/// that came most often.
pub open spec fn attribute_lines(m: AnalysisModel) -> Seq<Seq<SpanView>> {
    let head = seq![
        seq![strong("Attribute Statistics:"@, Paint::Cyan)],
        seq![
            plain("  Total attributes found: "@),
            strong(decimal(total_counted(m.attribute_counts) as nat), Paint::White),
        ],
    ];
    let top = top_counts(m.attribute_counts, TOP_TYPES as nat);
    let listed = if m.attribute_counts.len() > 0 {
        head.push(seq![painted("  Top attribute types:"@, Paint::Blue)]) + Seq::new(
            top.len(),
            |i: int| count_line(top[i]),
        )
    } else {
        head
    };
    listed.push(Seq::empty())
}

fn sum_counts(counts: &Vec<AttributeCount>) -> (sum: usize)
    ensures
        sum == total_counted(counts@),
{
    let mut sum: usize = 0;
    let mut i: usize = 0;
    assert(counts@.take(0) =~= Seq::<AttributeCount>::empty());
    while i < counts.len()
        invariant
            i <= counts.len(),
            sum == total_counted(counts@.take(i as int)),
        decreases counts.len() - i,
    {
        proof {
            assert(counts@.take(i + 1).drop_last() =~= counts@.take(i as int));
        }
        sum = sum.saturating_add(counts[i].count);
        i += 1;
    }
    assert(counts@.take(counts.len() as int) =~= counts@);
    sum
}

fn write_attribute_lines(p: &AnalysisProgress) -> (lines: Vec<Line>)
    ensures
        line_views(lines@) == attribute_lines(p@),
{
    let mut lines = no_lines();
    push_line(
        &mut lines,
        Line::of(Span::strong(String::from_str("Attribute Statistics:"), Paint::Cyan)),
    );
    push_line(
        &mut lines,
        Line::pair(
            label("  Total attributes found: "),
            Span::strong(decimal_string(sum_counts(&p.attribute_counts) as u64), Paint::White),
        ),
    );
    if p.attribute_counts.len() > 0 {
        push_line(
            &mut lines,
            Line::of(Span::painted(String::from_str("  Top attribute types:"), Paint::Blue)),
        );
        let top = largest_counts(&p.attribute_counts, TOP_TYPES);
        let ghost head = line_views(lines@);
        let mut i: usize = 0;
        assert(head + Seq::new(0, |k: int| count_line(top@[k])) =~= head);
        while i < top.len()
            invariant
                i <= top.len(),
                line_views(lines@) == head + Seq::new(i as nat, |k: int| count_line(top@[k])),
            decreases top.len() - i,
        {
            let c = top[i];
            let ghost before = line_views(lines@);
            push_line(
                &mut lines,
                Line::triple(
                    label("    "),
                    Span::painted(framed("", attribute_type_name(c.type_code), ": "), Paint::White),
                    Span::painted(decimal_string(c.count as u64), Paint::Yellow),
                ),
            );
            proof {
                assert(""@ + type_name_text(c.type_code) =~= type_name_text(c.type_code)) by {
                    reveal_strlit("");
                }
                assert(head + Seq::new((i + 1) as nat, |k: int| count_line(top@[k])) =~= before.push(
                    count_line(top@[i as int]),
                ));
            }
            i += 1;
        }
    }
    push_line(&mut lines, Line::blank());
    assert(line_views(lines@) =~= attribute_lines(p@));
    lines
}

/// Number of sample paths that are listed of `found`.
pub open spec fn shown_samples(found: int) -> int {
    if found < SHOWN_SAMPLES {
        found
    } else {
        SHOWN_SAMPLES as int
    }
}

/// The line of one sample path.
pub open spec fn sample_line(i: int, path: Seq<char>) -> Seq<SpanView> {
    seq![
        painted("  "@ + decimal((i + 1) as nat) + ": "@, Paint::Blue),
        painted(path, Paint::LightBlue),
    ]
}

/// The sample paths: a heading and the first of them, where there are any.
pub open spec fn sample_lines(m: AnalysisModel) -> Seq<Seq<SpanView>> {
    if m.sample_paths.len() > 0 {
        let shown = shown_samples(m.sample_paths.len() as int);
        seq![
            seq![
                strong(
                    "Sample File Paths (first "@ + decimal(shown as nat) + " found):"@,
                    Paint::Cyan,
                ),
            ],
        ] + Seq::new(shown as nat, |i: int| sample_line(i, m.sample_paths[i]))
    } else {
        Seq::empty()
    }
}

fn write_sample_lines(p: &AnalysisProgress) -> (lines: Vec<Line>)
    ensures
        line_views(lines@) == sample_lines(p@),
{
    let mut lines = no_lines();
    let found = p.sample_paths.len();
    if found > 0 {
        let shown = if found < SHOWN_SAMPLES {
            found
        } else {
            SHOWN_SAMPLES
        };
        push_line(
            &mut lines,
            Line::of(
                Span::strong(numbered("Sample File Paths (first ", shown, " found):"), Paint::Cyan),
            ),
        );
        let ghost head = line_views(lines@);
        let ghost paths = p@.sample_paths;
        let mut i: usize = 0;
        assert(head + Seq::new(0, |k: int| sample_line(k, paths[k])) =~= head);
        while i < shown
            invariant
                i <= shown <= p.sample_paths.len(),
                paths == p@.sample_paths,
                line_views(lines@) == head + Seq::new(i as nat, |k: int| sample_line(k, paths[k])),
            decreases shown - i,
        {
            let ghost before = line_views(lines@);
            push_line(
                &mut lines,
                Line::pair(
                    Span::painted(numbered("  ", i + 1, ": "), Paint::Blue),
                    Span::painted(p.sample_paths[i].clone(), Paint::LightBlue),
                ),
            );
            proof {
                assert(paths[i as int] == p.sample_paths@[i as int]@);
                assert(head + Seq::new((i + 1) as nat, |k: int| sample_line(k, paths[k]))
                    =~= before.push(sample_line(i as int, paths[i as int])));
            }
            i += 1;
        }
    }
    lines
}

/// The end of the summary: whether the analysis still runs.
pub open spec fn closing_lines(m: AnalysisModel) -> Seq<Seq<SpanView>> {
    seq![
        Seq::empty(),
        if m.is_complete {
            seq![strong("\u{2713} Analysis complete!"@, Paint::Green)]
        } else {
            seq![slanted("Analysis in progress..."@, Paint::Yellow)]
        },
    ]
}

/// The names of the files that were counted.
pub open spec fn structure_lines(m: AnalysisModel) -> Seq<Seq<SpanView>> {
    seq![
        seq![strong("File System Structure:"@, Paint::Cyan)],
        seq![
            plain("  Filename attributes: "@),
            painted(decimal(m.filename_entries as nat), Paint::Magenta),
        ],
        Seq::empty(),
    ]
}

/// The text summary: the statistics of the records, the file names, the
/// attributes, the sample paths, and whether the analysis still runs.
pub open spec fn summary_lines(m: AnalysisModel) -> Seq<Seq<SpanView>> {
    entry_lines(m) + structure_lines(m) + attribute_lines(m) + sample_lines(m) + closing_lines(m)
}

/// Writes the text summary.
pub fn text_summary(p: &AnalysisProgress) -> (lines: Vec<Line>)
    ensures
        line_views(lines@) == summary_lines(p@),
{
    let mut lines = write_entry_lines(p);
    let ghost first = line_views(lines@);
    push_line(
        &mut lines,
        Line::of(Span::strong(String::from_str("File System Structure:"), Paint::Cyan)),
    );
    push_line(
        &mut lines,
        Line::pair(
            label("  Filename attributes: "),
            Span::painted(decimal_string(p.filename_entries as u64), Paint::Magenta),
        ),
    );
    push_line(&mut lines, Line::blank());
    assert(line_views(lines@) =~= first + structure_lines(p@));
    push_lines(&mut lines, write_attribute_lines(p));
    push_lines(&mut lines, write_sample_lines(p));
    let ghost fourth = line_views(lines@);
    push_line(&mut lines, Line::blank());
    if p.is_complete {
        push_line(
            &mut lines,
            Line::of(Span::strong(String::from_str("\u{2713} Analysis complete!"), Paint::Green)),
        );
    } else {
        push_line(
            &mut lines,
            Line::of(Span::slanted(String::from_str("Analysis in progress..."), Paint::Yellow)),
        );
    }
    assert(line_views(lines@) =~= fourth + closing_lines(p@));
    lines
}

/// What a scroll bar shows.
#[derive(Clone, Copy, Debug, PartialEq, Eq, Structural)]
pub struct ScrollInfo {
    /// The number of lines of the whole text.
    pub content_length: usize,
    /// The number of lines that fit.
    pub viewport_length: usize,
    /// The line that the text is scrolled to.
    pub position: usize,
    /// Whether there is more text than fits.
    pub scrollable: bool,
}

/// The scroll bar of a text of `content` lines in an area of `area_height`
/// lines, two of them the border.
pub open spec fn scroll_info(content: usize, area_height: u16, position: u16) -> ScrollInfo {
    let visible: int = if area_height >= 2 {
        area_height - 2
    } else {
        0
    };
    ScrollInfo {
        content_length: content,
        viewport_length: visible as usize,
        position: position as usize,
        scrollable: content > visible,
    }
}

/// Works out the scroll bar of a text.
pub fn scroll_bar(content: usize, area_height: u16, position: u16) -> (info: ScrollInfo)
    ensures
        info == scroll_info(content, area_height, position),
{
    let visible = area_height.saturating_sub(2) as usize;
    ScrollInfo {
        content_length: content,
        viewport_length: visible,
        position: position as usize,
        scrollable: content > visible,
    }
}

} // verus!
