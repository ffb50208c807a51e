//! What the tabs draw, as plain values: the rows of a list with the one
//! that is selected, the headings, and the notes that stand for an empty
//! list.

use vstd::prelude::*;
use vstd::string::*;
use crate::fuzzy::IndexEntry;
use crate::styled::Paint;
use crate::numbers::above;
use crate::numbers::is_above;
use crate::numbers::scale_share;
use crate::numbers::scaled;
use crate::numbers::tenths;
use crate::numbers::tenths_text;
use crate::text::decimal;
use crate::text::framed;
use crate::text::numbered;
use crate::text::texts;
use crate::tui::progress::count_healthy;
use crate::tui::progress::progress_views;
use crate::tui::progress::MftFileProgress;
use crate::tui::progress::ProgressView;
use crate::tui::tabs::errors_tab::all_errors;
use crate::tui::tabs::errors_tab::group_views;
use crate::tui::tabs::errors_tab::ErrorGroup;
use crate::tui::tabs::errors_tab::ErrorGroupView;
use crate::tui::tabs::errors_tab::ErrorsTab;
use crate::tui::tabs::overview_tab::file_name_of;
use crate::tui::tabs::overview_tab::file_name_text;

verus! {

/// One row of a list.
#[derive(Debug)]
pub struct ListRow {
    pub text: String,
    /// Whether the row is the selected one, which is drawn in black on
    /// yellow.
    pub selected: bool,
}

/// The mathematical value of a [`ListRow`].
pub struct ListRowView {
    pub text: Seq<char>,
    pub selected: bool,
}

impl View for ListRow {
    type V = ListRowView;

    open spec fn view(&self) -> ListRowView {
        ListRowView { text: self.text@, selected: self.selected }
    }
}

/// The values of rows.
pub open spec fn row_views(rows: Seq<ListRow>) -> Seq<ListRowView> {
    rows.map_values(|r: ListRow| r@)
}

/// Number of rows that are drawn of a list of `len` rows that is scrolled
/// to row `scroll` in `height` lines.
pub open spec fn window_len(len: int, scroll: int, height: int) -> int {
    if scroll >= len {
        0
    } else if len - scroll < height {
        len - scroll
    } else {
        height
    }
}

/// The rows that are drawn of a list that is scrolled to row `scroll` in
/// `height` lines, with row `selected` marked.
pub open spec fn windowed(texts: Seq<Seq<char>>, scroll: int, selected: int, height: int) -> Seq<
    ListRowView,
> {
    Seq::new(
        window_len(texts.len() as int, scroll, height) as nat,
        |i: int| ListRowView { text: texts[scroll + i], selected: scroll + i == selected },
    )
}

/// Picks the rows that are drawn.
pub fn window_rows(lines: &Vec<String>, scroll: usize, selected: usize, height: usize) -> (rows:
    Vec<ListRow>)
    ensures
        row_views(rows@) == windowed(texts(lines@), scroll as int, selected as int, height as int),
{
    let mut rows: Vec<ListRow> = Vec::new();
    let len = lines.len();
    let count = if scroll >= len {
        0
    } else if len - scroll < height {
        len - scroll
    } else {
        height
    };
    let mut i: usize = 0;
    while i < count
        invariant
            i <= count,
            count == window_len(lines@.len() as int, scroll as int, height as int),
            len == lines@.len(),
            count == 0 || scroll + count <= len,
            rows@.len() == i,
            forall|k: int|
                0 <= k < i ==> (#[trigger] rows@[k])@ == (ListRowView {
                    text: lines@[scroll + k]@,
                    selected: scroll + k == selected,
                }),
        decreases count - i,
    {
        rows.push(ListRow { text: lines[scroll + i].clone(), selected: scroll + i == selected });
        i += 1;
    }
    assert(row_views(rows@) =~= windowed(
        texts(lines@),
        scroll as int,
        selected as int,
        height as int,
    ));
    rows
}

/// The heading of the errors tab.
pub open spec fn errors_heading_text(show_grouped: bool) -> Seq<char> {
    if show_grouped {
        "Errors (grouped, press 'g' to toggle)"@
    } else {
        "Errors (raw, press 'g' to toggle)"@
    }
}

/// The heading of the errors tab.
pub fn errors_heading(show_grouped: bool) -> (s: &'static str)
    ensures
        s@ == errors_heading_text(show_grouped),
{
    if show_grouped {
        "Errors (grouped, press 'g' to toggle)"
    } else {
        "Errors (raw, press 'g' to toggle)"
    }
}

/// The row of a group of errors: how often the message was logged, by how
/// many files, and the message.
pub open spec fn group_text(g: ErrorGroupView) -> Seq<char> {
    "["@ + decimal(g.count as nat) + "x across "@ + decimal(g.files.len()) + " file(s)] "@
        + g.message
}

/// The rows of the groups.
pub open spec fn grouped_texts(groups: Seq<ErrorGroupView>) -> Seq<Seq<char>> {
    Seq::new(groups.len(), |i: int| group_text(groups[i]))
}

/// The row of one error in the raw list: the name of its file, and the
/// message.
pub open spec fn raw_text(path: Seq<char>, message: Seq<char>) -> Seq<char> {
    "["@ + file_name_text(path) + "] "@ + message
}

/// The rows of the errors of one file.
pub open spec fn raw_texts_of(file: ProgressView) -> Seq<Seq<char>> {
    Seq::new(file.errors.len(), |i: int| raw_text(file.path, file.errors[i]))
}

/// The rows of the raw list: every error of every file, file after file.
pub open spec fn raw_texts(files: Seq<ProgressView>) -> Seq<Seq<char>>
    decreases files.len(),
{
    if files.len() == 0 {
        Seq::empty()
    } else {
        raw_texts(files.drop_last()) + raw_texts_of(files.last())
    }
}

/// The raw list has one row for each error.
pub proof fn raw_texts_len(files: Seq<ProgressView>)
    ensures
        raw_texts(files).len() == all_errors(files).len(),
    decreases files.len(),
{
    if files.len() > 0 {
        raw_texts_len(files.drop_last());
    }
}

/// Writes the rows of the groups.
pub fn group_lines(groups: &Vec<ErrorGroup>) -> (lines: Vec<String>)
    ensures
        texts(lines@) == grouped_texts(group_views(groups@)),
{
    let mut lines: Vec<String> = Vec::new();
    let mut i: usize = 0;
    while i < groups.len()
        invariant
            i <= groups.len(),
            lines@.len() == i,
            forall|k: int| 0 <= k < i ==> (#[trigger] lines@[k])@ == group_text(groups@[k]@),
        decreases groups.len() - i,
    {
        let g = &groups[i];
        let mut line = numbered("[", g.count, "x across ");
        let files = numbered("", g.files.len(), " file(s)] ");
        proof {
            reveal_strlit("");
            assert(""@ + decimal(g.files@.len()) =~= decimal(g.files@.len()));
        }
        line.append(files.as_str());
        line.append(g.message.as_str());
        lines.push(line);
        i += 1;
    }
    assert(texts(lines@) =~= grouped_texts(group_views(groups@)));
    lines
}

/// Writes the rows of the raw list.
pub fn raw_lines(mft_files: &Vec<MftFileProgress>) -> (lines: Vec<String>)
    ensures
        texts(lines@) == raw_texts(progress_views(mft_files@)),
{
    let ghost views = progress_views(mft_files@);
    let mut lines: Vec<String> = Vec::new();
    let mut f: usize = 0;
    proof {
        assert(views.take(0) =~= Seq::<ProgressView>::empty());
        assert(texts(lines@) =~= Seq::<Seq<char>>::empty());
    }
    while f < mft_files.len()
        invariant
            f <= mft_files.len(),
            views == progress_views(mft_files@),
            texts(lines@) == raw_texts(views.take(f as int)),
        decreases mft_files.len() - f,
    {
        let file = &mft_files[f];
        let name = file_name_of(file.path.as_str());
        let ghost head = texts(lines@);
        let ghost view = views[f as int];
        proof {
            assert(views.take(f + 1).drop_last() =~= views.take(f as int));
            assert(views.take(f + 1).last() == view);
            assert(view == file@);
        }
        let mut e: usize = 0;
        assert(head + Seq::new(0, |k: int| raw_text(view.path, view.errors[k])) =~= head);
        while e < file.errors.len()
            invariant
                e <= file.errors.len(),
                view == file@,
                name@ == file_name_text(view.path),
                texts(lines@) == head + Seq::new(
                    e as nat,
                    |k: int| raw_text(view.path, view.errors[k]),
                ),
            decreases file.errors.len() - e,
        {
            let ghost before = texts(lines@);
            let mut line = framed("[", name.as_str(), "] ");
            line.append(file.errors[e].as_str());
            lines.push(line);
            proof {
                assert(view.errors[e as int] == file.errors@[e as int]@);
                assert(texts(lines@) =~= before.push(raw_text(view.path, view.errors[e as int])));
                assert(head + Seq::new((e + 1) as nat, |k: int| raw_text(view.path, view.errors[k]))
                    =~= before.push(raw_text(view.path, view.errors[e as int])));
            }
            e += 1;
        }
        proof {
            assert(Seq::new(file.errors@.len(), |k: int| raw_text(view.path, view.errors[k]))
                =~= raw_texts_of(view));
        }
        f += 1;
    }
    assert(views.take(mft_files.len() as int) =~= views);
    lines
}

impl ErrorsTab {
    /// The rows that the tab draws: of the groups or of the raw list, as far
    /// as they fit below the heading, from where the tab is scrolled to. No
    /// rows are left where nothing was logged.
    pub open spec fn drawn(self, files: Seq<ProgressView>, groups: Seq<ErrorGroupView>, height: int)
        -> Seq<ListRowView> {
        windowed(
            if self.show_grouped {
                grouped_texts(groups)
            } else {
                raw_texts(files)
            },
            self.scroll_offset as int,
            self.selected_index as int,
            height,
        )
    }

    /// Writes the rows that the tab draws in `height` lines below the
    /// heading.
    pub fn rows(&self, mft_files: &Vec<MftFileProgress>, groups: &Vec<ErrorGroup>, height: usize)
        -> (rows: Vec<ListRow>)
        ensures
            row_views(rows@) == self.drawn(
                progress_views(mft_files@),
                group_views(groups@),
                height as int,
            ),
    {
        let lines = if self.show_grouped {
            group_lines(groups)
        } else {
            raw_lines(mft_files)
        };
        window_rows(&lines, self.scroll_offset, self.selected_index, height)
    }
}

/// The line above the matches, with the query.
pub open spec fn prompt_text(query: Seq<char>) -> Seq<char> {
    "Search: "@ + query + " (Type to search, \u{2191}\u{2193} to navigate, PgUp/PgDn to scroll)"@
}

/// Writes the line above the matches.
pub fn search_prompt(query: &str) -> (s: String)
    ensures
        s@ == prompt_text(query@),
{
    framed("Search: ", query, " (Type to search, \u{2191}\u{2193} to navigate, PgUp/PgDn to scroll)")
}

/// The note that stands for the matches while there are none.
pub open spec fn no_matches_text(query: Seq<char>) -> Seq<char> {
    if query.len() == 0 {
        "No files discovered yet. Files will appear here as MFT processing progresses."@
    } else {
        "No files found matching search criteria."@
    }
}

/// The note that stands for the matches while there are none.
pub fn no_matches(query: &str) -> (s: &'static str)
    ensures
        s@ == no_matches_text(query@),
{
    if query.unicode_len() == 0 {
        "No files discovered yet. Files will appear here as MFT processing progresses."
    } else {
        "No files found matching search criteria."
    }
}

/// The colour of the matches that are not selected: white while there is a
/// query.
pub open spec fn match_paint(query: Seq<char>) -> Paint {
    if query.len() == 0 {
        Paint::Plain
    } else {
        Paint::White
    }
}

/// The colour of the matches that are not selected.
pub fn paint_of_matches(query: &str) -> (paint: Paint)
    ensures
        paint == match_paint(query@),
{
    if query.unicode_len() == 0 {
        Paint::Plain
    } else {
        Paint::White
    }
}

/// The rows of the matches of the ranks from `start` on, with the match of
/// rank `selected` marked.
pub open spec fn match_rows(paths: Seq<Seq<char>>, start: int, selected: int) -> Seq<ListRowView> {
    Seq::new(
        paths.len(),
        |i: int| ListRowView { text: paths[i], selected: start + i == selected },
    )
}

/// The paths of entries.
pub open spec fn entry_paths(items: Seq<IndexEntry>) -> Seq<Seq<char>> {
    Seq::new(items.len(), |i: int| items[i].path@)
}

/// Writes the rows of the matches of the ranks from `start` on.
pub fn search_rows(items: &Vec<IndexEntry>, start: usize, selected: usize) -> (rows: Vec<ListRow>)
    ensures
        row_views(rows@) == match_rows(entry_paths(items@), start as int, selected as int),
{
    let mut rows: Vec<ListRow> = Vec::new();
    let mut i: usize = 0;
    while i < items.len()
        invariant
            i <= items.len(),
            rows@.len() == i,
            forall|k: int|
                0 <= k < i ==> (#[trigger] rows@[k])@ == (ListRowView {
                    text: items@[k].path@,
                    selected: start + k == selected,
                }),
        decreases items.len() - i,
    {
        let marked = match start.checked_add(i) {
            Some(rank) => rank == selected,
            None => false,
        };
        rows.push(ListRow { text: items[i].path.clone(), selected: marked });
        i += 1;
    }
    assert(row_views(rows@) =~= match_rows(entry_paths(items@), start as int, selected as int));
    rows
}

/// The line above the health grid: which file it shows.
pub open spec fn selector_text(selected: usize, files: Seq<ProgressView>) -> Seq<char> {
    "File "@ + decimal((selected + 1) as nat) + "/"@ + decimal(files.len()) + ": "@
        + file_name_text(files[selected as int].path) + " (Use \u{2191}\u{2193} to navigate)"@
}

/// Writes the line above the health grid; nothing where the selected file
/// does not exist.
pub fn file_selector(selected: usize, mft_files: &Vec<MftFileProgress>) -> (s: Option<String>)
    ensures
        selected < mft_files@.len() ==> s is Some && s->0@ == selector_text(
            selected,
            progress_views(mft_files@),
        ),
        selected >= mft_files@.len() ==> s is None,
{
    if selected >= mft_files.len() {
        return None;
    }
    let mut line = numbered("File ", selected + 1, "/");
    let count = numbered("", mft_files.len(), ": ");
    proof {
        reveal_strlit("");
        assert(""@ + decimal(mft_files@.len()) =~= decimal(mft_files@.len()));
        assert(progress_views(mft_files@)[selected as int] == mft_files@[selected as int]@);
    }
    line.append(count.as_str());
    let name = file_name_of(mft_files[selected].path.as_str());
    line.append(name.as_str());
    line.append(" (Use \u{2191}\u{2193} to navigate)");
    Some(line)
}

/// The health of the records of a file in one line with its colour: green
/// where more than 90 in a hundred are healthy, yellow above 70, red
/// otherwise.
pub struct HealthGauge {
    pub label: String,
    pub paint: Paint,
    /// The share of healthy records in per cent, rounded down.
    pub percent: u64,
}

/// The label of the gauge.
pub open spec fn gauge_text(healthy: usize, total: usize) -> Seq<char> {
    "Healthy entries: "@ + decimal(healthy as nat) + "/"@ + decimal(total as nat) + " ("@
        + tenths_text(healthy as u64, total as u64) + ")"@
}

/// The colour of the gauge.
pub open spec fn gauge_paint(healthy: usize, total: usize) -> Paint {
    if above(healthy as u64, total as u64, 90) {
        Paint::Green
    } else if above(healthy as u64, total as u64, 70) {
        Paint::Yellow
    } else {
        Paint::Red
    }
}

/// Writes the gauge of a file.
pub fn health_gauge(file: &MftFileProgress) -> (g: HealthGauge)
    ensures
        g.label@ == gauge_text(
            count_healthy(file@.entry_health_statuses) as usize,
            file@.entry_health_statuses.len() as usize,
        ),
        g.paint == gauge_paint(
            count_healthy(file@.entry_health_statuses) as usize,
            file@.entry_health_statuses.len() as usize,
        ),
        g.percent == scaled(
            count_healthy(file@.entry_health_statuses) as u64,
            file@.entry_health_statuses.len() as u64,
            100,
        ),
{
    let healthy = file.healthy_entries();
    let total = file.entry_health_statuses.len();
    let mut label = numbered("Healthy entries: ", healthy, "/");
    let all = numbered("", total, " (");
    proof {
        reveal_strlit("");
        assert(""@ + decimal(total as nat) =~= decimal(total as nat));
    }
    label.append(all.as_str());
    let share = tenths(healthy as u64, total as u64);
    label.append(share.as_str());
    label.append(")");
    let paint = if is_above(healthy as u64, total as u64, 90) {
        Paint::Green
    } else if is_above(healthy as u64, total as u64, 70) {
        Paint::Yellow
    } else {
        Paint::Red
    };
    HealthGauge { label, paint, percent: scale_share(healthy as u64, total as u64, 100) }
}

} // verus!
