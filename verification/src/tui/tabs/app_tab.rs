//! One tab of the front end.

use vstd::prelude::*;
use crate::tui::progress::progress_views;
use crate::tui::progress::MftFileProgress;
use crate::tui::progress::ProgressView;
use crate::tui::tabs::errors_tab::all_errors;
use crate::tui::tabs::errors_tab::count_errors;
use crate::tui::tabs::errors_tab::error_count;
use crate::tui::tabs::search_tab::all_paths;
use crate::tui::tabs::search_tab::drawn_range;
use crate::tui::tabs::search_tab::indexed_after;
use crate::tui::tabs::search_tab::search_prepared;

use crate::tui::tabs::errors_tab::by_count;
use crate::tui::tabs::errors_tab::fitted;
use crate::tui::tabs::errors_tab::group_errors;
use crate::tui::tabs::errors_tab::group_views;
use crate::tui::tabs::errors_tab::grouped;
use crate::tui::tabs::errors_tab::ErrorGroup;
use crate::tui::tabs::errors_tab::errors_after_key;
use crate::tui::tabs::errors_tab::errors_handles;
use crate::tui::tabs::errors_tab::ErrorsTab;
use crate::tui::tabs::keys::KeyCode;
use crate::tui::tabs::keys::KeyboardResponse;
use crate::tui::tabs::overview_tab::OverviewTab;
use crate::tui::tabs::search_tab::search_after_key;
use crate::tui::tabs::search_tab::search_handles;
use crate::tui::tabs::search_tab::SearchState;
use crate::tui::tabs::search_tab::SearchTab;
use crate::tui::tabs::visualizer_tab::visualizer_after_key;
use crate::tui::tabs::visualizer_tab::VisualizerTab;

verus! {

/// One of the four tabs.
pub enum AppTab {
    Overview(OverviewTab),
    Visualizer(VisualizerTab),
    Search(SearchTab),
    Errors(ErrorsTab),
}

/// The state of a tab, but for the index of the search tab.
pub enum AppTabView {
    Overview,
    Visualizer(VisualizerTab),
    Search(SearchState),
    Errors(ErrorsTab),
}

/// The state of a tab after a key. `matched` is the number of matches that
/// the search tab has at hand.
pub open spec fn tab_after_key(tab: AppTabView, key: KeyCode, matched: int) -> AppTabView {
    match tab {
        AppTabView::Overview => AppTabView::Overview,
        AppTabView::Visualizer(t) => AppTabView::Visualizer(visualizer_after_key(t, key)),
        AppTabView::Search(s) => AppTabView::Search(search_after_key(s, key, matched)),
        AppTabView::Errors(t) => AppTabView::Errors(errors_after_key(t, key)),
    }
}

/// Whether a tab handles a key.
pub open spec fn tab_handles(tab: AppTabView, key: KeyCode) -> bool {
    match tab {
        AppTabView::Overview => false,
        AppTabView::Visualizer(_) => key == KeyCode::Up || key == KeyCode::Down,
        AppTabView::Search(_) => search_handles(key),
        AppTabView::Errors(_) => errors_handles(key),
    }
}

impl AppTab {
    /// The state of the tab.
    pub open spec fn state(&self) -> AppTabView {
        match self {
            AppTab::Overview(_) => AppTabView::Overview,
            AppTab::Visualizer(t) => AppTabView::Visualizer(*t),
            AppTab::Search(t) => AppTabView::Search(t.state()),
            AppTab::Errors(t) => AppTabView::Errors(*t),
        }
    }

    /// The number of matches that the tab has at hand: zero for any tab but
    /// the search tab.
    pub open spec fn matched(&self) -> nat {
        match self {
            AppTab::Search(t) => t.matched(),
            _ => 0,
        }
    }

    /// The entries in the index of the tab: none for any tab but the search
    /// tab.
    pub open spec fn indexed(&self) -> Seq<(Seq<char>, Option<i64>, Option<i64>, Option<i64>)> {
        match self {
            AppTab::Search(t) => t.indexed(),
            _ => Seq::empty(),
        }
    }

    /// The title of the tab.
    pub open spec fn title_text(&self) -> Seq<char> {
        match self {
            AppTab::Overview(_) => "Overview"@,
            AppTab::Visualizer(_) => "Visualizer"@,
            AppTab::Search(_) => "Search"@,
            AppTab::Errors(_) => "Errors"@,
        }
    }

    /// The title of the tab.
    pub fn title(&self) -> (s: &'static str)
        ensures
            s@ == self.title_text(),
    {
        match self {
            AppTab::Overview(_) => "Overview",
            AppTab::Visualizer(_) => "Visualizer",
            AppTab::Search(_) => "Search",
            AppTab::Errors(_) => "Errors",
        }
    }

    /// Hands a key to the tab.
    pub fn on_key(&mut self, key: KeyCode) -> (response: KeyboardResponse)
        ensures
            final(self).state() == tab_after_key(old(self).state(), key, old(self).matched() as int),
            final(self).indexed() == old(self).indexed(),
            final(self).matched() == old(self).matched(),
            response == (if tab_handles(old(self).state(), key) {
                KeyboardResponse::Consume
            } else {
                KeyboardResponse::Pass
            }),
    {
        match self {
            AppTab::Overview(tab) => tab.on_key(key),
            AppTab::Visualizer(tab) => tab.on_key(key),
            AppTab::Search(tab) => tab.on_key(key),
            AppTab::Errors(tab) => tab.on_key(key),
        }
    }
}

/// What a tab needs to be drawn, worked out for one frame.
#[derive(Debug)]
pub enum Prepared {
    /// The overview draws the files as they are.
    Overview,
    /// The visualizer draws the selected file, if there is any file.
    Visualizer { any_file: bool },
    /// The search tab draws the matches of these ranks.
    Search { start: usize, end: usize },
    /// The errors tab draws these groups, or the raw list.
    Errors { groups: Vec<ErrorGroup>, total: usize },
}

/// The height of the list of a tab whose body has `height` lines: one line
/// is the heading.
pub open spec fn list_height(height: usize) -> usize {
    if height > 0 {
        (height - 1) as usize
    } else {
        0
    }
}

/// Whether a tab was brought up to date for a frame with a body of `height`
/// lines over the files `files`. `before` and `after` are its states,
/// `indexed_before` and `indexed_after` the entries of its index, `matched`
/// the number of matches that it has afterwards, and `p` what it hands to
/// the one who draws.
///
/// The overview stays. The visualizer goes back to a file that exists and
/// says whether there is one. The search tab indexes what is new, fits its
/// list, of which one line is the query, to the matches at hand, and gives
/// the ranks to draw. The errors tab gives the errors grouped by message,
/// the most frequent first, and their number, and fits its list, of which
/// one line is the heading, to the groups or to the raw list.
pub open spec fn frame_prepared(
    before: AppTabView,
    indexed_before: Seq<(Seq<char>, Option<i64>, Option<i64>, Option<i64>)>,
    after: AppTabView,
    indexed_now: Seq<(Seq<char>, Option<i64>, Option<i64>, Option<i64>)>,
    matched: nat,
    p: Prepared,
    files: Seq<ProgressView>,
    height: usize,
) -> bool {
    match before {
        AppTabView::Overview => p is Overview && after is Overview && indexed_now == indexed_before,
        AppTabView::Visualizer(tab) => p is Visualizer && p->any_file == (files.len() > 0) && after
            == AppTabView::Visualizer(
            if files.len() > 0 && tab.selected_file >= files.len() {
                VisualizerTab { selected_file: (files.len() - 1) as usize }
            } else {
                tab
            },
        ) && indexed_now == indexed_before,
        AppTabView::Search(tab) => p is Search && after == AppTabView::Search(
            search_prepared(tab, list_height(height), all_paths(files), matched as int),
        ) && indexed_now == indexed_after(indexed_before, tab.last_file_count, all_paths(files))
            && (matched > 0 ==> (p->start as int, p->end as int) == drawn_range(
            after->Search_0,
            matched as int,
        )) && (matched == 0 ==> p->start == 0 && p->end == 0),
        AppTabView::Errors(tab) => p is Errors && group_views(p->groups@) == by_count(
            grouped(all_errors(files)),
        ) && p->total == error_count(files) && after == AppTabView::Errors(
            fitted(
                tab,
                if tab.show_grouped {
                    p->groups@.len() as int
                } else {
                    p->total as int
                },
                list_height(height) as int,
            ),
        ) && indexed_now == indexed_before,
    }
}

impl AppTab {
    /// Brings the tab up to date for a frame with a body of `height` lines:
    /// the visualizer goes back to a file that exists; the search tab
    /// indexes what is new and fits its list, of which one line is the
    /// query; the errors tab groups the errors and fits its list, of which
    /// one line is the heading.
    pub fn prepare(&mut self, mft_files: &Vec<MftFileProgress>, height: usize) -> (p: Prepared)
        ensures
            frame_prepared(
                old(self).state(),
                old(self).indexed(),
                final(self).state(),
                final(self).indexed(),
                final(self).matched(),
                p,
                progress_views(mft_files@),
                height,
            ),
    {
        let list_height = height.saturating_sub(1);
        match self {
            AppTab::Overview(_) => Prepared::Overview,
            AppTab::Visualizer(tab) => {
                let any_file = tab.clamp(mft_files.len());
                Prepared::Visualizer { any_file }
            },
            AppTab::Search(tab) => {
                let range = tab.prepare(mft_files, list_height);
                Prepared::Search { start: range.0, end: range.1 }
            },
            AppTab::Errors(tab) => {
                let groups = group_errors(mft_files);
                let total = count_errors(mft_files);
                let len = if tab.show_grouped {
                    groups.len()
                } else {
                    total
                };
                tab.fit(len, list_height);
                Prepared::Errors { groups, total }
            },
        }
    }
}

} // verus!
