//! The row of tabs and the selected one.

use vstd::prelude::*;
use crate::tui::progress::progress_views;
use crate::tui::tabs::app_tab::frame_prepared;
use crate::tui::tabs::app_tab::tab_after_key;
use crate::tui::tabs::app_tab::tab_handles;
use crate::tui::tabs::app_tab::AppTab;
use crate::tui::progress::MftFileProgress;
use crate::tui::tabs::app_tab::AppTabView;
use crate::tui::tabs::app_tab::Prepared;
use crate::tui::tabs::errors_tab::ErrorsTab;
use crate::tui::tabs::keys::KeyCode;
use crate::tui::tabs::keys::KeyboardResponse;
use crate::tui::tabs::overview_tab::OverviewTab;
use crate::tui::tabs::search_tab::SearchTab;
use crate::tui::tabs::visualizer_tab::VisualizerTab;

verus! {

/// The tabs of the front end.
pub struct AppTabs {
    tabs: Vec<AppTab>,
    selected: usize,
}

/// The states of a row of tabs.
pub open spec fn tab_states(tabs: Seq<AppTab>) -> Seq<AppTabView> {
    tabs.map_values(|t: AppTab| t.state())
}

impl AppTabs {
    /// The states of the tabs, from left to right.
    pub closed spec fn states(&self) -> Seq<AppTabView> {
        tab_states(self.tabs@)
    }

    /// The index of the selected tab.
    pub closed spec fn selection(&self) -> int {
        self.selected as int
    }

    /// The number of matches that the selected tab has at hand.
    pub closed spec fn matched(&self) -> nat {
        self.tabs@[self.selected as int].matched()
    }

    /// The entries in the index of the selected tab.
    pub closed spec fn indexed(&self) -> Seq<(Seq<char>, Option<i64>, Option<i64>, Option<i64>)> {
        self.tabs@[self.selected as int].indexed()
    }

    /// There is a selected tab.
    pub closed spec fn wf(&self) -> bool {
        self.selected < self.tabs@.len()
    }

    /// The four tabs, the overview selected.
    pub fn new() -> (tabs: Self)
        ensures
            tabs.wf(),
            tabs.selection() == 0,
            tabs.states().len() == 4,
            tabs.states()[0] is Overview,
            tabs.states()[1] is Visualizer,
            tabs.states()[2] is Search,
            tabs.states()[3] is Errors,
            tabs.titles() == seq!["Overview"@, "Visualizer"@, "Search"@, "Errors"@],
    {
        let mut tabs: Vec<AppTab> = Vec::new();
        tabs.push(AppTab::Overview(OverviewTab::new()));
        tabs.push(AppTab::Visualizer(VisualizerTab::new()));
        tabs.push(AppTab::Search(SearchTab::new()));
        tabs.push(AppTab::Errors(ErrorsTab::new()));
        let all = AppTabs { tabs, selected: 0 };
        assert(all.titles() =~= seq!["Overview"@, "Visualizer"@, "Search"@, "Errors"@]);
        all
    }

    /// The index of the selected tab.
    pub fn selected(&self) -> (i: usize)
        ensures
            i == self.selection(),
    {
        self.selected
    }

    /// The number of tabs.
    pub fn len(&self) -> (n: usize)
        ensures
            n == self.states().len(),
    {
        self.tabs.len()
    }

    /// The titles of the tabs, from left to right.
    pub closed spec fn titles(&self) -> Seq<Seq<char>> {
        self.tabs@.map_values(|t: AppTab| t.title_text())
    }

    /// The title of tab `i`.
    pub fn title(&self, i: usize) -> (s: &'static str)
        requires
            i < self.states().len(),
        ensures
            s@ == self.titles()[i as int],
    {
        self.tabs[i].title()
    }

    /// Handles a key: `Left` and `Right` select the neighbouring tab, within
    /// the row; any other key goes to the selected tab.
    pub fn on_key(&mut self, key: KeyCode) -> (response: KeyboardResponse)
        requires
            old(self).wf(),
        ensures
            final(self).wf(),
            final(self).states().len() == old(self).states().len(),
            key == KeyCode::Left ==> response == KeyboardResponse::Consume && final(self).states()
                == old(self).states() && final(self).selection() == (if old(self).selection()
                > 0 {
                old(self).selection() - 1
            } else {
                0
            }),
            key == KeyCode::Right ==> response == KeyboardResponse::Consume && final(self).states() == old(self).states() && final(self).selection() == (if old(self).selection() < old(self).states().len() - 1 {
                old(self).selection() + 1
            } else {
                old(self).selection()
            }),
            key != KeyCode::Left && key != KeyCode::Right ==> final(self).selection() == old(self).selection() && final(self).states() == old(self).states().update(
                old(self).selection(),
                tab_after_key(
                    old(self).states()[old(self).selection()],
                    key,
                    old(self).matched() as int,
                ),
            ) && response == (if tab_handles(old(self).states()[old(self).selection()], key) {
                KeyboardResponse::Consume
            } else {
                KeyboardResponse::Pass
            }),
    {
        match key {
            KeyCode::Left => {
                if self.selected > 0 {
                    self.selected -= 1;
                }
                KeyboardResponse::Consume
            },
            KeyCode::Right => {
                if self.selected < self.tabs.len() - 1 {
                    self.selected += 1;
                }
                KeyboardResponse::Consume
            },
            _ => {
                let ghost before = self.tabs@;
                let response = self.tabs[self.selected].on_key(key);
                proof {
                    assert(tab_states(self.tabs@) =~= tab_states(before).update(
                        self.selected as int,
                        self.tabs@[self.selected as int].state(),
                    ));
                }
                response
            },
        }
    }
}

impl Default for AppTabs {
    fn default() -> (tabs: Self)
        ensures
            tabs.wf(),
            tabs.selection() == 0,
    {
        AppTabs::new()
    }
}

impl AppTabs {
    /// Tells whether there is a selected tab.
    pub fn is_well_formed(&self) -> (b: bool)
        ensures
            b == self.wf(),
    {
        self.selected < self.tabs.len()
    }

    /// Tab `i`.
    pub fn tab(&self, i: usize) -> (t: &AppTab)
        requires
            i < self.states().len(),
        ensures
            t.state() == self.states()[i as int],
    {
        &self.tabs[i]
    }

    /// Brings the selected tab up to date for a frame with a body of
    /// `height` lines, and hands out what is to be drawn of it. The other
    /// tabs and the selection stay.
    pub fn prepare(&mut self, mft_files: &Vec<MftFileProgress>, height: usize) -> (p: Prepared)
        requires
            old(self).wf(),
        ensures
            final(self).wf(),
            final(self).selection() == old(self).selection(),
            final(self).states().len() == old(self).states().len(),
            forall|i: int|
                0 <= i < old(self).states().len() && i != old(self).selection() ==> final(self).states()[i] == old(self).states()[i],
            frame_prepared(
                old(self).states()[old(self).selection()],
                old(self).indexed(),
                final(self).states()[old(self).selection()],
                final(self).indexed(),
                final(self).matched(),
                p,
                progress_views(mft_files@),
                height,
            ),
    {
        let ghost before = self.tabs@;
        let p = self.tabs[self.selected].prepare(mft_files, height);
        proof {
            assert forall|i: int|
                0 <= i < before.len() && i != self.selected implies tab_states(self.tabs@)[i]
                == tab_states(before)[i] by {
                assert(self.tabs@[i] == before[i]);
            }
        }
        p
    }
}

} // verus!
