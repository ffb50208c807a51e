//! The tabs of the summary and the way through them.

use vstd::prelude::*;

verus! {

/// A tab of the summary.
#[derive(Clone, Copy, Debug, PartialEq, Eq, Structural)]
pub enum SelectedTab {
    Progress,
    TextSummary,
    Visualization,
    Errors,
}

/// The tabs that can be selected: the errors tab only where there are
/// errors.
pub open spec fn available(has_errors: bool) -> Seq<SelectedTab> {
    if has_errors {
        seq![
            SelectedTab::Progress,
            SelectedTab::TextSummary,
            SelectedTab::Visualization,
            SelectedTab::Errors,
        ]
    } else {
        seq![SelectedTab::Progress, SelectedTab::TextSummary, SelectedTab::Visualization]
    }
}

impl SelectedTab {
    /// The place of the tab in the row.
    pub open spec fn rank(self) -> int {
        match self {
            SelectedTab::Progress => 0,
            SelectedTab::TextSummary => 1,
            SelectedTab::Visualization => 2,
            SelectedTab::Errors => 3,
        }
    }

    /// The tab before this one; the first tab stays, and a tab that cannot
    /// be selected gives way to the first.
    pub open spec fn before(self, has_errors: bool) -> SelectedTab {
        let tabs = available(has_errors);
        if self.rank() >= tabs.len() {
            tabs[0]
        } else if self.rank() == 0 {
            tabs[0]
        } else {
            tabs[self.rank() - 1]
        }
    }

    /// The tab after this one; after the last comes the first, and a tab
    /// that cannot be selected gives way to the first.
    pub open spec fn after(self, has_errors: bool) -> SelectedTab {
        let tabs = available(has_errors);
        if self.rank() >= tabs.len() {
            tabs[0]
        } else {
            tabs[(self.rank() + 1) % (tabs.len() as int)]
        }
    }

    /// The name of the tab.
    pub open spec fn name_text(self) -> Seq<char> {
        match self {
            SelectedTab::Progress => "Progress"@,
            SelectedTab::TextSummary => "Text Summary"@,
            SelectedTab::Visualization => "Visualization"@,
            SelectedTab::Errors => "Errors"@,
        }
    }

    /// The name of the tab.
    pub fn name(self) -> (s: &'static str)
        ensures
            s@ == self.name_text(),
    {
        match self {
            SelectedTab::Progress => "Progress",
            SelectedTab::TextSummary => "Text Summary",
            SelectedTab::Visualization => "Visualization",
            SelectedTab::Errors => "Errors",
        }
    }

    /// The tabs that can be selected.
    pub fn available_tabs(has_errors: bool) -> (tabs: Vec<SelectedTab>)
        ensures
            tabs@ == available(has_errors),
    {
        let mut tabs: Vec<SelectedTab> = Vec::new();
        tabs.push(SelectedTab::Progress);
        tabs.push(SelectedTab::TextSummary);
        tabs.push(SelectedTab::Visualization);
        if has_errors {
            tabs.push(SelectedTab::Errors);
        }
        assert(tabs@ =~= available(has_errors));
        tabs
    }

    fn position(self, tabs: &Vec<SelectedTab>) -> (r: Option<usize>)
        requires
            tabs@ == available(true) || tabs@ == available(false),
        ensures
            self.rank() < tabs@.len() ==> r == Some(self.rank() as usize),
            self.rank() >= tabs@.len() ==> r is None,
    {
        let mut i: usize = 0;
        while i < tabs.len()
            invariant
                i <= tabs.len(),
                tabs@ == available(true) || tabs@ == available(false),
                self.rank() >= i,
            decreases tabs.len() - i,
        {
            if tabs[i] == self {
                return Some(i);
            }
            i += 1;
        }
        None
    }

    /// The tab to the left.
    pub fn previous(self, has_errors: bool) -> (tab: SelectedTab)
        ensures
            tab == self.before(has_errors),
    {
        let tabs = Self::available_tabs(has_errors);
        match self.position(&tabs) {
            Some(current) => tabs[current.saturating_sub(1)],
            None => tabs[0],
        }
    }

    /// The tab to the right.
    pub fn next(self, has_errors: bool) -> (tab: SelectedTab)
        ensures
            tab == self.after(has_errors),
    {
        let tabs = Self::available_tabs(has_errors);
        match self.position(&tabs) {
            Some(current) => tabs[(current + 1) % tabs.len()],
            None => tabs[0],
        }
    }
}

/// Going right and then left comes back, unless the way led around the
/// end of the row.
pub proof fn next_then_previous(tab: SelectedTab, has_errors: bool)
    requires
        tab.rank() + 1 < available(has_errors).len(),
    ensures
        tab.after(has_errors).before(has_errors) == tab,
{
    let tabs = available(has_errors);
    assert(tabs[0] == SelectedTab::Progress);
    assert(tabs[1] == SelectedTab::TextSummary);
    assert(tabs[2] == SelectedTab::Visualization);
    if has_errors {
        assert(tabs[3] == SelectedTab::Errors);
    }
    let n = tabs.len() as int;
    let r = tab.rank();
    assert((r + 1) % n == r + 1) by (nonlinear_arith)
        requires
            0 <= r,
            r + 1 < n,
    ;
    assert(tab.after(has_errors) == tabs[r + 1]);
    assert(tabs[r + 1].rank() == r + 1);
}

/// Every step leads to a tab that can be selected.
pub proof fn steps_stay_available(tab: SelectedTab, has_errors: bool)
    ensures
        available(has_errors).contains(tab.after(has_errors)),
        available(has_errors).contains(tab.before(has_errors)),
{
    let tabs = available(has_errors);
    assert(tabs[0] == SelectedTab::Progress);
    assert(tabs[1] == SelectedTab::TextSummary);
    assert(tabs[2] == SelectedTab::Visualization);
    if has_errors {
        assert(tabs[3] == SelectedTab::Errors);
    }
}

} // verus!
