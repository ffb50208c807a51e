//! The state of the summary front end and what each key does to it.

use vstd::prelude::*;
use crate::summary::progress::summary_after;
use crate::summary::progress::AnalysisProgress;
use crate::summary::progress::ProgressMessage;
use crate::summary::selected_tab::SelectedTab;
use crate::tui::tabs::keys::KeyCode;

verus! {

/// Whether the front end goes on.
#[derive(Clone, Copy, Debug, PartialEq, Eq, Structural)]
pub enum ApplicationState {
    Running,
    Quitting,
}

/// More errors than this make the errors tab scroll faster.
pub const MANY_ERRORS: usize = 100;

/// Where `End` scrolls the text summary to.
pub const TEXT_END: u16 = 1000;

/// What a key can change.
#[derive(Clone, Copy, Debug, PartialEq, Eq, Structural)]
pub struct SummaryControls {
    pub application_state: ApplicationState,
    pub selected_tab: SelectedTab,
    pub text_scroll_position: u16,
    pub last_text_area_height: u16,
    pub show_legend: bool,
    pub is_paused: bool,
}

/// Whether a tab shows text that scrolls.
pub open spec fn scrolls(tab: SelectedTab) -> bool {
    tab == SelectedTab::TextSummary || tab == SelectedTab::Errors
}

/// Whether the errors tab is shown with many errors.
pub open spec fn crowded(tab: SelectedTab, errors: int) -> bool {
    tab == SelectedTab::Errors && errors > MANY_ERRORS
}

/// The lines that an arrow key scrolls by.
pub open spec fn line_step(tab: SelectedTab, errors: int) -> int {
    if crowded(tab, errors) {
        2
    } else {
        1
    }
}

/// The lines that a page key scrolls by.
pub open spec fn page_step(tab: SelectedTab, errors: int, height: int) -> int {
    if crowded(tab, errors) {
        if height > 10 {
            height
        } else {
            10
        }
    } else if height / 2 > 1 {
        height / 2
    } else {
        1
    }
}

/// `position + by`, cut off at the largest 16-bit value.
pub open spec fn scrolled_down(position: int, by: int) -> u16 {
    if position + by > u16::MAX {
        u16::MAX
    } else {
        (position + by) as u16
    }
}

/// `position - by`, cut off at zero.
pub open spec fn scrolled_up(position: int, by: int) -> u16 {
    if position < by {
        0
    } else {
        (position - by) as u16
    }
}

/// Twice the number of errors less half the height, but not below zero and
/// not above the largest value of the machine.
pub open spec fn errors_end(errors: int, height: int) -> int {
    let lines = if errors * 2 > usize::MAX {
        usize::MAX as int
    } else {
        errors * 2
    };
    if lines < height / 2 {
        0
    } else {
        lines - height / 2
    }
}

/// Where `End` scrolls to: for the errors tab the last lines of the list,
/// taken modulo 65536; for the text summary a fixed far position.
pub open spec fn end_position(tab: SelectedTab, errors: int, height: int) -> u16 {
    if tab == SelectedTab::Errors {
        (errors_end(errors, height) % 65536) as u16
    } else {
        TEXT_END
    }
}

/// The controls after a key, with `errors` errors recorded.
pub open spec fn controls_after_key(c: SummaryControls, key: KeyCode, errors: int)
    -> SummaryControls {
    let has_errors = errors > 0;
    let toward_next = SummaryControls {
        selected_tab: c.selected_tab.after(has_errors),
        text_scroll_position: 0,
        ..c
    };
    let toward_previous = SummaryControls {
        selected_tab: c.selected_tab.before(has_errors),
        text_scroll_position: 0,
        ..c
    };
    let down = if scrolls(c.selected_tab) {
        SummaryControls {
            text_scroll_position: scrolled_down(
                c.text_scroll_position as int,
                line_step(c.selected_tab, errors),
            ),
            ..c
        }
    } else {
        c
    };
    let up = if scrolls(c.selected_tab) {
        SummaryControls {
            text_scroll_position: scrolled_up(
                c.text_scroll_position as int,
                line_step(c.selected_tab, errors),
            ),
            ..c
        }
    } else {
        c
    };
    let quit = SummaryControls { application_state: ApplicationState::Quitting, ..c };
    match key {
        KeyCode::Right => toward_next,
        KeyCode::Left => toward_previous,
        KeyCode::Down => down,
        KeyCode::Up => up,
        KeyCode::Esc => quit,
        KeyCode::Char(ch) => if ch == 'l' {
            toward_next
        } else if ch == 'h' {
            if c.selected_tab == SelectedTab::Visualization {
                SummaryControls { show_legend: !c.show_legend, ..c }
            } else {
                toward_previous
            }
        } else if ch == 'p' {
            SummaryControls { is_paused: !c.is_paused, ..c }
        } else if ch == 'j' {
            down
        } else if ch == 'k' {
            up
        } else if ch == 'q' {
            quit
        } else {
            c
        },
        KeyCode::PageDown => if scrolls(c.selected_tab) {
            SummaryControls {
                text_scroll_position: scrolled_down(
                    c.text_scroll_position as int,
                    page_step(c.selected_tab, errors, c.last_text_area_height as int),
                ),
                ..c
            }
        } else {
            c
        },
        KeyCode::PageUp => if scrolls(c.selected_tab) {
            SummaryControls {
                text_scroll_position: scrolled_up(
                    c.text_scroll_position as int,
                    page_step(c.selected_tab, errors, c.last_text_area_height as int),
                ),
                ..c
            }
        } else {
            c
        },
        KeyCode::Home => if scrolls(c.selected_tab) {
            SummaryControls { text_scroll_position: 0, ..c }
        } else {
            c
        },
        KeyCode::End => if scrolls(c.selected_tab) {
            SummaryControls {
                text_scroll_position: end_position(
                    c.selected_tab,
                    errors,
                    c.last_text_area_height as int,
                ),
                ..c
            }
        } else {
            c
        },
        _ => c,
    }
}

/// The summary front end of one dump.
pub struct MftSummaryApp {
    pub controls: SummaryControls,
    pub mft_file: String,
    pub analysis_progress: AnalysisProgress,
}

impl MftSummaryApp {
    /// The front end as it opens on `mft_file` at the time `now`.
    pub fn new(mft_file: String, now: u64) -> (app: Self)
        ensures
            app.mft_file@ == mft_file@,
            app.analysis_progress@.wf(),
            app.analysis_progress@.total_entries == 0,
            app.analysis_progress@.errors.len() == 0,
            app.controls == (SummaryControls {
                application_state: ApplicationState::Running,
                selected_tab: SelectedTab::Progress,
                text_scroll_position: 0,
                last_text_area_height: 0,
                show_legend: false,
                is_paused: false,
            }),
    {
        MftSummaryApp {
            controls: SummaryControls {
                application_state: ApplicationState::Running,
                selected_tab: SelectedTab::Progress,
                text_scroll_position: 0,
                last_text_area_height: 0,
                show_legend: false,
                is_paused: false,
            },
            mft_file,
            analysis_progress: AnalysisProgress::new(now),
        }
    }

    /// Selects the tab to the right and scrolls back to the top.
    pub fn next_tab(&mut self)
        ensures
            final(self).controls == (SummaryControls {
                selected_tab: old(self).controls.selected_tab.after(
                    old(self).analysis_progress@.errors.len() > 0,
                ),
                text_scroll_position: 0,
                ..old(self).controls
            }),
            final(self).analysis_progress == old(self).analysis_progress,
            final(self).mft_file == old(self).mft_file,
    {
        let has_errors = self.analysis_progress.has_errors();
        self.controls.selected_tab = self.controls.selected_tab.next(has_errors);
        self.controls.text_scroll_position = 0;
    }

    /// Selects the tab to the left and scrolls back to the top.
    pub fn previous_tab(&mut self)
        ensures
            final(self).controls == (SummaryControls {
                selected_tab: old(self).controls.selected_tab.before(
                    old(self).analysis_progress@.errors.len() > 0,
                ),
                text_scroll_position: 0,
                ..old(self).controls
            }),
            final(self).analysis_progress == old(self).analysis_progress,
            final(self).mft_file == old(self).mft_file,
    {
        let has_errors = self.analysis_progress.has_errors();
        self.controls.selected_tab = self.controls.selected_tab.previous(has_errors);
        self.controls.text_scroll_position = 0;
    }

    /// Begins to quit.
    pub fn quit(&mut self)
        ensures
            final(self).controls == (SummaryControls {
                application_state: ApplicationState::Quitting,
                ..old(self).controls
            }),
            final(self).analysis_progress == old(self).analysis_progress,
            final(self).mft_file == old(self).mft_file,
    {
        self.controls.application_state = ApplicationState::Quitting;
    }

    /// Whether the loop goes on.
    pub open spec fn is_running_spec(&self) -> bool {
        self.controls.application_state == ApplicationState::Running
    }

    /// Whether the loop goes on.
    pub fn is_running(&self) -> (b: bool)
        ensures
            b == self.is_running_spec(),
    {
        self.controls.application_state == ApplicationState::Running
    }

    /// Remembers the height of the text area of the last frame, by which the
    /// page keys scroll.
    pub fn set_text_area_height(&mut self, height: u16)
        ensures
            final(self).controls == (SummaryControls {
                last_text_area_height: height,
                ..old(self).controls
            }),
            final(self).analysis_progress == old(self).analysis_progress,
            final(self).mft_file == old(self).mft_file,
    {
        self.controls.last_text_area_height = height;
    }

    fn line_step(&self) -> (n: u16)
        ensures
            n == line_step(self.controls.selected_tab, self.analysis_progress@.errors.len() as int),
    {
        if self.controls.selected_tab == SelectedTab::Errors && self.analysis_progress.errors.len()
            > MANY_ERRORS {
            2
        } else {
            1
        }
    }

    fn page_step(&self) -> (n: u16)
        ensures
            n == page_step(
                self.controls.selected_tab,
                self.analysis_progress@.errors.len() as int,
                self.controls.last_text_area_height as int,
            ),
    {
        let height = self.controls.last_text_area_height;
        if self.controls.selected_tab == SelectedTab::Errors && self.analysis_progress.errors.len()
            > MANY_ERRORS {
            if height > 10 {
                height
            } else {
                10
            }
        } else if height / 2 > 1 {
            height / 2
        } else {
            1
        }
    }

    fn scrolls(&self) -> (b: bool)
        ensures
            b == scrolls(self.controls.selected_tab),
    {
        self.controls.selected_tab == SelectedTab::TextSummary || self.controls.selected_tab
            == SelectedTab::Errors
    }

    fn scroll_down(&mut self, by: u16)
        ensures
            final(self).controls == (SummaryControls {
                text_scroll_position: scrolled_down(
                    old(self).controls.text_scroll_position as int,
                    by as int,
                ),
                ..old(self).controls
            }),
            final(self).analysis_progress == old(self).analysis_progress,
            final(self).mft_file == old(self).mft_file,
    {
        self.controls.text_scroll_position = self.controls.text_scroll_position.saturating_add(by);
    }

    fn scroll_up(&mut self, by: u16)
        ensures
            final(self).controls == (SummaryControls {
                text_scroll_position: scrolled_up(
                    old(self).controls.text_scroll_position as int,
                    by as int,
                ),
                ..old(self).controls
            }),
            final(self).analysis_progress == old(self).analysis_progress,
            final(self).mft_file == old(self).mft_file,
    {
        self.controls.text_scroll_position = self.controls.text_scroll_position.saturating_sub(by);
    }

    fn end_position(&self) -> (p: u16)
        ensures
            p == end_position(
                self.controls.selected_tab,
                self.analysis_progress@.errors.len() as int,
                self.controls.last_text_area_height as int,
            ),
    {
        if self.controls.selected_tab == SelectedTab::Errors {
            let errors = self.analysis_progress.errors.len();
            let lines = if errors > usize::MAX / 2 {
                usize::MAX
            } else {
                errors * 2
            };
            let half = (self.controls.last_text_area_height / 2) as usize;
            let end = lines.saturating_sub(half);
            (end % 65536) as u16
        } else {
            TEXT_END
        }
    }

    /// Handles a key: the arrows and `h`, `l` change the tab, `j`, `k`, the
    /// page keys, `Home` and `End` scroll the text tabs, `h` on the
    /// visualization shows or hides the legend, `p` pauses, `q` and `Esc`
    /// quit.
    pub fn on_key(&mut self, key: KeyCode)
        ensures
            final(self).controls == controls_after_key(
                old(self).controls,
                key,
                old(self).analysis_progress@.errors.len() as int,
            ),
            final(self).analysis_progress == old(self).analysis_progress,
            final(self).mft_file == old(self).mft_file,
    {
        match key {
            KeyCode::Right => self.next_tab(),
            KeyCode::Left => self.previous_tab(),
            KeyCode::Down => {
                if self.scrolls() {
                    let by = self.line_step();
                    self.scroll_down(by);
                }
            },
            KeyCode::Up => {
                if self.scrolls() {
                    let by = self.line_step();
                    self.scroll_up(by);
                }
            },
            KeyCode::Esc => self.quit(),
            KeyCode::Char(ch) => {
                if ch == 'l' {
                    self.next_tab();
                } else if ch == 'h' {
                    if self.controls.selected_tab == SelectedTab::Visualization {
                        self.controls.show_legend = !self.controls.show_legend;
                    } else {
                        self.previous_tab();
                    }
                } else if ch == 'p' {
                    self.controls.is_paused = !self.controls.is_paused;
                } else if ch == 'j' {
                    if self.scrolls() {
                        let by = self.line_step();
                        self.scroll_down(by);
                    }
                } else if ch == 'k' {
                    if self.scrolls() {
                        let by = self.line_step();
                        self.scroll_up(by);
                    }
                } else if ch == 'q' {
                    self.quit();
                }
            },
            KeyCode::PageDown => {
                if self.scrolls() {
                    let by = self.page_step();
                    self.scroll_down(by);
                }
            },
            KeyCode::PageUp => {
                if self.scrolls() {
                    let by = self.page_step();
                    self.scroll_up(by);
                }
            },
            KeyCode::Home => {
                if self.scrolls() {
                    self.controls.text_scroll_position = 0;
                }
            },
            KeyCode::End => {
                if self.scrolls() {
                    self.controls.text_scroll_position = self.end_position();
                }
            },
            _ => {},
        }
    }

    /// Takes in a message of the analysis, unless the front end is paused.
    /// Returns the message back where it was not taken in.
    pub fn update_progress(&mut self, message: ProgressMessage, now: u64) -> (kept: Option<
        ProgressMessage,
    >)
        requires
            old(self).analysis_progress@.wf(),
        ensures
            final(self).analysis_progress@.wf(),
            final(self).controls == old(self).controls,
            final(self).mft_file == old(self).mft_file,
            old(self).controls.is_paused ==> kept == Some(message) && final(self).analysis_progress
                == old(self).analysis_progress,
            !old(self).controls.is_paused ==> kept is None && final(self).analysis_progress@
                == summary_after(old(self).analysis_progress@, message@, now),
    {
        if self.controls.is_paused {
            Some(message)
        } else {
            self.analysis_progress.update_with_message(message, now);
            None
        }
    }
}

/// Number of lines that one error takes in the list.
pub const LINES_PER_ERROR: u16 = 2;

/// Number of errors that are drawn at once at most.
pub const WINDOW_LIMIT: usize = 1000;

/// The part of the error list that is drawn.
#[derive(Clone, Copy, Debug, PartialEq, Eq, Structural)]
pub struct ErrorWindow {
    /// Number of errors that fit.
    pub visible_errors: usize,
    /// The first error that is drawn.
    pub start: usize,
    /// The error after the last that is drawn.
    pub end: usize,
}

/// The errors that are drawn where the list is scrolled to line
/// `scroll_position` in an area of `area_height` lines, of which two are
/// the border and `header_lines` the header: from the error at the scroll
/// position, as many as fit, exist and the limit allows.
pub open spec fn error_window(
    scroll_position: u16,
    area_height: u16,
    header_lines: u16,
    errors: int,
) -> ErrorWindow {
    let visible = if area_height >= 2 {
        area_height - 2
    } else {
        0
    };
    let available = if visible >= header_lines {
        visible - header_lines
    } else {
        0
    };
    let visible_errors = available / (LINES_PER_ERROR as int);
    let start = scroll_position / LINES_PER_ERROR;
    let end = if start + visible_errors < errors {
        start + visible_errors
    } else {
        errors
    };
    let end = if end < start + WINDOW_LIMIT {
        end
    } else {
        start + WINDOW_LIMIT
    };
    ErrorWindow {
        visible_errors: visible_errors as usize,
        start: start as usize,
        end: end as usize,
    }
}

/// Works out the part of the error list that is drawn.
pub fn errors_window(scroll_position: u16, area_height: u16, header_lines: u16, errors: usize)
    -> (w: ErrorWindow)
    ensures
        w == error_window(scroll_position, area_height, header_lines, errors as int),
        w.end <= errors,
        w.end <= w.start + WINDOW_LIMIT,
{
    let visible = area_height.saturating_sub(2);
    let available = visible.saturating_sub(header_lines);
    let visible_errors = (available / LINES_PER_ERROR) as usize;
    let start = (scroll_position / LINES_PER_ERROR) as usize;
    let end = if start + visible_errors < errors {
        start + visible_errors
    } else {
        errors
    };
    let end = if end < start + WINDOW_LIMIT {
        end
    } else {
        start + WINDOW_LIMIT
    };
    ErrorWindow { visible_errors, start, end }
}

} // verus!
