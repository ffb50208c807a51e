//! The state of the terminal front end and the decisions of its loop. The
//! loop itself, which draws, polls the keyboard and receives messages, is
//! run by the caller.

use vstd::prelude::*;
use crate::tui::mainbound_message::applied;
use crate::tui::mainbound_message::refusal;
use crate::tui::mainbound_message::HandleError;
use crate::tui::mainbound_message::MainboundMessage;
use crate::tui::progress::progress_views;
use crate::tui::progress::MftFileProgress;
use crate::tui::progress::ProgressView;
use crate::tui::tabs::app_tab::tab_after_key;
use crate::tui::tabs::app_tab::tab_handles;
use crate::tui::tabs::app_tab::AppTabView;
use crate::tui::tabs::app_tab::frame_prepared;
use crate::tui::tabs::app_tab::AppTab;
use crate::tui::tabs::app_tab::Prepared;
use crate::tui::tabs::app_tabs::AppTabs;
use crate::tui::tabs::keys::KeyCode;
use crate::tui::tabs::keys::KeyboardResponse;

verus! {

/// Milliseconds to wait for a key while an animation runs.
pub const ANIMATION_POLL_MS: u64 = 1;

/// Milliseconds to wait for a key otherwise.
pub const IDLE_POLL_MS: u64 = 10;

/// What the loop is to do after a key.
#[derive(Clone, Copy, Debug, PartialEq, Eq, Structural)]
pub enum AppReaction {
    /// Quitting begins: start the quit animation and let go of the workers
    /// without waiting for them.
    BeginQuit,
    /// A quit key while quitting: nothing more to do.
    StillQuitting,
    /// The key went to the tabs, which answered.
    Tabs(KeyboardResponse),
    /// The key is dropped, because the front end is quitting.
    Ignored,
}

/// The front end of `mft show`.
pub struct MftShowApp {
    mft_files: Vec<MftFileProgress>,
    tabs: AppTabs,
    is_quitting: bool,
}

/// The progress of a file that was not touched yet.
pub open spec fn untouched(path: Seq<char>) -> ProgressView {
    ProgressView {
        path,
        total_size: None,
        entry_size: None,
        processed_size: 0,
        processing_end: None,
        files_within: Seq::empty(),
        entry_health_statuses: Seq::empty(),
        errors: Seq::empty(),
    }
}

/// Whether `key` asks to quit.
pub open spec fn is_quit_key(key: KeyCode) -> bool {
    key == KeyCode::Esc || key == KeyCode::Char('q')
}

/// The time to wait for a key: short while the start animation runs or the
/// quit animation runs during quitting, longer otherwise.
pub open spec fn poll_timeout(startup_running: bool, quitting: bool, quit_running: bool) -> u64 {
    if startup_running || (quitting && quit_running) {
        ANIMATION_POLL_MS
    } else {
        IDLE_POLL_MS
    }
}

impl MftShowApp {
    /// The progress of each file.
    pub closed spec fn files(&self) -> Seq<ProgressView> {
        progress_views(self.mft_files@)
    }

    /// The states of the tabs.
    pub closed spec fn tab_states(&self) -> Seq<AppTabView> {
        self.tabs.states()
    }

    /// The index of the selected tab.
    pub closed spec fn selected_tab(&self) -> int {
        self.tabs.selection()
    }

    /// The number of matches that the selected tab has at hand.
    pub closed spec fn matched(&self) -> nat {
        self.tabs.matched()
    }

    /// The entries in the index of the selected tab.
    pub closed spec fn indexed(&self) -> Seq<(Seq<char>, Option<i64>, Option<i64>, Option<i64>)> {
        self.tabs.indexed()
    }

    /// Whether the user asked to quit.
    pub closed spec fn quitting(&self) -> bool {
        self.is_quitting
    }

    /// The invariant of the front end.
    pub closed spec fn wf(&self) -> bool {
        self.tabs.wf()
    }

    /// The front end for the dumps at `paths`, before any work was done.
    pub fn new(paths: Vec<String>) -> (app: Self)
        ensures
            app.wf(),
            !app.quitting(),
            app.selected_tab() == 0,
            app.tab_states().len() == 4,
            app.files().len() == paths@.len(),
            forall|i: int| 0 <= i < paths@.len() ==> #[trigger] app.files()[i] == untouched(paths@[i]@),
    {
        let mut mft_files: Vec<MftFileProgress> = Vec::new();
        let mut i: usize = 0;
        while i < paths.len()
            invariant
                i <= paths.len(),
                mft_files@.len() == i,
                forall|j: int| 0 <= j < i ==> (#[trigger] mft_files@[j])@ == untouched(paths@[j]@),
            decreases paths.len() - i,
        {
            mft_files.push(MftFileProgress::new(paths[i].clone()));
            i += 1;
        }
        MftShowApp { mft_files, tabs: AppTabs::new(), is_quitting: false }
    }

    /// The progress of the files.
    pub fn mft_files(&self) -> (files: &Vec<MftFileProgress>)
        ensures
            progress_views(files@) == self.files(),
    {
        &self.mft_files
    }

    /// Whether the user asked to quit.
    pub fn is_quitting(&self) -> (b: bool)
        ensures
            b == self.quitting(),
    {
        self.is_quitting
    }

    /// Applies a message of a worker. `now` is the time in milliseconds
    /// since the analysis began.
    pub fn handle_message(&mut self, message: MainboundMessage, now: u64) -> (r: Result<
        (),
        HandleError,
    >)
        requires
            old(self).wf(),
        ensures
            final(self).wf(),
            final(self).quitting() == old(self).quitting(),
            final(self).tab_states() == old(self).tab_states(),
            final(self).selected_tab() == old(self).selected_tab(),
            match refusal(old(self).files(), message@) {
                Some(e) => r == Err::<(), HandleError>(e) && final(self).files() == old(self).files(),
                None => r is Ok && final(self).files() == old(self).files().update(
                    message@.file_index() as int,
                    applied(old(self).files()[message@.file_index() as int], message@, now),
                ),
            },
    {
        message.handle(&mut self.mft_files, now)
    }

    /// The time to wait for a key, in milliseconds.
    pub fn poll_timeout_ms(&self, startup_running: bool, quit_running: bool) -> (ms: u64)
        ensures
            ms == poll_timeout(startup_running, self.quitting(), quit_running),
    {
        if startup_running || (self.is_quitting && quit_running) {
            ANIMATION_POLL_MS
        } else {
            IDLE_POLL_MS
        }
    }

    /// Whether the loop is over: the user asked to quit and the quit
    /// animation has run out.
    pub fn should_exit(&self, quit_running: bool) -> (b: bool)
        ensures
            b == (self.quitting() && !quit_running),
    {
        self.is_quitting && !quit_running
    }

    /// Handles a key. `q` and `Esc` begin quitting and never reach the tabs;
    /// while quitting, no key reaches the tabs.
    pub fn on_key(&mut self, key: KeyCode) -> (reaction: AppReaction)
        requires
            old(self).wf(),
        ensures
            final(self).wf(),
            final(self).files() == old(self).files(),
            final(self).tab_states().len() == old(self).tab_states().len(),
            is_quit_key(key) ==> final(self).quitting() && final(self).tab_states() == old(self).tab_states() && final(self).selected_tab() == old(self).selected_tab()
                && reaction == (if old(self).quitting() {
                AppReaction::StillQuitting
            } else {
                AppReaction::BeginQuit
            }),
            !is_quit_key(key) ==> final(self).quitting() == old(self).quitting(),
            !is_quit_key(key) && old(self).quitting() ==> reaction == AppReaction::Ignored
                && final(self).tab_states() == old(self).tab_states() && final(self).selected_tab() == old(self).selected_tab(),
            !is_quit_key(key) && !old(self).quitting() ==> reaction is Tabs && (key
                == KeyCode::Left ==> reaction == AppReaction::Tabs(KeyboardResponse::Consume)
                && final(self).tab_states() == old(self).tab_states() && final(self).selected_tab()
                == (if old(self).selected_tab() > 0 {
                old(self).selected_tab() - 1
            } else {
                0
            })) && (key == KeyCode::Right ==> reaction == AppReaction::Tabs(
                KeyboardResponse::Consume,
            ) && final(self).tab_states() == old(self).tab_states() && final(self).selected_tab()
                == (if old(self).selected_tab() < old(self).tab_states().len() - 1 {
                old(self).selected_tab() + 1
            } else {
                old(self).selected_tab()
            })) && (key != KeyCode::Left && key != KeyCode::Right ==> final(self).selected_tab()
                == old(self).selected_tab() && final(self).tab_states() == old(self).tab_states().update(
                old(self).selected_tab(),
                tab_after_key(
                    old(self).tab_states()[old(self).selected_tab()],
                    key,
                    old(self).matched() as int,
                ),
            ) && reaction == AppReaction::Tabs(
                if tab_handles(old(self).tab_states()[old(self).selected_tab()], key) {
                    KeyboardResponse::Consume
                } else {
                    KeyboardResponse::Pass
                },
            )),
    {
        let quit = match key {
            KeyCode::Esc => true,
            KeyCode::Char(c) => c == 'q',
            _ => false,
        };
        if quit {
            if self.is_quitting {
                AppReaction::StillQuitting
            } else {
                self.is_quitting = true;
                AppReaction::BeginQuit
            }
        } else if self.is_quitting {
            AppReaction::Ignored
        } else {
            AppReaction::Tabs(self.tabs.on_key(key))
        }
    }
}

impl MftShowApp {
    /// The index of the selected tab.
    pub fn selected(&self) -> (i: usize)
        ensures
            i == self.selected_tab(),
    {
        self.tabs.selected()
    }

    /// The number of tabs.
    pub fn tab_count(&self) -> (n: usize)
        ensures
            n == self.tab_states().len(),
    {
        self.tabs.len()
    }

    /// Tab `i`.
    pub fn tab(&self, i: usize) -> (t: &AppTab)
        requires
            i < self.tab_states().len(),
        ensures
            t.state() == self.tab_states()[i as int],
    {
        self.tabs.tab(i)
    }

    /// Tells whether the invariant of the front end holds.
    pub fn is_well_formed(&self) -> (b: bool)
        ensures
            b == self.wf(),
    {
        self.tabs.is_well_formed()
    }

    /// Brings the selected tab up to date for a frame with a body of
    /// `height` lines over the files of the front end, and hands out what
    /// is to be drawn of it. The files, the selection and the other tabs
    /// stay as they are.
    pub fn prepare_frame(&mut self, height: usize) -> (p: Prepared)
        requires
            old(self).wf(),
        ensures
            final(self).wf(),
            final(self).files() == old(self).files(),
            final(self).quitting() == old(self).quitting(),
            final(self).selected_tab() == old(self).selected_tab(),
            final(self).tab_states().len() == old(self).tab_states().len(),
            forall|i: int|
                0 <= i < old(self).tab_states().len() && i != old(self).selected_tab() ==> final(self).tab_states()[i] == old(self).tab_states()[i],
            frame_prepared(
                old(self).tab_states()[old(self).selected_tab()],
                old(self).indexed(),
                final(self).tab_states()[old(self).selected_tab()],
                final(self).indexed(),
                final(self).matched(),
                p,
                old(self).files(),
                height,
            ),
    {
        self.tabs.prepare(&self.mft_files, height)
    }
}

} // verus!
