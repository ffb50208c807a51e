//! The visualizer tab: the health of the records of one file.

use vstd::prelude::*;
use crate::tui::tabs::keys::KeyCode;
use crate::tui::tabs::keys::KeyboardResponse;

verus! {

/// The state of the visualizer tab.
#[derive(Clone, Copy, Debug, PartialEq, Eq, Structural)]
pub struct VisualizerTab {
    /// The file whose records are drawn.
    pub selected_file: usize,
}

/// The file selected after a key: `Up` goes to the file before, `Down` to
/// the file after.
pub open spec fn visualizer_after_key(tab: VisualizerTab, key: KeyCode) -> VisualizerTab {
    match key {
        KeyCode::Up => if tab.selected_file > 0 {
            VisualizerTab { selected_file: (tab.selected_file - 1) as usize }
        } else {
            tab
        },
        KeyCode::Down => if tab.selected_file < usize::MAX {
            VisualizerTab { selected_file: (tab.selected_file + 1) as usize }
        } else {
            tab
        },
        _ => tab,
    }
}

impl VisualizerTab {
    /// The tab as it opens: on the first file.
    pub fn new() -> (tab: Self)
        ensures
            tab.selected_file == 0,
    {
        VisualizerTab { selected_file: 0 }
    }

    /// Handles a key.
    pub fn on_key(&mut self, key: KeyCode) -> (response: KeyboardResponse)
        ensures
            *final(self) == visualizer_after_key(*old(self), key),
            response == (if key == KeyCode::Up || key == KeyCode::Down {
                KeyboardResponse::Consume
            } else {
                KeyboardResponse::Pass
            }),
    {
        match key {
            KeyCode::Up => {
                if self.selected_file > 0 {
                    self.selected_file -= 1;
                }
                KeyboardResponse::Consume
            },
            KeyCode::Down => {
                self.selected_file = self.selected_file.saturating_add(1);
                KeyboardResponse::Consume
            },
            _ => KeyboardResponse::Pass,
        }
    }

    /// Brings the selection back into a list of `files` files. Returns
    /// whether there is a file to draw.
    pub fn clamp(&mut self, files: usize) -> (any: bool)
        ensures
            any == (files > 0),
            files > 0 ==> final(self).selected_file == (if old(self).selected_file < files {
                old(self).selected_file
            } else {
                (files - 1) as usize
            }),
            files == 0 ==> *final(self) == *old(self),
    {
        if files == 0 {
            return false;
        }
        if self.selected_file > files - 1 {
            self.selected_file = files - 1;
        }
        true
    }
}

impl Default for VisualizerTab {
    fn default() -> (tab: Self)
        ensures
            tab.selected_file == 0,
    {
        VisualizerTab::new()
    }
}

} // verus!
