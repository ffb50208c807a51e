//! The messages that workers send to the front end, and what each does to
//! the progress of its file.

use vstd::prelude::*;
use crate::resolver::discovered_views;
use crate::resolver::DiscoveredFile;
use crate::resolver::DiscoveredView;
use crate::tui::progress::progress_views;
use crate::text::texts;
use crate::tui::progress::MftFileProgress;
use crate::tui::progress::ProgressView;

verus! {

/// A progress event of one MFT file.
#[derive(Debug)]
pub enum MainboundMessage {
    /// The size of the dump is known.
    FileSizeDiscovered { file_index: usize, file_size: u64 },
    /// The size of one record is known.
    EntrySizeDiscovered { file_index: usize, entry_size: u64 },
    /// So many more bytes were worked off.
    Progress { file_index: usize, processed_size: u64 },
    /// Paths were found.
    DiscoveredFiles { file_index: usize, files: Vec<DiscoveredFile> },
    /// The health bit of one record.
    EntryStatus { file_index: usize, is_healthy: bool },
    /// The file is worked off.
    Complete { file_index: usize },
    /// Something went wrong with one record or with the file.
    Error { file_index: usize, error: String },
}

/// The mathematical value of a [`MainboundMessage`].
pub enum MessageView {
    FileSizeDiscovered { file_index: usize, file_size: u64 },
    EntrySizeDiscovered { file_index: usize, entry_size: u64 },
    Progress { file_index: usize, processed_size: u64 },
    DiscoveredFiles { file_index: usize, files: Seq<DiscoveredView> },
    EntryStatus { file_index: usize, is_healthy: bool },
    Complete { file_index: usize },
    Error { file_index: usize, error: Seq<char> },
}

impl View for MainboundMessage {
    type V = MessageView;

    open spec fn view(&self) -> MessageView {
        match self {
            MainboundMessage::FileSizeDiscovered { file_index, file_size } => {
                MessageView::FileSizeDiscovered { file_index: *file_index, file_size: *file_size }
            },
            MainboundMessage::EntrySizeDiscovered { file_index, entry_size } => {
                MessageView::EntrySizeDiscovered {
                    file_index: *file_index,
                    entry_size: *entry_size,
                }
            },
            MainboundMessage::Progress { file_index, processed_size } => MessageView::Progress {
                file_index: *file_index,
                processed_size: *processed_size,
            },
            MainboundMessage::DiscoveredFiles { file_index, files } => {
                MessageView::DiscoveredFiles {
                    file_index: *file_index,
                    files: discovered_views(files@),
                }
            },
            MainboundMessage::EntryStatus { file_index, is_healthy } => MessageView::EntryStatus {
                file_index: *file_index,
                is_healthy: *is_healthy,
            },
            MainboundMessage::Complete { file_index } => MessageView::Complete {
                file_index: *file_index,
            },
            MainboundMessage::Error { file_index, error } => MessageView::Error {
                file_index: *file_index,
                error: error@,
            },
        }
    }
}

/// The values of a sequence of messages.
pub open spec fn message_views(messages: Seq<MainboundMessage>) -> Seq<MessageView> {
    messages.map_values(|m: MainboundMessage| m@)
}

impl MessageView {
    /// The file that the message is about.
    pub open spec fn file_index(self) -> usize {
        match self {
            MessageView::FileSizeDiscovered { file_index, .. } => file_index,
            MessageView::EntrySizeDiscovered { file_index, .. } => file_index,
            MessageView::Progress { file_index, .. } => file_index,
            MessageView::DiscoveredFiles { file_index, .. } => file_index,
            MessageView::EntryStatus { file_index, .. } => file_index,
            MessageView::Complete { file_index } => file_index,
            MessageView::Error { file_index, .. } => file_index,
        }
    }
}

/// Why a message could not be applied.
#[derive(Clone, Copy, Debug, PartialEq, Eq, Structural)]
pub enum HandleError {
    /// The message names a file that the front end does not know.
    UnknownFile,
    /// The byte count of the file would leave the range of 64 bits.
    Overflow,
}

/// The full paths of discovered files.
pub open spec fn full_paths(files: Seq<DiscoveredView>) -> Seq<Seq<char>> {
    files.map_values(|f: DiscoveredView| f.full_path)
}

/// What `message` does to the progress of its file at the time `now`.
pub open spec fn applied(p: ProgressView, message: MessageView, now: u64) -> ProgressView {
    match message {
        MessageView::FileSizeDiscovered { file_size, .. } => ProgressView {
            total_size: Some(file_size),
            ..p
        },
        MessageView::EntrySizeDiscovered { entry_size, .. } => ProgressView {
            entry_size: Some(entry_size),
            ..p
        },
        MessageView::Progress { processed_size, .. } => ProgressView {
            processed_size: (p.processed_size + processed_size) as u64,
            ..p
        },
        MessageView::DiscoveredFiles { files, .. } => ProgressView {
            files_within: p.files_within + full_paths(files),
            ..p
        },
        MessageView::EntryStatus { is_healthy, .. } => ProgressView {
            entry_health_statuses: p.entry_health_statuses.push(is_healthy),
            ..p
        },
        MessageView::Complete { .. } => ProgressView { processing_end: Some(now), ..p },
        MessageView::Error { error, .. } => ProgressView { errors: p.errors.push(error), ..p },
    }
}

/// Why `message` cannot be applied to `files`, if it cannot.
pub open spec fn refusal(files: Seq<ProgressView>, message: MessageView) -> Option<HandleError> {
    if message.file_index() >= files.len() {
        Some(HandleError::UnknownFile)
    } else {
        match message {
            MessageView::Progress { file_index, processed_size } => {
                if files[file_index as int].processed_size + processed_size > u64::MAX {
                    Some(HandleError::Overflow)
                } else {
                    None
                }
            },
            _ => None,
        }
    }
}

impl MainboundMessage {
    /// The file that the message is about.
    pub fn file_index(&self) -> (i: usize)
        ensures
            i == self@.file_index(),
    {
        match self {
            MainboundMessage::FileSizeDiscovered { file_index, .. } => *file_index,
            MainboundMessage::EntrySizeDiscovered { file_index, .. } => *file_index,
            MainboundMessage::Progress { file_index, .. } => *file_index,
            MainboundMessage::DiscoveredFiles { file_index, .. } => *file_index,
            MainboundMessage::EntryStatus { file_index, .. } => *file_index,
            MainboundMessage::Complete { file_index } => *file_index,
            MainboundMessage::Error { file_index, .. } => *file_index,
        }
    }

    /// Applies the message to the progress of the file it names. `now` is
    /// the time in milliseconds since the analysis began; a completed file
    /// is stamped with it.
    ///
    /// A message for a file that is not in `mft_files`, or a byte count that
    /// would overflow, changes nothing and is reported.
    pub fn handle(self, mft_files: &mut Vec<MftFileProgress>, now: u64) -> (r: Result<
        (),
        HandleError,
    >)
        ensures
            match refusal(progress_views(old(mft_files)@), self@) {
                Some(e) => r == Err::<(), HandleError>(e) && progress_views(final(mft_files)@)
                    == progress_views(old(mft_files)@),
                None => r is Ok && progress_views(final(mft_files)@) == progress_views(
                    old(mft_files)@,
                ).update(
                    self@.file_index() as int,
                    applied(
                        progress_views(old(mft_files)@)[self@.file_index() as int],
                        self@,
                        now,
                    ),
                ),
            },
    {
        let index = self.file_index();
        if index >= mft_files.len() {
            return Err(HandleError::UnknownFile);
        }
        let ghost before = progress_views(mft_files@);
        let ghost me = self@;
        match self {
            MainboundMessage::FileSizeDiscovered { file_index, file_size } => {
                mft_files[index].total_size = Some(file_size);
            },
            MainboundMessage::EntrySizeDiscovered { file_index, entry_size } => {
                mft_files[index].entry_size = Some(entry_size);
            },
            MainboundMessage::Progress { file_index, processed_size } => {
                match mft_files[index].processed_size.checked_add(processed_size) {
                    Some(sum) => {
                        mft_files[index].processed_size = sum;
                    },
                    None => {
                        return Err(HandleError::Overflow);
                    },
                }
            },
            MainboundMessage::Complete { file_index } => {
                mft_files[index].processing_end = Some(now);
            },
            MainboundMessage::Error { file_index, error } => {
                let ghost old_errors = mft_files[index as int].errors@;
                mft_files[index].errors.push(error);
                assert(texts(mft_files[index as int].errors@) =~= texts(old_errors).push(error@));
            },
            MainboundMessage::DiscoveredFiles { file_index, files } => {
                let ghost old_paths = texts(mft_files[index as int].files_within@);
                let mut k: usize = 0;
                assert(full_paths(discovered_views(files@)).subrange(0, 0) =~= Seq::<
                    Seq<char>,
                >::empty());
                assert(old_paths + Seq::<Seq<char>>::empty() =~= old_paths);
                while k < files.len()
                    invariant
                        k <= files.len(),
                        index < mft_files.len(),
                        mft_files@.len() == before.len(),
                        forall|j: int|
                            0 <= j < before.len() && j != index ==> (
                            #[trigger] mft_files@[j])@ == before[j],
                        mft_files@[index as int]@ == (ProgressView {
                            files_within: old_paths + full_paths(
                                discovered_views(files@),
                            ).subrange(0, k as int),
                            ..before[index as int]
                        }),
                    decreases files.len() - k,
                {
                    let ghost so_far = texts(mft_files[index as int].files_within@);
                    let path = files[k].full_path.clone();
                    mft_files[index].files_within.push(path);
                    proof {
                        let all = full_paths(discovered_views(files@));
                        assert(all[k as int] == files@[k as int].full_path@);
                        assert(all.subrange(0, k + 1) =~= all.subrange(0, k as int).push(
                            all[k as int],
                        ));
                        assert(texts(mft_files[index as int].files_within@) =~= so_far.push(
                            path@,
                        ));
                        assert(old_paths + all.subrange(0, k + 1) =~= (old_paths + all.subrange(
                            0,
                            k as int,
                        )).push(all[k as int]));
                    }
                    k += 1;
                }
                proof {
                    let all = full_paths(discovered_views(files@));
                    assert(all.subrange(0, files.len() as int) =~= all);
                }
            },
            MainboundMessage::EntryStatus { file_index, is_healthy } => {
                mft_files[index].entry_health_statuses.push(is_healthy);
            },
        }
        proof {
            assert(progress_views(mft_files@) =~= before.update(
                index as int,
                applied(before[index as int], me, now),
            ));
        }
        Ok(())
    }
}

} // verus!
