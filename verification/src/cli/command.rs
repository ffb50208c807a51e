//! What the program is asked to do, once the command line is read: the work
//! that its outer layer carries out.

use vstd::prelude::*;
use crate::cli::config_action::ConfigKey;

verus! {

/// One request to the program.
#[derive(Debug)]
pub enum Command {
    /// Show every configuration value.
    ConfigShow,
    /// Print one configuration value.
    ConfigGet { key: ConfigKey },
    /// Store one configuration value.
    ConfigSet { key: ConfigKey, value: String },
    /// Print whether the process is elevated.
    ElevationCheck,
    /// Relaunch elevated and wait for the child.
    ElevationTest,
    /// Dump the MFT of each matched drive to a file.
    MftDump { drive_letters: String, output_path: String, overwrite_existing: bool },
    /// Dump the MFT of each matched drive into the cache directory.
    MftSync { drive_pattern: String, overwrite_existing: bool },
    /// Compare two dumps byte by byte.
    MftDiff { file1: String, file2: String, verbose: bool, max_diffs: Option<usize> },
    /// Show the analysis of the matched dumps in the terminal.
    MftShow {
        mft_pattern: Option<String>,
        verbose: bool,
        show_paths: bool,
        max_entries: Option<usize>,
        threads: Option<usize>,
    },
    /// Search the cached dumps of the matched drives.
    MftQuery {
        drive_pattern: String,
        query: String,
        limit: usize,
        display_interval: u64,
        top_n: usize,
    },
    /// Show the summary of one dump in the terminal.
    MftSummarize { mft_file: String, verbose: bool, show_paths: bool, max_entries: Option<usize> },
}

/// The mathematical value of a [`Command`].
pub enum CommandView {
    ConfigShow,
    ConfigGet { key: ConfigKey },
    ConfigSet { key: ConfigKey, value: Seq<char> },
    ElevationCheck,
    ElevationTest,
    MftDump { drive_letters: Seq<char>, output_path: Seq<char>, overwrite_existing: bool },
    MftSync { drive_pattern: Seq<char>, overwrite_existing: bool },
    MftDiff { file1: Seq<char>, file2: Seq<char>, verbose: bool, max_diffs: Option<usize> },
    MftShow {
        mft_pattern: Option<Seq<char>>,
        verbose: bool,
        show_paths: bool,
        max_entries: Option<usize>,
        threads: Option<usize>,
    },
    MftQuery {
        drive_pattern: Seq<char>,
        query: Seq<char>,
        limit: usize,
        display_interval: u64,
        top_n: usize,
    },
    MftSummarize { mft_file: Seq<char>, verbose: bool, show_paths: bool, max_entries: Option<usize> },
}

/// The text of an optional string.
pub open spec fn optional_text(s: Option<String>) -> Option<Seq<char>> {
    match s {
        Some(s) => Some(s@),
        None => None,
    }
}

impl View for Command {
    type V = CommandView;

    open spec fn view(&self) -> CommandView {
        match self {
            Command::ConfigShow => CommandView::ConfigShow,
            Command::ConfigGet { key } => CommandView::ConfigGet { key: *key },
            Command::ConfigSet { key, value } => CommandView::ConfigSet {
                key: *key,
                value: value@,
            },
            Command::ElevationCheck => CommandView::ElevationCheck,
            Command::ElevationTest => CommandView::ElevationTest,
            Command::MftDump { drive_letters, output_path, overwrite_existing } => {
                CommandView::MftDump {
                    drive_letters: drive_letters@,
                    output_path: output_path@,
                    overwrite_existing: *overwrite_existing,
                }
            },
            Command::MftSync { drive_pattern, overwrite_existing } => CommandView::MftSync {
                drive_pattern: drive_pattern@,
                overwrite_existing: *overwrite_existing,
            },
            Command::MftDiff { file1, file2, verbose, max_diffs } => CommandView::MftDiff {
                file1: file1@,
                file2: file2@,
                verbose: *verbose,
                max_diffs: *max_diffs,
            },
            Command::MftShow { mft_pattern, verbose, show_paths, max_entries, threads } => {
                CommandView::MftShow {
                    mft_pattern: optional_text(*mft_pattern),
                    verbose: *verbose,
                    show_paths: *show_paths,
                    max_entries: *max_entries,
                    threads: *threads,
                }
            },
            Command::MftQuery { drive_pattern, query, limit, display_interval, top_n } => {
                CommandView::MftQuery {
                    drive_pattern: drive_pattern@,
                    query: query@,
                    limit: *limit,
                    display_interval: *display_interval,
                    top_n: *top_n,
                }
            },
            Command::MftSummarize { mft_file, verbose, show_paths, max_entries } => {
                CommandView::MftSummarize {
                    mft_file: mft_file@,
                    verbose: *verbose,
                    show_paths: *show_paths,
                    max_entries: *max_entries,
                }
            },
        }
    }
}

} // verus!
