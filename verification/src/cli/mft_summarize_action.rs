//! The `mft summarize` command.

use vstd::prelude::*;
use crate::cli::command::Command;
use crate::cli::command::CommandView;
use crate::cli::mft_diff_action::push_flag;
use crate::cli::mft_diff_action::push_number;
use crate::cli::mft_diff_action::with_flag;
use crate::cli::mft_diff_action::with_number;
use crate::text::texts;
use crate::to_args::push_string;
use crate::to_args::ToArgs;

verus! {

/// Arguments for summarizing one MFT dump.
#[derive(Debug)]
pub struct MftSummarizeArgs {
    /// The dump to summarize.
    pub mft_file: String,
    /// Show detailed statistics.
    pub verbose: bool,
    /// Show sample file paths.
    pub show_paths: bool,
    /// Maximum number of entries to process.
    pub max_entries: Option<usize>,
}

impl MftSummarizeArgs {
    /// The request that the arguments stand for.
    pub open spec fn command(&self) -> CommandView {
        CommandView::MftSummarize {
            mft_file: self.mft_file@,
            verbose: self.verbose,
            show_paths: self.show_paths,
            max_entries: self.max_entries,
        }
    }

    /// Turns the arguments into the request to carry out.
    pub fn run(self) -> (c: Command)
        ensures
            c@ == self.command(),
    {
        Command::MftSummarize {
            mft_file: self.mft_file,
            verbose: self.verbose,
            show_paths: self.show_paths,
            max_entries: self.max_entries,
        }
    }
}

impl ToArgs for MftSummarizeArgs {
    open spec fn arg_texts(&self) -> Seq<Seq<char>> {
        with_number(
            with_flag(
                with_flag(seq![self.mft_file@], "--verbose"@, self.verbose),
                "--show-paths"@,
                self.show_paths,
            ),
            "--max-entries"@,
            self.max_entries,
        )
    }

    fn to_args(&self) -> (args: Vec<String>) {
        let mut args: Vec<String> = Vec::new();
        assert(texts(args@) =~= Seq::empty());
        push_string(&mut args, self.mft_file.clone());
        assert(texts(args@) =~= seq![self.mft_file@]);
        push_flag(&mut args, "--verbose", self.verbose);
        push_flag(&mut args, "--show-paths", self.show_paths);
        push_number(&mut args, "--max-entries", self.max_entries);
        args
    }
}

} // verus!
