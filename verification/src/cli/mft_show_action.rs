//! The `mft show` command.

use vstd::prelude::*;
use crate::cli::command::optional_text;
use crate::cli::command::Command;
use crate::cli::command::CommandView;
use crate::cli::mft_diff_action::push_flag;
use crate::cli::mft_diff_action::push_number;
use crate::cli::mft_diff_action::with_flag;
use crate::cli::mft_diff_action::with_number;
use crate::text::texts;
use crate::to_args::push_string;
use crate::to_args::ToArgs;

verus! {

/// Arguments for showing the analysis of MFT dumps.
#[derive(Debug)]
pub struct MftShowArgs {
    /// Glob pattern of the dumps to analyze; the cached dumps where none is
    /// given.
    pub mft_pattern: Option<String>,
    /// Show detailed statistics.
    pub verbose: bool,
    /// Show sample file paths.
    pub show_paths: bool,
    /// Maximum number of entries to process.
    pub max_entries: Option<usize>,
    /// Number of threads to use.
    pub threads: Option<usize>,
}

impl MftShowArgs {
    /// The request that the arguments stand for.
    pub open spec fn command(&self) -> CommandView {
        CommandView::MftShow {
            mft_pattern: optional_text(self.mft_pattern),
            verbose: self.verbose,
            show_paths: self.show_paths,
            max_entries: self.max_entries,
            threads: self.threads,
        }
    }

    /// Turns the arguments into the request to carry out.
    pub fn run(self) -> (c: Command)
        ensures
            c@ == self.command(),
    {
        Command::MftShow {
            mft_pattern: self.mft_pattern,
            verbose: self.verbose,
            show_paths: self.show_paths,
            max_entries: self.max_entries,
            threads: self.threads,
        }
    }
}

impl ToArgs for MftShowArgs {
    open spec fn arg_texts(&self) -> Seq<Seq<char>> {
        let head = match self.mft_pattern {
            Some(p) => seq![p@],
            None => Seq::empty(),
        };
        with_number(
            with_number(
                with_flag(
                    with_flag(head, "--verbose"@, self.verbose),
                    "--show-paths"@,
                    self.show_paths,
                ),
                "--max-entries"@,
                self.max_entries,
            ),
            "--threads"@,
            self.threads,
        )
    }

    fn to_args(&self) -> (args: Vec<String>) {
        let mut args: Vec<String> = Vec::new();
        assert(texts(args@) =~= Seq::empty());
        match &self.mft_pattern {
            Some(p) => {
                push_string(&mut args, p.clone());
                assert(texts(args@) =~= seq![p@]);
            },
            None => {},
        }
        push_flag(&mut args, "--verbose", self.verbose);
        push_flag(&mut args, "--show-paths", self.show_paths);
        push_number(&mut args, "--max-entries", self.max_entries);
        push_number(&mut args, "--threads", self.threads);
        args
    }
}

} // verus!
