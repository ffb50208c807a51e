//! The `mft` command.

use vstd::prelude::*;
use crate::cli::command::Command;
use crate::cli::command::CommandView;
use crate::cli::error::CliError;
use crate::cli::mft_diff_action::MftDiffArgs;
use crate::cli::mft_dump_action::MftDumpArgs;
use crate::cli::mft_query_action::MftQueryArgs;
use crate::cli::mft_show_action::MftShowArgs;
use crate::cli::mft_summarize_action::MftSummarizeArgs;
use crate::cli::mft_sync_action::MftSyncArgs;
use crate::text::texts;
use crate::to_args::push_all;
use crate::to_args::push_text;
use crate::to_args::ToArgs;

verus! {

/// MFT operations.
#[derive(Debug)]
pub enum MftAction {
    /// Extract the Master File Table of NTFS drives.
    Dump(MftDumpArgs),
    /// Dump the matched drives into the cache directory.
    Sync(MftSyncArgs),
    /// Compare two dumps.
    Diff(MftDiffArgs),
    /// Show the analysis of dumps.
    Show(MftShowArgs),
    /// Search within the cached dumps.
    Query(MftQueryArgs),
    /// Summarize one dump.
    Summarize(MftSummarizeArgs),
}

impl MftAction {
    /// The request that the action stands for.
    pub open spec fn command(&self) -> Result<CommandView, CliError> {
        match self {
            MftAction::Dump(args) => Ok(args.command()),
            MftAction::Sync(args) => Ok(args.command()),
            MftAction::Diff(args) => Ok(args.command()),
            MftAction::Show(args) => Ok(args.command()),
            MftAction::Query(args) => args.command(),
            MftAction::Summarize(args) => Ok(args.command()),
        }
    }

    /// The request as it was written: what the action asks for, whether or
    /// not it can be carried out.
    pub open spec fn request(&self) -> CommandView {
        match self {
            MftAction::Dump(args) => args.command(),
            MftAction::Sync(args) => args.command(),
            MftAction::Diff(args) => args.command(),
            MftAction::Show(args) => args.command(),
            MftAction::Query(args) => args.request(),
            MftAction::Summarize(args) => args.command(),
        }
    }

    /// Whether the span of time of a search is read back from what is
    /// written of it. Nothing is asked of the other actions.
    pub open spec fn interval_reads_back(&self) -> bool {
        match self {
            MftAction::Query(args) => args.interval_reads_back(),
            _ => true,
        }
    }

    /// The name of the action on the command line.
    pub open spec fn name(&self) -> Seq<char> {
        match self {
            MftAction::Dump(_) => "dump"@,
            MftAction::Sync(_) => "sync"@,
            MftAction::Diff(_) => "diff"@,
            MftAction::Show(_) => "show"@,
            MftAction::Query(_) => "query"@,
            MftAction::Summarize(_) => "summarize"@,
        }
    }

    /// Turns the action into the request to carry out.
    pub fn run(self) -> (r: Result<Command, CliError>)
        ensures
            match self.command() {
                Ok(c) => r is Ok && r->Ok_0@ == c,
                Err(e) => r is Err && r->Err_0 == e,
            },
    {
        match self {
            MftAction::Dump(args) => Ok(args.run()),
            MftAction::Sync(args) => Ok(args.run()),
            MftAction::Diff(args) => Ok(args.run()),
            MftAction::Show(args) => Ok(args.run()),
            MftAction::Query(args) => args.run(),
            MftAction::Summarize(args) => Ok(args.run()),
        }
    }
}

impl ToArgs for MftAction {
    open spec fn arg_texts(&self) -> Seq<Seq<char>> {
        match self {
            MftAction::Dump(args) => seq!["dump"@] + args.arg_texts(),
            MftAction::Sync(args) => seq!["sync"@] + args.arg_texts(),
            MftAction::Diff(args) => seq!["diff"@] + args.arg_texts(),
            MftAction::Show(args) => seq!["show"@] + args.arg_texts(),
            MftAction::Query(args) => seq!["query"@] + args.arg_texts(),
            MftAction::Summarize(args) => seq!["summarize"@] + args.arg_texts(),
        }
    }

    fn to_args(&self) -> (args: Vec<String>)
        ensures
            self.interval_reads_back(),
    {
        let mut args: Vec<String> = Vec::new();
        assert(texts(args@) =~= Seq::empty());
        match self {
            MftAction::Dump(inner) => {
                push_text(&mut args, "dump");
                assert(texts(args@) =~= seq!["dump"@]);
                push_all(&mut args, inner.to_args());
            },
            MftAction::Sync(inner) => {
                push_text(&mut args, "sync");
                assert(texts(args@) =~= seq!["sync"@]);
                push_all(&mut args, inner.to_args());
            },
            MftAction::Diff(inner) => {
                push_text(&mut args, "diff");
                assert(texts(args@) =~= seq!["diff"@]);
                push_all(&mut args, inner.to_args());
            },
            MftAction::Show(inner) => {
                push_text(&mut args, "show");
                assert(texts(args@) =~= seq!["show"@]);
                push_all(&mut args, inner.to_args());
            },
            MftAction::Query(inner) => {
                push_text(&mut args, "query");
                assert(texts(args@) =~= seq!["query"@]);
                push_all(&mut args, inner.to_args());
            },
            MftAction::Summarize(inner) => {
                push_text(&mut args, "summarize");
                assert(texts(args@) =~= seq!["summarize"@]);
                push_all(&mut args, inner.to_args());
            },
        }
        args
    }
}

/// The arguments of the `mft` command.
#[derive(Debug)]
pub struct MftArgs {
    pub action: MftAction,
}

impl MftArgs {
    /// Turns the arguments into the request to carry out.
    pub fn run(self) -> (r: Result<Command, CliError>)
        ensures
            match self.action.command() {
                Ok(c) => r is Ok && r->Ok_0@ == c,
                Err(e) => r is Err && r->Err_0 == e,
            },
    {
        self.action.run()
    }
}

impl ToArgs for MftArgs {
    open spec fn arg_texts(&self) -> Seq<Seq<char>> {
        self.action.arg_texts()
    }

    fn to_args(&self) -> (args: Vec<String>)
        ensures
            self.action.interval_reads_back(),
    {
        self.action.to_args()
    }
}

} // verus!
