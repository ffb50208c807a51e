//! The command line model: what the program can be asked to do, and how
//! each request is written back as arguments.

use vstd::prelude::*;
use crate::cli::action::Action;
use crate::cli::command::Command;
use crate::cli::command::CommandView;
use crate::cli::error::CliError;
use crate::cli::global_args::GlobalArgs;
use crate::cli::parse::parsed;
use crate::cli::parse::ParseError;
use crate::cli::round_trip::args_read_back;
use crate::cli::round_trip::plainly_written;
use crate::text::texts;
use crate::to_args::push_all;
use crate::to_args::ToArgs;

pub mod action;
pub mod command;
pub mod config_action;
pub mod drive_letter_pattern;
pub mod elevation_action;
pub mod elevation_check_action;
pub mod elevation_test_action;
pub mod error;
pub mod global_args;
pub mod mft_action;
pub mod mft_diff_action;
pub mod mft_dump_action;
pub mod mft_query_action;
pub mod mft_show_action;
pub mod mft_summarize_action;
pub mod mft_sync_action;
pub mod parse;
pub mod round_trip;
pub mod tokens;

verus! {

/// A whole command line.
#[derive(Debug)]
pub struct Cli {
    pub global_args: GlobalArgs,
    pub action: Action,
}

/// The mathematical value of a [`Cli`]: what it asks for, as it was
/// written.
pub struct CliView {
    pub debug: bool,
    pub request: CommandView,
}

impl View for Cli {
    type V = CliView;

    open spec fn view(&self) -> CliView {
        CliView { debug: self.global_args.debug, request: self.action.request() }
    }
}

impl Cli {
    /// Whether the span of time of a search is read back from what is
    /// written of it. Nothing is asked of the other actions.
    pub open spec fn interval_reads_back(&self) -> bool {
        self.action.interval_reads_back()
    }

    /// Turns the command line into the request to carry out.
    pub fn run(self) -> (r: Result<Command, CliError>)
        ensures
            match self.action.command() {
                Ok(c) => r is Ok && r->Ok_0@ == c,
                Err(e) => r is Err && r->Err_0 == e,
            },
    {
        self.action.run()
    }

    /// The arguments of the command line, as a relaunch needs them. Where
    /// the command line is plainly written, the relaunched program reads
    /// the same command line from them.
    pub fn args(&self) -> (args: Vec<String>)
        ensures
            texts(args@) == self.arg_texts(),
            plainly_written(*self) ==> parsed(texts(args@)) == Ok::<CliView, ParseError>(self@),
    {
        let args = self.to_args();
        proof {
            if plainly_written(*self) {
                args_read_back(*self);
            }
        }
        args
    }
}

impl ToArgs for Cli {
    /// The global arguments first, then the command.
    open spec fn arg_texts(&self) -> Seq<Seq<char>> {
        self.global_args.arg_texts() + self.action.arg_texts()
    }

    fn to_args(&self) -> (args: Vec<String>)
        ensures
            self.interval_reads_back(),
    {
        let mut args = self.global_args.to_args();
        push_all(&mut args, self.action.to_args());
        args
    }
}

} // verus!
